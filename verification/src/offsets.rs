//! Offset table and executable-region scanner.
//!
//! The addresses of the loader internals that get intercepted are not stable
//! across binary versions. Each entry starts at a hard-coded last-known-good
//! offset and is overwritten by whatever a resolver finds; when a resolver
//! finds nothing, the fallback stands and the caller can only warn.

use crate::insn::{category_of, classify, Category};
use vstd::prelude::*;

verus! {

pub const LOOKUP_STREAM_HASH_OFFSET: usize = 0x335a350;

pub const IDK_OFFSET: usize = 0x335f150;

pub const ADD_IDX_TO_TABLE1_AND_TABLE2_OFFSET: usize = 0x33595a0;

pub const PARSE_EFF_OFFSET: usize = 0x3379e14;

pub const PARSE_EFF_NUTEXB_OFFSET: usize = 0x337a2f0;

pub const PARSE_PARAM_OFFSET: usize = 0x3539714;

pub const PARSE_MODEL_XMB_OFFSET: usize = 0x33fad28;

pub const PARSE_ARC_FILE_OFFSET: usize = 0x3588f3c;

pub const PARSE_FONT_FILE_OFFSET: usize = 0x3576f28;

pub const PARSE_NUMSHB_FILE_OFFSET: usize = 0x33e1d50;

pub const PARSE_NUMATB_NUTEXB_OFFSET: usize = 0x3408384;

pub const PARSE_NUMSHEXB_FILE_OFFSET: usize = 0x33e3c44;

pub const PARSE_NUMATB_FILE_OFFSET: usize = 0x340791c;

pub const PARSE_NUMDLB_FILE_OFFSET: usize = 0x33dc6a8;

pub const PARSE_LOG_XMB_OFFSET: usize = 0x33fadf4;

pub const PARSE_MODEL_XMB_2_OFFSET: usize = 0x3406f44;

pub const TITLE_SCREEN_VERSION_OFFSET: usize = 0x35ba960;

pub const PARSE_NUS3BANK_FILE_OFFSET: usize = 0x35528f4;

/// The named function offsets the interception pipeline attaches to, built
/// once at startup and read-only afterwards.
#[derive(Clone, Copy, PartialEq, Eq, Structural, Debug)]
pub struct OffsetTable {
    pub lookup_stream_hash: usize,
    pub idk: usize,
    pub add_idx_to_table1_and_table2: usize,
    pub parse_eff: usize,
    pub parse_eff_nutexb: usize,
    pub parse_param: usize,
    pub parse_model_xmb: usize,
    pub parse_arc_file: usize,
    pub parse_font_file: usize,
    pub parse_numshb_file: usize,
    pub parse_numatb_nutexb: usize,
    pub parse_numshexb_file: usize,
    pub parse_numatb_file: usize,
    pub parse_numdlb_file: usize,
    pub parse_log_xmb: usize,
    pub parse_model_xmb_2: usize,
    pub title_screen_version: usize,
    pub parse_nus3bank_file: usize,
}

impl OffsetTable {
    /// Every entry holds its last-known-good fallback offset.
    pub open spec fn is_default(self) -> bool {
        &&& self.lookup_stream_hash == LOOKUP_STREAM_HASH_OFFSET
        &&& self.idk == IDK_OFFSET
        &&& self.add_idx_to_table1_and_table2 == ADD_IDX_TO_TABLE1_AND_TABLE2_OFFSET
        &&& self.parse_eff == PARSE_EFF_OFFSET
        &&& self.parse_eff_nutexb == PARSE_EFF_NUTEXB_OFFSET
        &&& self.parse_param == PARSE_PARAM_OFFSET
        &&& self.parse_model_xmb == PARSE_MODEL_XMB_OFFSET
        &&& self.parse_arc_file == PARSE_ARC_FILE_OFFSET
        &&& self.parse_font_file == PARSE_FONT_FILE_OFFSET
        &&& self.parse_numshb_file == PARSE_NUMSHB_FILE_OFFSET
        &&& self.parse_numatb_nutexb == PARSE_NUMATB_NUTEXB_OFFSET
        &&& self.parse_numshexb_file == PARSE_NUMSHEXB_FILE_OFFSET
        &&& self.parse_numatb_file == PARSE_NUMATB_FILE_OFFSET
        &&& self.parse_numdlb_file == PARSE_NUMDLB_FILE_OFFSET
        &&& self.parse_log_xmb == PARSE_LOG_XMB_OFFSET
        &&& self.parse_model_xmb_2 == PARSE_MODEL_XMB_2_OFFSET
        &&& self.title_screen_version == TITLE_SCREEN_VERSION_OFFSET
        &&& self.parse_nus3bank_file == PARSE_NUS3BANK_FILE_OFFSET
    }

    /// Builds the table of last-known-good offsets.
    pub fn new() -> (t: OffsetTable)
        ensures
            t.is_default(),
    {
        OffsetTable {
            lookup_stream_hash: LOOKUP_STREAM_HASH_OFFSET,
            idk: IDK_OFFSET,
            add_idx_to_table1_and_table2: ADD_IDX_TO_TABLE1_AND_TABLE2_OFFSET,
            parse_eff: PARSE_EFF_OFFSET,
            parse_eff_nutexb: PARSE_EFF_NUTEXB_OFFSET,
            parse_param: PARSE_PARAM_OFFSET,
            parse_model_xmb: PARSE_MODEL_XMB_OFFSET,
            parse_arc_file: PARSE_ARC_FILE_OFFSET,
            parse_font_file: PARSE_FONT_FILE_OFFSET,
            parse_numshb_file: PARSE_NUMSHB_FILE_OFFSET,
            parse_numatb_nutexb: PARSE_NUMATB_NUTEXB_OFFSET,
            parse_numshexb_file: PARSE_NUMSHEXB_FILE_OFFSET,
            parse_numatb_file: PARSE_NUMATB_FILE_OFFSET,
            parse_numdlb_file: PARSE_NUMDLB_FILE_OFFSET,
            parse_log_xmb: PARSE_LOG_XMB_OFFSET,
            parse_model_xmb_2: PARSE_MODEL_XMB_2_OFFSET,
            title_screen_version: TITLE_SCREEN_VERSION_OFFSET,
            parse_nus3bank_file: PARSE_NUS3BANK_FILE_OFFSET,
        }
    }
}

/// Builds the startup offset table. Every scan of the running binary is
/// currently disabled, so each entry keeps its last-known-good offset;
/// callers overwrite single entries with `resolved` when a resolver runs.
pub fn search_offsets() -> (t: OffsetTable)
    ensures
        t.is_default(),
{
    OffsetTable::new()
}

/// The fallback policy for one entry: the address a resolver found, or the
/// last-known-good offset when it found nothing.
pub fn resolved(found: Option<usize>, fallback: usize) -> (r: usize)
    ensures
        r == match found {
            Some(a) => a,
            None => fallback,
        },
{
    match found {
        Some(a) => a,
        None => fallback,
    }
}

/// One entry's byte-pattern scan: the offset of the pattern's first
/// occurrence in the region's bytes, or the last-known-good fallback when
/// the pattern is absent — in that case the caller can only warn, since the
/// fallback most likely fits another binary version.
pub fn search_offset_by_pattern(text: &[u8], pattern: &[u8], fallback: usize) -> (r: usize)
    requires
        pattern@.len() > 0,
    ensures
        (exists|q: int| crate::pattern::occurs_at(text@, pattern@, q)) ==> {
            &&& crate::pattern::occurs_at(text@, pattern@, r as int)
            &&& forall|q: int| 0 <= q < r ==> !crate::pattern::occurs_at(text@, pattern@, q)
        },
        (forall|q: int| !crate::pattern::occurs_at(text@, pattern@, q)) ==> r == fallback,
{
    resolved(crate::pattern::find_subsequence(text, pattern), fallback)
}

/// The instruction word stored little-endian at byte offset `4 * i`.
pub open spec fn word_at(bytes: Seq<u8>, i: int) -> u32 {
    (bytes[4 * i] + bytes[4 * i + 1] * 0x100 + bytes[4 * i + 2] * 0x10000 + bytes[4 * i + 3]
        * 0x1000000) as u32
}

/// Packs the region's raw bytes into its 4-byte-aligned instruction words,
/// little-endian; trailing bytes of a partial word are not part of any
/// aligned word and are dropped.
pub fn words_from_bytes(bytes: &[u8]) -> (r: Vec<u32>)
    ensures
        r@.len() == bytes@.len() / 4,
        forall|i: int| 0 <= i < r@.len() ==> r@[i] == word_at(bytes@, i),
{
    let len = bytes.len();
    let n = len / 4;
    let mut r: Vec<u32> = Vec::new();
    let mut i: usize = 0;
    while i < n
        invariant
            0 <= i <= n,
            len == bytes@.len(),
            n == bytes@.len() / 4,
            4 * n <= len,
            r@.len() == i,
            forall|k: int| 0 <= k < i ==> r@[k] == word_at(bytes@, k),
        decreases n - i,
    {
        let b0 = bytes[4 * i] as u32;
        let b1 = bytes[4 * i + 1] as u32;
        let b2 = bytes[4 * i + 2] as u32;
        let b3 = bytes[4 * i + 3] as u32;
        r.push(b0 + b1 * 0x100 + b2 * 0x10000 + b3 * 0x1000000);
        i = i + 1;
    }
    r
}

/// The executable-region scanner: yields `(address, category)` for every
/// 4-byte-aligned word of the region, read out into a plain word buffer.
/// Re-constructible rather than resumable, exactly as a fresh scan of the
/// region would be.
pub struct TextIter {
    /// The region's instruction words, in address order.
    pub words: Vec<u32>,
    /// Address of the first word.
    pub base: usize,
    /// Index of the next word to yield.
    pub pos: usize,
}

impl TextIter {
    /// The scanner never steps past its region, and every address it yields
    /// fits the address space.
    pub open spec fn wf(self) -> bool {
        &&& self.pos <= self.words@.len()
        &&& self.base + 4 * self.words@.len() <= usize::MAX
    }

    /// A fresh scan over `words`, the region's contents starting at address
    /// `base`.
    pub fn new(words: Vec<u32>, base: usize) -> (it: TextIter)
        requires
            base + 4 * words@.len() <= usize::MAX,
        ensures
            it.wf(),
            it.words == words,
            it.base == base,
            it.pos == 0,
    {
        TextIter { words, base, pos: 0 }
    }

    /// Yields the next `(address, category)` pair, or `None` once the region
    /// is exhausted.
    pub fn next(&mut self) -> (r: Option<(usize, Category)>)
        requires
            old(self).wf(),
        ensures
            final(self).wf(),
            final(self).words == old(self).words,
            final(self).base == old(self).base,
            if old(self).pos < old(self).words@.len() {
                &&& r == Some(
                    (
                        (old(self).base + 4 * old(self).pos) as usize,
                        category_of(old(self).words@[old(self).pos as int]),
                    ),
                )
                &&& final(self).pos == old(self).pos + 1
            } else {
                &&& r is None
                &&& final(self).pos == old(self).pos
            },
    {
        if self.pos < self.words.len() {
            let addr = self.base + 4 * self.pos;
            let c = classify(self.words[self.pos]);
            self.pos = self.pos + 1;
            Some((addr, c))
        } else {
            None
        }
    }
}

} // verus!
