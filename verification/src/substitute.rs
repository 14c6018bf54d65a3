//! Byte substitution into a loaded buffer.
//!
//! The loader has already placed a file's original bytes in a physical buffer
//! whose size is fixed by the load-state table; replacement content is copied
//! over it without ever writing past that size. One bitmap-like texture
//! format is special-cased: its fixed-size trailing footer must come from the
//! replacement whatever the two sizes are.

use vstd::pervasive::VecAdditionalExecFns;
use vstd::prelude::*;

verus! {

/// Size of the trailing footer of the special-cased texture format.
pub const TEXTURE_FOOTER_SIZE: usize = 176;

/// Relation between a buffer's old bytes, replacement content and the
/// buffer's new bytes under the plain substitution: the replacement is
/// copied in from the front, truncated to the buffer's size; a shorter
/// replacement leaves the buffer's tail as it was.
pub open spec fn plain_substituted(orig: Seq<u8>, repl: Seq<u8>, res: Seq<u8>) -> bool {
    &&& res.len() == orig.len()
    &&& forall|i: int|
        0 <= i < orig.len() ==> res[i] == (if i < repl.len() {
            repl[i]
        } else {
            orig[i]
        })
}

/// Relation for the footer-preserving texture substitution. With buffer size
/// `b` and replacement size `r`: a smaller replacement contributes its body
/// before its footer and its footer at the buffer's tail, leaving the bytes
/// between untouched; a replacement at least as large contributes its head
/// truncated to `b` less the footer, then its footer at the buffer's tail.
pub open spec fn texture_substituted(orig: Seq<u8>, repl: Seq<u8>, res: Seq<u8>) -> bool {
    let b = orig.len() as int;
    let r = repl.len() as int;
    if r < b {
        &&& res.len() == b
        &&& forall|i: int| 0 <= i < r - 176 ==> res[i] == repl[i]
        &&& forall|i: int| r - 176 <= i < b - 176 ==> res[i] == orig[i]
        &&& forall|i: int| b - 176 <= i < b ==> res[i] == repl[i - b + r]
    } else {
        &&& res.len() == b
        &&& forall|i: int| 0 <= i < b - 176 ==> res[i] == repl[i]
        &&& forall|i: int| b - 176 <= i < b ==> res[i] == repl[i - b + r]
    }
}

/// Copies `len` bytes of `src` starting at `src_start` into `buffer` starting
/// at `dst_start`; every byte outside the written range keeps its value.
fn copy_range(buffer: &mut Vec<u8>, src: &Vec<u8>, dst_start: usize, src_start: usize, len: usize)
    requires
        dst_start + len <= old(buffer)@.len(),
        src_start + len <= src@.len(),
    ensures
        final(buffer)@.len() == old(buffer)@.len(),
        forall|i: int|
            dst_start <= i < dst_start + len ==> final(buffer)@[i] == src@[i - dst_start
                + src_start],
        forall|i: int|
            (0 <= i < dst_start || dst_start + len <= i < old(buffer)@.len()) ==> final(buffer)@[i]
                == old(buffer)@[i],
{
    let total = buffer.len();
    let src_total = src.len();
    let mut j: usize = 0;
    while j < len
        invariant
            0 <= j <= len,
            total == buffer@.len(),
            src_total == src@.len(),
            dst_start + len <= buffer@.len(),
            src_start + len <= src@.len(),
            buffer@.len() == old(buffer)@.len(),
            forall|i: int|
                dst_start <= i < dst_start + j ==> buffer@[i] == src@[i - dst_start + src_start],
            forall|i: int|
                (0 <= i < dst_start || dst_start + j <= i < old(buffer)@.len()) ==> buffer@[i]
                    == old(buffer)@[i],
        decreases len - j,
    {
        buffer.set(dst_start + j, src[src_start + j]);
        j = j + 1;
    }
}

/// Plain substitution: copies the replacement into the buffer from the
/// front, truncated to the buffer's size; never writes past the buffer.
pub fn substitute_file(buffer: &mut Vec<u8>, replacement: &Vec<u8>)
    ensures
        final(buffer)@.len() == old(buffer)@.len(),
        plain_substituted(old(buffer)@, replacement@, final(buffer)@),
{
    let b = buffer.len();
    let r = replacement.len();
    let n = if r < b {
        r
    } else {
        b
    };
    copy_range(buffer, replacement, 0, 0, n);
}

/// Footer-preserving texture substitution: the replacement's trailing footer
/// always lands on the buffer's tail, the replacement's body fills the space
/// before it as far as both sizes allow; never writes past the buffer.
pub fn substitute_texture(buffer: &mut Vec<u8>, replacement: &Vec<u8>)
    requires
        old(buffer)@.len() >= TEXTURE_FOOTER_SIZE,
        replacement@.len() >= TEXTURE_FOOTER_SIZE,
    ensures
        final(buffer)@.len() == old(buffer)@.len(),
        texture_substituted(old(buffer)@, replacement@, final(buffer)@),
{
    let b = buffer.len();
    let r = replacement.len();
    if r < b {
        copy_range(buffer, replacement, 0, 0, r - TEXTURE_FOOTER_SIZE);
        copy_range(
            buffer,
            replacement,
            b - TEXTURE_FOOTER_SIZE,
            r - TEXTURE_FOOTER_SIZE,
            TEXTURE_FOOTER_SIZE,
        );
    } else {
        copy_range(buffer, replacement, 0, 0, b - TEXTURE_FOOTER_SIZE);
        copy_range(
            buffer,
            replacement,
            b - TEXTURE_FOOTER_SIZE,
            r - TEXTURE_FOOTER_SIZE,
            TEXTURE_FOOTER_SIZE,
        );
    }
}

/// Byte-bounds law: whichever substitution ran, the buffer keeps its exact
/// size, so no write lands outside it; under the plain substitution every
/// byte past the replacement's reach keeps its old value.
pub proof fn lemma_substitution_byte_bounds(orig: Seq<u8>, repl: Seq<u8>, res: Seq<u8>)
    requires
        plain_substituted(orig, repl, res) || texture_substituted(orig, repl, res),
    ensures
        res.len() == orig.len(),
        plain_substituted(orig, repl, res) ==> forall|i: int|
            repl.len() <= i < orig.len() ==> res[i] == orig[i],
{
}

/// Footer law: after a texture substitution the buffer's final footer-sized
/// tail equals the replacement's final footer-sized tail, and the bytes
/// before it equal the replacement's head as far as both sizes allow.
pub proof fn lemma_texture_footer_preserved(orig: Seq<u8>, repl: Seq<u8>, res: Seq<u8>)
    requires
        orig.len() >= 176,
        repl.len() >= 176,
        texture_substituted(orig, repl, res),
    ensures
        res.subrange(res.len() - 176, res.len() as int) =~= repl.subrange(
            repl.len() - 176,
            repl.len() as int,
        ),
        forall|i: int|
            0 <= i < vstd::math::min(orig.len() as int, repl.len() as int) - 176 ==> res[i]
                == repl[i],
{
}

} // verus!
