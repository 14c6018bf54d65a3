//! Instruction classifier: maps a raw 32-bit instruction word to a coarse
//! category tag.
//!
//! Each tag names one fixed-bit encoding shape of the 64-bit instruction set
//! the host process runs; a word matching none of the recognised shapes is
//! classified as `Nop`, the unclassified sentinel. Classification never
//! fails, takes no state and reads nothing but the word.

use vstd::prelude::*;

verus! {

/// Coarse instruction-shape tags. The set is closed: signatures are written
/// over these tags, so a resolver match depends only on code shape, never on
/// absolute addresses.
#[derive(Clone, Copy, PartialEq, Eq, Structural, Debug)]
pub enum Category {
    /// Store-pair, 64-bit, pre-indexed.
    StorePairPre,
    /// Store-pair, 64-bit, signed offset.
    StorePair,
    /// Load-pair, 64-bit, signed offset.
    LoadPair,
    /// Load-register, 64-bit, unsigned offset.
    Load,
    /// Load-register, 32-bit, unsigned offset.
    LoadWord,
    /// Add-immediate, 64-bit.
    AddImm,
    /// Or-immediate, 32-bit.
    OrImm,
    /// Subtract-setting-flags, shifted register, 32-bit.
    SubsShift,
    /// Conditional branch to an immediate offset.
    BranchCond,
    /// Unconditional branch to an immediate offset.
    Branch,
    /// Branch-with-link to an immediate offset.
    BranchLink,
    /// Compare-and-branch-on-zero, either width.
    CompareBranchZero,
    /// Program-counter-relative page address computation.
    PcRelAddr,
    /// No-op or any unclassified word.
    Nop,
}

/// The category of a word, decided by the fixed bits of each encoding shape.
pub open spec fn category_of(word: u32) -> Category {
    if word & 0xFFC0_0000u32 == 0xA980_0000u32 {
        Category::StorePairPre
    } else if word & 0xFFC0_0000u32 == 0xA900_0000u32 {
        Category::StorePair
    } else if word & 0xFFC0_0000u32 == 0xA940_0000u32 {
        Category::LoadPair
    } else if word & 0xFFC0_0000u32 == 0xF940_0000u32 {
        Category::Load
    } else if word & 0xFFC0_0000u32 == 0xB940_0000u32 {
        Category::LoadWord
    } else if word & 0xFF80_0000u32 == 0x9100_0000u32 {
        Category::AddImm
    } else if word & 0xFFC0_0000u32 == 0x3200_0000u32 {
        Category::OrImm
    } else if word & 0xFF20_0000u32 == 0x6B00_0000u32 {
        Category::SubsShift
    } else if word & 0xFF00_0010u32 == 0x5400_0000u32 {
        Category::BranchCond
    } else if word & 0xFC00_0000u32 == 0x1400_0000u32 {
        Category::Branch
    } else if word & 0xFC00_0000u32 == 0x9400_0000u32 {
        Category::BranchLink
    } else if word & 0x7F00_0000u32 == 0x3400_0000u32 {
        Category::CompareBranchZero
    } else if word & 0x9F00_0000u32 == 0x9000_0000u32 {
        Category::PcRelAddr
    } else {
        Category::Nop
    }
}

/// Classifies one instruction word.
pub fn classify(word: u32) -> (c: Category)
    ensures
        c == category_of(word),
{
    if word & 0xFFC0_0000u32 == 0xA980_0000u32 {
        Category::StorePairPre
    } else if word & 0xFFC0_0000u32 == 0xA900_0000u32 {
        Category::StorePair
    } else if word & 0xFFC0_0000u32 == 0xA940_0000u32 {
        Category::LoadPair
    } else if word & 0xFFC0_0000u32 == 0xF940_0000u32 {
        Category::Load
    } else if word & 0xFFC0_0000u32 == 0xB940_0000u32 {
        Category::LoadWord
    } else if word & 0xFF80_0000u32 == 0x9100_0000u32 {
        Category::AddImm
    } else if word & 0xFFC0_0000u32 == 0x3200_0000u32 {
        Category::OrImm
    } else if word & 0xFF20_0000u32 == 0x6B00_0000u32 {
        Category::SubsShift
    } else if word & 0xFF00_0010u32 == 0x5400_0000u32 {
        Category::BranchCond
    } else if word & 0xFC00_0000u32 == 0x1400_0000u32 {
        Category::Branch
    } else if word & 0xFC00_0000u32 == 0x9400_0000u32 {
        Category::BranchLink
    } else if word & 0x7F00_0000u32 == 0x3400_0000u32 {
        Category::CompareBranchZero
    } else if word & 0x9F00_0000u32 == 0x9000_0000u32 {
        Category::PcRelAddr
    } else {
        Category::Nop
    }
}

/// The category sequence of a word sequence.
pub open spec fn categories_of(words: Seq<u32>) -> Seq<Category> {
    words.map_values(|w: u32| category_of(w))
}

} // verus!
