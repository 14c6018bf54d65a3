use arcropolis::insn::{classify, Category};
use arcropolis::offsets::TextIter;
use arcropolis::resolver::{resolve, Mnemonic, Signature};

const NOP: u32 = 0xD503201F;
const LDP_X0_X1_X2: u32 = 0xA9400440;
const STP_X0_X1_X2: u32 = 0xA9000440;
const STP_PRE: u32 = 0xA9BF7BFD;
const LDR_X0_X1: u32 = 0xF9400020;
const LDR_W0_X1: u32 = 0xB9400020;
const ADD_X0_X0_1: u32 = 0x91000400;
const ORR_W0_W0_1: u32 = 0x32000400;
const CMP_W0_W1: u32 = 0x6B01001F;
const B_EQ_0: u32 = 0x54000000;
const B_FWD: u32 = 0x14000001;
const BL_FWD: u32 = 0x94000001;
const CBZ_W0: u32 = 0x34000040;
const CBZ_X0: u32 = 0xB4000040;
const ADRP_X0: u32 = 0x90000000;

fn sig(parts: &[(bool, Category)]) -> Signature {
    Signature {
        mnemonics: parts
            .iter()
            .map(|&(flagged, category)| Mnemonic { flagged, category })
            .collect(),
    }
}

#[test]
fn classify_recognises_each_shape() {
    assert_eq!(classify(STP_PRE), Category::StorePairPre);
    assert_eq!(classify(STP_X0_X1_X2), Category::StorePair);
    assert_eq!(classify(LDP_X0_X1_X2), Category::LoadPair);
    assert_eq!(classify(LDR_X0_X1), Category::Load);
    assert_eq!(classify(LDR_W0_X1), Category::LoadWord);
    assert_eq!(classify(ADD_X0_X0_1), Category::AddImm);
    assert_eq!(classify(ORR_W0_W0_1), Category::OrImm);
    assert_eq!(classify(CMP_W0_W1), Category::SubsShift);
    assert_eq!(classify(B_EQ_0), Category::BranchCond);
    assert_eq!(classify(B_FWD), Category::Branch);
    assert_eq!(classify(BL_FWD), Category::BranchLink);
    assert_eq!(classify(CBZ_W0), Category::CompareBranchZero);
    assert_eq!(classify(CBZ_X0), Category::CompareBranchZero);
    assert_eq!(classify(ADRP_X0), Category::PcRelAddr);
    assert_eq!(classify(NOP), Category::Nop);
    assert_eq!(classify(0), Category::Nop);
}

#[test]
fn flagged_position_reports_that_word() {
    // Five words at addresses 0, 4, 8, 12, 16; the flagged middle element of
    // the matching window sits at address 8.
    let words = vec![NOP, LDP_X0_X1_X2, LDP_X0_X1_X2, B_EQ_0, NOP];
    let s = sig(&[
        (false, Category::LoadPair),
        (true, Category::LoadPair),
        (false, Category::BranchCond),
    ]);
    let mut iter = TextIter::new(words, 0);
    assert_eq!(resolve(&s, &mut iter), Some(8));
}

#[test]
fn no_flag_reports_window_start() {
    let words = vec![NOP, LDP_X0_X1_X2, LDP_X0_X1_X2, B_EQ_0, NOP];
    let s = sig(&[
        (false, Category::LoadPair),
        (false, Category::LoadPair),
        (false, Category::BranchCond),
    ]);
    let mut iter = TextIter::new(words, 0);
    assert_eq!(resolve(&s, &mut iter), Some(4));
}

#[test]
fn last_flag_wins() {
    let words = vec![LDP_X0_X1_X2, LDP_X0_X1_X2, B_EQ_0];
    let s = sig(&[
        (true, Category::LoadPair),
        (false, Category::LoadPair),
        (true, Category::BranchCond),
    ]);
    let mut iter = TextIter::new(words, 0);
    assert_eq!(resolve(&s, &mut iter), Some(8));
}

#[test]
fn base_address_offsets_the_answer() {
    let words = vec![NOP, LDP_X0_X1_X2, LDP_X0_X1_X2, B_EQ_0, NOP];
    let s = sig(&[
        (false, Category::LoadPair),
        (true, Category::LoadPair),
        (false, Category::BranchCond),
    ]);
    let mut iter = TextIter::new(words, 0x7100000000);
    assert_eq!(resolve(&s, &mut iter), Some(0x7100000008));
}

#[test]
fn first_matching_window_wins() {
    let words = vec![
        LDP_X0_X1_X2,
        B_EQ_0,
        NOP,
        LDP_X0_X1_X2,
        B_EQ_0,
    ];
    let s = sig(&[(false, Category::LoadPair), (false, Category::BranchCond)]);
    let mut iter = TextIter::new(words, 0);
    assert_eq!(resolve(&s, &mut iter), Some(0));
}

#[test]
fn absent_signature_reports_nothing() {
    let words = vec![NOP, NOP, NOP, NOP];
    let s = sig(&[(false, Category::StorePair)]);
    let mut iter = TextIter::new(words, 0);
    assert_eq!(resolve(&s, &mut iter), None);
}

#[test]
fn failed_attempt_consumes_overlapping_occurrence() {
    // The matcher resets to zero on a mismatch and never backtracks: the
    // occurrence starting at the second word overlaps the failed attempt that
    // began at the first, so it is missed. Accepted behaviour.
    let words = vec![LDP_X0_X1_X2, LDP_X0_X1_X2, LDP_X0_X1_X2, B_EQ_0];
    let s = sig(&[
        (false, Category::LoadPair),
        (false, Category::LoadPair),
        (false, Category::BranchCond),
    ]);
    let mut iter = TextIter::new(words, 0);
    assert_eq!(resolve(&s, &mut iter), None);
}

#[test]
fn scanner_yields_addresses_and_categories_in_order() {
    let words = vec![LDP_X0_X1_X2, B_EQ_0];
    let mut iter = TextIter::new(words, 0x100);
    assert_eq!(iter.next(), Some((0x100, Category::LoadPair)));
    assert_eq!(iter.next(), Some((0x104, Category::BranchCond)));
    assert_eq!(iter.next(), None);
    assert_eq!(iter.next(), None);
}
