//! Signature resolver: locates a function entry point by matching an ordered
//! list of expected instruction categories against the executable region.
//!
//! The matcher is a single forward pass with a position counter: a word
//! matching the expected category advances the counter, any other word resets
//! it to zero and is consumed. A partial match that fails therefore restarts
//! from the next word, never from inside the failed attempt; a match that
//! overlaps a failed attempt's prefix can be missed. That is the accepted
//! behaviour of this matcher, not a guarantee of completeness.

use crate::insn::{categories_of, category_of, Category};
use crate::offsets::TextIter;
use crate::pattern::occurs_at;
use vstd::prelude::*;

verus! {

/// One signature element: an expected category, optionally flagged as the
/// position whose address the resolver reports.
#[derive(Clone, Copy, PartialEq, Eq, Structural, Debug)]
pub struct Mnemonic {
    /// Whether the resolver reports this position's address.
    pub flagged: bool,
    /// The instruction category expected at this position.
    pub category: Category,
}

/// An ordered list of expected categories. When several positions are
/// flagged the last one wins; when none is, position zero is implicitly
/// flagged.
pub struct Signature {
    pub mnemonics: Vec<Mnemonic>,
}

impl Signature {
    /// The expected category at each position.
    pub open spec fn categories(self) -> Seq<Category> {
        self.mnemonics@.map_values(|m: Mnemonic| m.category)
    }

    /// The flag at each position.
    pub open spec fn flags(self) -> Seq<bool> {
        self.mnemonics@.map_values(|m: Mnemonic| m.flagged)
    }

    /// A signature holds at least one element.
    pub open spec fn wf(self) -> bool {
        self.mnemonics@.len() > 0
    }

    /// The position whose address is reported: the last flagged one, or
    /// position zero when none is flagged.
    pub fn report_position(&self) -> (k: usize)
        requires
            self.wf(),
        ensures
            k as int == report_index(self.flags()),
            k < self.mnemonics@.len(),
    {
        let n = self.mnemonics.len();
        let mut k: usize = 0;
        let mut i: usize = 0;
        while i < n
            invariant
                0 <= i <= n,
                n == self.mnemonics@.len(),
                k as int == report_index(self.flags().take(i as int)),
                k <= i,
                k < n || k == 0,
            decreases n - i,
        {
            proof {
                assert(self.flags().take(i + 1).drop_last() =~= self.flags().take(i as int));
                assert(self.flags().take(i + 1).last() == self.flags()[i as int]);
            }
            if self.mnemonics[i].flagged {
                k = i;
            }
            i = i + 1;
        }
        proof {
            assert(self.flags().take(n as int) =~= self.flags());
        }
        k
    }
}

/// The flagged position whose address is reported: the last flagged index,
/// or position zero when none is flagged.
pub open spec fn report_index(flags: Seq<bool>) -> int
    decreases flags.len(),
{
    if flags.len() == 0 {
        0
    } else if flags[flags.len() - 1] {
        flags.len() - 1
    } else {
        report_index(flags.drop_last())
    }
}

/// With no flagged position, position zero is implicitly reported, so a
/// flagless resolver answer is the matching window's own start.
pub proof fn lemma_report_index_no_flag(flags: Seq<bool>)
    requires
        forall|j: int| 0 <= j < flags.len() ==> !flags[j],
    ensures
        report_index(flags) == 0,
    decreases flags.len(),
{
    if flags.len() > 0 {
        assert(forall|j: int| 0 <= j < flags.drop_last().len() ==> flags.drop_last()[j]
            == flags[j]);
        lemma_report_index_no_flag(flags.drop_last());
    }
}

/// With exactly one flagged position `k`, position `k` is reported.
pub proof fn lemma_report_index_single_flag(flags: Seq<bool>, k: int)
    requires
        0 <= k < flags.len(),
        flags[k],
        forall|j: int| 0 <= j < flags.len() && j != k ==> !flags[j],
    ensures
        report_index(flags) == k,
    decreases flags.len(),
{
    if k < flags.len() - 1 {
        assert(flags.drop_last()[k] == flags[k]);
        lemma_report_index_single_flag(flags.drop_last(), k);
    }
}

/// One transition of the matcher: a word of the expected category advances
/// the position counter, any other word resets it to zero.
pub open spec fn step(sig: Seq<Category>, st: int, c: Category) -> int {
    if 0 <= st < sig.len() && c == sig[st] {
        st + 1
    } else {
        0
    }
}

/// The matcher's position counter after consuming the first `n` words.
pub open spec fn state_at(sig: Seq<Category>, cats: Seq<Category>, n: int) -> int
    decreases n,
{
    if n <= 0 {
        0
    } else {
        step(sig, state_at(sig, cats, n - 1), cats[n - 1])
    }
}

/// Start of the first window the matcher completes when it scans on from
/// word `i` with position counter `st`, or `None` when the region runs out
/// first.
pub open spec fn scan_from(sig: Seq<Category>, cats: Seq<Category>, i: int, st: int) -> Option<int>
    decreases cats.len() - i,
{
    if i < 0 || i >= cats.len() {
        None
    } else {
        let st2 = step(sig, st, cats[i]);
        if st2 == sig.len() {
            Some(i + 1 - sig.len())
        } else {
            scan_from(sig, cats, i + 1, st2)
        }
    }
}

/// Start of the first window the matcher completes over the whole region.
pub open spec fn match_start(sig: Seq<Category>, cats: Seq<Category>) -> Option<int> {
    if sig.len() == 0 {
        None
    } else {
        scan_from(sig, cats, 0, 0)
    }
}

/// The position counter never exceeds the words consumed or the signature
/// length, and it counts a true partial match: the last `state_at` words
/// consumed equal the signature's prefix of that length.
pub proof fn lemma_state_at_partial(sig: Seq<Category>, cats: Seq<Category>, n: int)
    requires
        0 <= n <= cats.len(),
    ensures
        0 <= state_at(sig, cats, n) <= n,
        state_at(sig, cats, n) <= sig.len(),
        forall|j: int|
            0 <= j < state_at(sig, cats, n) ==> cats[n - state_at(sig, cats, n) + j] == sig[j],
    decreases n,
{
    if n > 0 {
        lemma_state_at_partial(sig, cats, n - 1);
    }
}

/// Soundness: when the scan completes a window while its counter counts a
/// true partial match, the window is a real occurrence of the signature, and
/// it starts no earlier than the current attempt.
pub proof fn lemma_scan_from_sound(sig: Seq<Category>, cats: Seq<Category>, i: int, st: int)
    requires
        sig.len() > 0,
        0 <= i <= cats.len(),
        0 <= st < sig.len(),
        st <= i,
        forall|j: int| 0 <= j < st ==> cats[i - st + j] == sig[j],
        scan_from(sig, cats, i, st) is Some,
    ensures
        ({
            let w = scan_from(sig, cats, i, st).unwrap();
            &&& i - st <= w <= cats.len() - sig.len()
            &&& occurs_at(cats, sig, w)
        }),
    decreases cats.len() - i,
{
    let st2 = step(sig, st, cats[i]);
    if st2 == sig.len() {
        assert(forall|j: int| 0 <= j < st ==> cats[i - st + j] == sig[j]);
        assert(cats[i] == sig[st]);
        assert(occurs_at(cats, sig, i + 1 - sig.len()));
    } else {
        if st2 == 0 {
            lemma_scan_from_sound(sig, cats, i + 1, 0);
        } else {
            lemma_scan_from_sound(sig, cats, i + 1, st2);
        }
    }
}

/// From a clean start at a real occurrence the scan completes exactly that
/// window.
proof fn lemma_scan_from_occurrence(sig: Seq<Category>, cats: Seq<Category>, p: int, j: int)
    requires
        sig.len() > 0,
        occurs_at(cats, sig, p),
        0 <= j < sig.len(),
    ensures
        scan_from(sig, cats, p + j, j) == Some(p),
    decreases sig.len() - j,
{
    assert(cats[p + j] == sig[j]);
    if j + 1 < sig.len() {
        lemma_scan_from_occurrence(sig, cats, p, j + 1);
    }
}

/// While no occurrence lies strictly before word `p`, scanning on from any
/// earlier word in the state the run reached there gives the same answer as
/// scanning on from `p` itself.
proof fn lemma_scan_from_advance(sig: Seq<Category>, cats: Seq<Category>, i: int, p: int)
    requires
        sig.len() > 0,
        0 <= i <= p <= cats.len(),
        forall|q: int| 0 <= q < p ==> !occurs_at(cats, sig, q),
    ensures
        scan_from(sig, cats, i, state_at(sig, cats, i)) == scan_from(
            sig,
            cats,
            p,
            state_at(sig, cats, p),
        ),
    decreases p - i,
{
    if i < p {
        let st = state_at(sig, cats, i);
        lemma_state_at_partial(sig, cats, i);
        let st2 = step(sig, st, cats[i]);
        if st2 == sig.len() {
            lemma_state_at_partial(sig, cats, i + 1);
            assert(state_at(sig, cats, i + 1) == st2);
            assert(occurs_at(cats, sig, i + 1 - sig.len()));
            assert(false);
        } else {
            assert(state_at(sig, cats, i + 1) == st2);
            lemma_scan_from_advance(sig, cats, i + 1, p);
        }
    }
}

/// Resolver law, found case: when the signature first occurs at `p` and no
/// failed partial attempt is still in progress when the scan reaches `p`
/// (its position counter is zero there), the matcher completes exactly the
/// window starting at `p`.
///
/// The counter proviso excludes exactly the inputs on which this
/// no-backtracking matcher consumes part of the first occurrence inside a
/// failed attempt and misses it.
pub proof fn lemma_resolver_finds_first_occurrence(
    sig: Seq<Category>,
    cats: Seq<Category>,
    p: int,
)
    requires
        sig.len() > 0,
        occurs_at(cats, sig, p),
        forall|q: int| 0 <= q < p ==> !occurs_at(cats, sig, q),
        state_at(sig, cats, p) == 0,
    ensures
        match_start(sig, cats) == Some(p),
{
    lemma_scan_from_advance(sig, cats, 0, p);
    lemma_scan_from_occurrence(sig, cats, p, 0);
}

/// Resolver law, not-found case: when the signature occurs nowhere, the
/// matcher reports nothing.
pub proof fn lemma_resolver_not_found(sig: Seq<Category>, cats: Seq<Category>)
    requires
        sig.len() > 0,
        forall|q: int| !occurs_at(cats, sig, q),
    ensures
        match_start(sig, cats) is None,
{
    if match_start(sig, cats) is Some {
        lemma_scan_from_sound(sig, cats, 0, 0);
    }
}

/// Every completed window is a real occurrence of the signature.
pub proof fn lemma_resolver_sound(sig: Seq<Category>, cats: Seq<Category>)
    requires
        sig.len() > 0,
        match_start(sig, cats) is Some,
    ensures
        occurs_at(cats, sig, match_start(sig, cats).unwrap()),
        0 <= match_start(sig, cats).unwrap() <= cats.len() - sig.len(),
{
    lemma_scan_from_sound(sig, cats, 0, 0);
}

/// Flag law: with exactly one flagged position `k`, the reported address is
/// the one of the word matching the signature's element `k` inside the
/// completed window.
pub proof fn lemma_resolver_reports_flagged(
    sig: Seq<Category>,
    flags: Seq<bool>,
    cats: Seq<Category>,
    k: int,
)
    requires
        sig.len() > 0,
        flags.len() == sig.len(),
        0 <= k < flags.len(),
        flags[k],
        forall|j: int| 0 <= j < flags.len() && j != k ==> !flags[j],
        match_start(sig, cats) is Some,
    ensures
        report_index(flags) == k,
        cats[match_start(sig, cats).unwrap() + k] == sig[k],
{
    lemma_report_index_single_flag(flags, k);
    lemma_resolver_sound(sig, cats);
}

/// Runs the matcher over a fresh scan of the executable region and returns
/// the address of the reported position inside the first window the matcher
/// completes, or `None` when the scan exhausts the region first.
pub fn resolve(sig: &Signature, iter: &mut TextIter) -> (r: Option<usize>)
    requires
        sig.wf(),
        old(iter).wf(),
        old(iter).pos == 0,
    ensures
        match match_start(sig.categories(), categories_of(old(iter).words@)) {
            Some(w) => {
                &&& r is Some
                &&& r.unwrap() as int == old(iter).base + 4 * (w + report_index(sig.flags()))
            },
            None => r is None,
        },
{
    let ghost sigc = sig.categories();
    let ghost cats = categories_of(iter.words@);
    let n = sig.mnemonics.len();
    let len = iter.words.len();
    let k = sig.report_position();
    let mut st: usize = 0;
    proof {
        assert(cats.len() == len);
    }
    while iter.pos < len
        invariant
            sig.wf(),
            iter.wf(),
            iter.words == old(iter).words,
            iter.base == old(iter).base,
            n == sig.mnemonics@.len(),
            len == iter.words@.len(),
            sigc == sig.categories(),
            cats == categories_of(iter.words@),
            cats.len() == len,
            k as int == report_index(sig.flags()),
            k < n,
            0 <= st <= iter.pos,
            st < n,
            st as int == state_at(sigc, cats, iter.pos as int),
            match_start(sigc, cats) == scan_from(sigc, cats, iter.pos as int, st as int),
        decreases len - iter.pos,
    {
        let ghost i = iter.pos as int;
        if let Some((_addr, c)) = iter.next() {
            proof {
                assert(cats[i] == category_of(iter.words@[i]));
            }
            if c == sig.mnemonics[st].category {
                proof {
                    assert(sigc[st as int] == sig.mnemonics@[st as int].category);
                    assert(step(sigc, st as int, cats[i]) == st + 1);
                }
                st = st + 1;
                if st == n {
                    let w = iter.pos - n;
                    proof {
                        assert(scan_from(sigc, cats, i, (st - 1) as int) == Some(i + 1 - n));
                    }
                    return Some(iter.base + 4 * (w + k));
                }
                proof {
                    assert(state_at(sigc, cats, i + 1) == st);
                }
            } else {
                proof {
                    assert(sigc[st as int] == sig.mnemonics@[st as int].category);
                    assert(step(sigc, st as int, cats[i]) == 0);
                    assert(state_at(sigc, cats, i + 1) == 0);
                }
                st = 0;
            }
        } else {
            proof {
                assert(false);
            }
        }
    }
    proof {
        assert(scan_from(sigc, cats, len as int, st as int) is None);
    }
    None
}

} // verus!
