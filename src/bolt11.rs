//! Facts about the text form of BOLT11 invoices that the node checks itself.
//!
//! The human-readable part of an invoice is everything before its last `1`.
//! When it ends in a digit the amount carries no multiplier and is counted in
//! whole bitcoin, which the decoder turns into pico-bitcoin with a `u64`
//! product. Texts whose amount makes that product overflow are refused here,
//! before they reach the decoder.
use vstd::prelude::*;

verus! {

/// The largest multiplier-free amount whose value in pico-bitcoin fits a `u64`.
pub const MAX_UNPREFIXED_AMOUNT: u64 = 18446744;

pub open spec fn is_digit(c: char) -> bool {
    '0' <= c && c <= '9'
}

pub open spec fn digit_value(c: char) -> nat {
    (c as int - '0' as int) as nat
}

/// Value of the longest run of digits that ends just before position `i`.
pub open spec fn run_value(s: Seq<char>, i: int) -> nat
    decreases i,
{
    if i <= 0 || i > s.len() || !is_digit(s[i - 1]) {
        0
    } else {
        run_value(s, i - 1) * 10 + digit_value(s[i - 1])
    }
}

/// `p` is the position of the last `1` in `s`.
pub open spec fn is_last_separator(s: Seq<char>, p: int) -> bool {
    &&& 0 <= p < s.len()
    &&& s[p] == '1'
    &&& forall|j: int| p < j < s.len() ==> s[j] != '1'
}

/// The human-readable part of `s` ends in a multiplier-free amount too large
/// to count in pico-bitcoin.
pub open spec fn unprefixed_amount_too_large(s: Seq<char>) -> bool {
    exists|p: int| is_last_separator(s, p) && run_value(s, p) > MAX_UNPREFIXED_AMOUNT
}

proof fn lemma_capped_step(v: nat, capped: nat, d: nat)
    requires
        d <= 9,
        capped == if v > MAX_UNPREFIXED_AMOUNT { (MAX_UNPREFIXED_AMOUNT + 1) as nat } else { v },
    ensures
        ({
            let w = v * 10 + d;
            let c = capped * 10 + d;
            (if c > MAX_UNPREFIXED_AMOUNT { (MAX_UNPREFIXED_AMOUNT + 1) as nat } else { c })
                == (if w > MAX_UNPREFIXED_AMOUNT { (MAX_UNPREFIXED_AMOUNT + 1) as nat } else { w })
        }),
{
    if v > MAX_UNPREFIXED_AMOUNT {
        assert(v * 10 + d > MAX_UNPREFIXED_AMOUNT) by (nonlinear_arith)
            requires v > MAX_UNPREFIXED_AMOUNT;
        assert(capped * 10 + d > MAX_UNPREFIXED_AMOUNT) by (nonlinear_arith)
            requires capped == MAX_UNPREFIXED_AMOUNT + 1;
    }
}

/// Whether `text` holds a multiplier-free amount that the decoder cannot count.
pub fn has_oversized_unprefixed_amount(text: &str) -> (r: bool)
    ensures
        r == unprefixed_amount_too_large(text@),
{
    broadcast use vstd::string::axiom_spec_iter;
    let ghost s = text@;
    let cap: u64 = MAX_UNPREFIXED_AMOUNT + 1;
    // value of the digit run ending here, capped at `cap`
    let mut run: u64 = 0;
    // whether a `1` was seen, and the run before the last one exceeded the limit
    let mut seen: bool = false;
    let mut too_large: bool = false;
    let ghost mut last: int = -1;
    for c in it: text.chars()
        invariant
            it.seq() == s,
            cap == MAX_UNPREFIXED_AMOUNT + 1,
            0 <= it.index() <= s.len(),
            run == (if run_value(s, it.index() as int) > MAX_UNPREFIXED_AMOUNT { cap as nat } else { run_value(s, it.index() as int) }),
            seen <==> last >= 0,
            seen ==> last < it.index() && s[last] == '1' && forall|j: int| last < j < it.index() ==> s[j] != '1',
            !seen ==> forall|j: int| 0 <= j < it.index() ==> s[j] != '1',
            seen ==> (too_large <==> run_value(s, last) > MAX_UNPREFIXED_AMOUNT),
    {
        let ghost i = it.index() as int;
        assert(c == s[i]);
        if c == '1' {
            seen = true;
            too_large = run > MAX_UNPREFIXED_AMOUNT;
            proof { last = i; }
        }
        if '0' <= c && c <= '9' {
            let d: u64 = (c as u32 - '0' as u32) as u64;
            proof {
                lemma_capped_step(run_value(s, i), run as nat, d as nat);
                assert(run_value(s, i + 1) == run_value(s, i) * 10 + digit_value(s[i]));
            }
            let next: u64 = run * 10 + d;
            run = if next > MAX_UNPREFIXED_AMOUNT { cap } else { next };
        } else {
            assert(run_value(s, i + 1) == 0);
            run = 0;
        }
    }
    if seen {
        assert(is_last_separator(s, last));
        assert forall|p: int| is_last_separator(s, p) implies p == last by {
            if p < last { assert(s[last] != '1'); }
            if p > last { assert(s[p] != '1'); }
        }
    }
    seen && too_large
}

} // verus!
