//! Subscription identifier generation.
//!
//! An identifier is `sub-<payer>-<creation second>-<counter>`.  The trailing
//! counter is drawn from a monotonic per-ledger counter, so two creations by
//! the same payer within the same second still get distinct identifiers: the
//! digit run after the last `-` determines the counter uniquely, and the
//! counter is never reused.

use vstd::prelude::*;

verus! {

/// The decimal digit character for `d`.
pub open spec fn digit_char(d: nat) -> char
    recommends
        d < 10,
{
    if d == 0 {
        '0'
    } else if d == 1 {
        '1'
    } else if d == 2 {
        '2'
    } else if d == 3 {
        '3'
    } else if d == 4 {
        '4'
    } else if d == 5 {
        '5'
    } else if d == 6 {
        '6'
    } else if d == 7 {
        '7'
    } else if d == 8 {
        '8'
    } else {
        '9'
    }
}

/// The decimal rendering of `n`, most significant digit first, without
/// leading zeros (`0` renders as "0").
pub open spec fn dec_digits(n: nat) -> Seq<char>
    decreases n,
{
    if n < 10 {
        seq![digit_char(n)]
    } else {
        dec_digits(n / 10).push(digit_char(n % 10))
    }
}

/// A decimal rendering is never empty.
pub proof fn lemma_dec_digits_len(n: nat)
    ensures
        dec_digits(n).len() >= 1,
    decreases n,
{
    if n >= 10 {
        lemma_dec_digits_len(n / 10);
    }
}

/// Digit characters are decimal digits; in particular none is `-`.
pub proof fn lemma_dec_digits_no_dash(n: nat)
    ensures
        forall|i: int| 0 <= i < dec_digits(n).len() ==> dec_digits(n)[i] != '-',
    decreases n,
{
    if n >= 10 {
        lemma_dec_digits_no_dash(n / 10);
        let d = dec_digits(n);
        let p = dec_digits(n / 10);
        assert forall|i: int| 0 <= i < d.len() implies d[i] != '-' by {
            if i < p.len() {
                assert(d[i] == p[i]);
            } else {
                assert(d[i] == digit_char(n % 10));
            }
        }
    }
}

/// Distinct numbers have distinct decimal renderings.
pub proof fn lemma_dec_digits_injective(a: nat, b: nat)
    requires
        dec_digits(a) == dec_digits(b),
    ensures
        a == b,
    decreases a,
{
    lemma_dec_digits_len(a);
    lemma_dec_digits_len(b);
    if a < 10 && b < 10 {
        assert(dec_digits(a)[0] == digit_char(a));
        assert(dec_digits(b)[0] == digit_char(b));
    } else if a < 10 {
        lemma_dec_digits_len(b / 10);
        assert(dec_digits(b).len() >= 2);
    } else if b < 10 {
        lemma_dec_digits_len(a / 10);
        assert(dec_digits(a).len() >= 2);
    } else {
        let da = dec_digits(a);
        let db = dec_digits(b);
        assert(da.last() == digit_char(a % 10));
        assert(db.last() == digit_char(b % 10));
        assert(a % 10 == b % 10);
        assert(da.drop_last() =~= dec_digits(a / 10));
        assert(db.drop_last() =~= dec_digits(b / 10));
        lemma_dec_digits_injective(a / 10, b / 10);
        assert(a == (a / 10) * 10 + a % 10);
        assert(b == (b / 10) * 10 + b % 10);
    }
}

/// The identifier for a subscription created by `user` at second `now`, with
/// ledger counter value `counter`.
pub open spec fn spec_make_id(user: Seq<char>, now: u64, counter: u64) -> Seq<char> {
    "sub-"@ + user + "-"@ + dec_digits(now as nat) + "-"@ + dec_digits(counter as nat)
}

/// `id` ends in `-` followed by exactly the decimal rendering of `c`.
pub open spec fn has_counter_suffix(id: Seq<char>, c: u64) -> bool {
    let d = dec_digits(c as nat);
    &&& id.len() > d.len()
    &&& id.subrange(id.len() - d.len(), id.len() as int) == d
    &&& id[id.len() - d.len() - 1] == '-'
}

/// A generated identifier carries its counter as the final digit run.
pub proof fn lemma_make_id_has_counter(user: Seq<char>, now: u64, counter: u64)
    ensures
        has_counter_suffix(spec_make_id(user, now, counter), counter),
{
    reveal_strlit("sub-");
    reveal_strlit("-");
    let id = spec_make_id(user, now, counter);
    let d = dec_digits(counter as nat);
    lemma_dec_digits_len(counter as nat);
    assert(id.subrange(id.len() - d.len(), id.len() as int) =~= d);
    assert(id[id.len() - d.len() - 1] == '-');
}

/// The counter of an identifier is determined by the identifier alone: the
/// digit run after the last `-` reads it back.
pub proof fn lemma_counter_suffix_unique(id: Seq<char>, c1: u64, c2: u64)
    requires
        has_counter_suffix(id, c1),
        has_counter_suffix(id, c2),
    ensures
        c1 == c2,
{
    let d1 = dec_digits(c1 as nat);
    let d2 = dec_digits(c2 as nat);
    lemma_dec_digits_no_dash(c1 as nat);
    lemma_dec_digits_no_dash(c2 as nat);
    if d1.len() < d2.len() {
        let p = id.len() - d1.len() - 1;
        assert(id[p] == '-');
        assert(id.subrange(id.len() - d2.len(), id.len() as int)[p - (id.len() - d2.len())]
            == id[p]);
        assert(d2[p - (id.len() - d2.len())] == '-');
        assert(false);
    } else if d2.len() < d1.len() {
        let p = id.len() - d2.len() - 1;
        assert(id[p] == '-');
        assert(id.subrange(id.len() - d1.len(), id.len() as int)[p - (id.len() - d1.len())]
            == id[p]);
        assert(d1[p - (id.len() - d1.len())] == '-');
        assert(false);
    } else {
        assert(d1 == d2);
        lemma_dec_digits_injective(c1 as nat, c2 as nat);
    }
}

/// The digit string for `d`.
fn digit_str(d: u64) -> (r: &'static str)
    requires
        d < 10,
    ensures
        r@ =~= seq![digit_char(d as nat)],
{
    if d == 0 {
        proof {
            reveal_strlit("0");
        }
        "0"
    } else if d == 1 {
        proof {
            reveal_strlit("1");
        }
        "1"
    } else if d == 2 {
        proof {
            reveal_strlit("2");
        }
        "2"
    } else if d == 3 {
        proof {
            reveal_strlit("3");
        }
        "3"
    } else if d == 4 {
        proof {
            reveal_strlit("4");
        }
        "4"
    } else if d == 5 {
        proof {
            reveal_strlit("5");
        }
        "5"
    } else if d == 6 {
        proof {
            reveal_strlit("6");
        }
        "6"
    } else if d == 7 {
        proof {
            reveal_strlit("7");
        }
        "7"
    } else if d == 8 {
        proof {
            reveal_strlit("8");
        }
        "8"
    } else {
        proof {
            reveal_strlit("9");
        }
        "9"
    }
}

/// Renders `n` in decimal.
pub fn u64_to_dec(n: u64) -> (s: String)
    ensures
        s@ == dec_digits(n as nat),
    decreases n,
{
    if n < 10 {
        let s = String::from_str(digit_str(n));
        proof {
            assert(s@ =~= dec_digits(n as nat));
        }
        s
    } else {
        let mut s = u64_to_dec(n / 10);
        s.append(digit_str(n % 10));
        proof {
            assert(s@ =~= dec_digits(n as nat));
        }
        s
    }
}

/// Builds the identifier for a subscription created by `user` at second
/// `now`, with ledger counter value `counter`.
pub fn make_id(user: &String, now: u64, counter: u64) -> (r: String)
    ensures
        r@ == spec_make_id(user@, now, counter),
{
    let mut r = String::from_str("sub-");
    r.append(user.as_str());
    r.append("-");
    let now_s = u64_to_dec(now);
    r.append(now_s.as_str());
    r.append("-");
    let counter_s = u64_to_dec(counter);
    r.append(counter_s.as_str());
    proof {
        assert(r@ =~= spec_make_id(user@, now, counter));
    }
    r
}

} // verus!
