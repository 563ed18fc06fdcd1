//! Small verified helpers over strings: content equality, membership in a
//! name set, and decimal formatting of integers.

use vstd::prelude::*;

verus! {

/// Compares two string slices by their character content.
pub fn str_eq(a: &str, b: &str) -> (r: bool)
    ensures
        r == (a@ == b@),
{
    let n = a.unicode_len();
    let m = b.unicode_len();
    if n != m {
        assert(a@ != b@) by {
            assert(a@.len() != b@.len());
        }
        return false;
    }
    let mut i: usize = 0;
    while i < n
        invariant
            n == a@.len(),
            n == b@.len(),
            i <= n,
            forall|j: int| 0 <= j < i ==> a@[j] == b@[j],
        decreases n - i,
    {
        let ca = a.get_char(i);
        let cb = b.get_char(i);
        if ca != cb {
            assert(a@ != b@) by {
                assert(a@[i as int] != b@[i as int]);
            }
            return false;
        }
        i += 1;
    }
    assert(a@ =~= b@);
    true
}

/// Membership test for a de-duplication set of names, compared by content.
pub fn contains_name(set: &Vec<String>, name: &str) -> (r: bool)
    ensures
        r == set.deep_view().contains(name@),
{
    let n = set.len();
    let mut i: usize = 0;
    while i < n
        invariant
            n == set@.len(),
            i <= n,
            forall|j: int| 0 <= j < i ==> set.deep_view()[j] != name@,
        decreases n - i,
    {
        if str_eq(set[i].as_str(), name) {
            assert(set.deep_view()[i as int] == name@);
            return true;
        }
        assert(set.deep_view()[i as int] != name@);
        i += 1;
    }
    assert(!set.deep_view().contains(name@));
    false
}

/// The digit character for a value below ten.
pub open spec fn dec_digit(d: int) -> char {
    if d == 0 {
        '0'
    } else if d == 1 {
        '1'
    } else if d == 2 {
        '2'
    } else if d == 3 {
        '3'
    } else if d == 4 {
        '4'
    } else if d == 5 {
        '5'
    } else if d == 6 {
        '6'
    } else if d == 7 {
        '7'
    } else if d == 8 {
        '8'
    } else {
        '9'
    }
}

/// Decimal digits of a nonnegative integer, with no leading zeros; empty
/// for zero.
pub open spec fn dec_nat(n: int) -> Seq<char>
    decreases n,
{
    if n <= 0 {
        Seq::<char>::empty()
    } else {
        dec_nat(n / 10).push(dec_digit(n % 10))
    }
}

/// The decimal rendering of a signed integer.
pub open spec fn spec_decimal(v: int) -> Seq<char> {
    if v == 0 {
        seq!['0']
    } else if v < 0 {
        seq!['-'] + dec_nat(-v)
    } else {
        dec_nat(v)
    }
}

fn digit_str(d: u64) -> (r: &'static str)
    requires
        d < 10,
    ensures
        r@ =~= seq![dec_digit(d as int)],
{
    proof {
        reveal_strlit("0");
        reveal_strlit("1");
        reveal_strlit("2");
        reveal_strlit("3");
        reveal_strlit("4");
        reveal_strlit("5");
        reveal_strlit("6");
        reveal_strlit("7");
        reveal_strlit("8");
        reveal_strlit("9");
    }
    if d == 0 {
        "0"
    } else if d == 1 {
        "1"
    } else if d == 2 {
        "2"
    } else if d == 3 {
        "3"
    } else if d == 4 {
        "4"
    } else if d == 5 {
        "5"
    } else if d == 6 {
        "6"
    } else if d == 7 {
        "7"
    } else if d == 8 {
        "8"
    } else {
        "9"
    }
}

fn dec_u64(n: u64) -> (r: String)
    ensures
        r@ == dec_nat(n as int),
{
    let mut acc = String::new();
    let mut m: u64 = n;
    while m > 0
        invariant
            dec_nat(n as int) == dec_nat(m as int) + acc@,
        decreases m,
    {
        let d: u64 = m % 10;
        let rest: u64 = m / 10;
        let ghost old_acc = acc@;
        acc = String::from_str(digit_str(d)).concat(acc.as_str());
        assert(acc@ =~= seq![dec_digit(d as int)] + old_acc);
        assert(dec_nat(m as int) == dec_nat(rest as int).push(dec_digit(d as int)));
        assert(dec_nat(rest as int) + acc@ =~= dec_nat(m as int) + old_acc);
        m = rest;
    }
    assert(dec_nat(n as int) =~= acc@);
    acc
}

/// Renders an unsigned integer in decimal.
pub fn decimal_u64(n: u64) -> (r: String)
    ensures
        r@ == spec_decimal(n as int),
{
    if n == 0 {
        proof {
            reveal_strlit("0");
        }
        let r = String::from_str("0");
        assert(r@ =~= seq!['0']);
        r
    } else {
        dec_u64(n)
    }
}

/// Whether `p` is a prefix of `s`, by character content.
pub open spec fn spec_has_prefix(s: Seq<char>, p: Seq<char>) -> bool {
    s.len() >= p.len() && s.subrange(0, p.len() as int) == p
}

/// Prefix test on string slices.
pub fn str_has_prefix(s: &str, p: &str) -> (r: bool)
    ensures
        r == spec_has_prefix(s@, p@),
{
    let n = s.unicode_len();
    let m = p.unicode_len();
    if n < m {
        return false;
    }
    let mut i: usize = 0;
    while i < m
        invariant
            n == s@.len(),
            m == p@.len(),
            m <= n,
            i <= m,
            forall|j: int| 0 <= j < i ==> s@[j] == p@[j],
        decreases m - i,
    {
        if s.get_char(i) != p.get_char(i) {
            assert(s@.subrange(0, m as int)[i as int] != p@[i as int]);
            return false;
        }
        i += 1;
    }
    assert(s@.subrange(0, m as int) =~= p@);
    true
}

/// Renders a signed integer in decimal.
pub fn decimal_i64(v: i64) -> (r: String)
    ensures
        r@ == spec_decimal(v as int),
{
    if v == 0 {
        proof {
            reveal_strlit("0");
        }
        let r = String::from_str("0");
        assert(r@ =~= seq!['0']);
        r
    } else if v < 0 {
        let mag: u64 = if v == i64::MIN {
            9223372036854775808u64
        } else {
            (-v) as u64
        };
        assert(mag as int == -(v as int));
        proof {
            reveal_strlit("-");
        }
        let r = String::from_str("-").concat(dec_u64(mag).as_str());
        assert(r@ =~= seq!['-'] + dec_nat(-(v as int)));
        r
    } else {
        dec_u64(v as u64)
    }
}

} // verus!
