//! Text helpers used across the library: decimal rendering of integers,
//! decimal parsing of ports, and splitting a session identifier on its
//! single separator character.

use vstd::prelude::*;

verus! {

/// The character for the decimal digit `d`.
pub open spec fn spec_digit(d: int) -> char {
    if d == 0 {
        '0'
    } else if d == 1 {
        '1'
    } else if d == 2 {
        '2'
    } else if d == 3 {
        '3'
    } else if d == 4 {
        '4'
    } else if d == 5 {
        '5'
    } else if d == 6 {
        '6'
    } else if d == 7 {
        '7'
    } else if d == 8 {
        '8'
    } else {
        '9'
    }
}

/// The usual decimal rendering of `n`, with no sign and no leading zeros
/// (a single `'0'` for zero).
pub open spec fn spec_u64_dec(n: nat) -> Seq<char>
    decreases n,
{
    if n < 10 {
        seq![spec_digit(n as int)]
    } else {
        spec_u64_dec(n / 10) + seq![spec_digit((n % 10) as int)]
    }
}

fn push_digit(s: &mut String, d: u64)
    requires
        d < 10,
    ensures
        final(s)@ == old(s)@ + seq![spec_digit(d as int)],
{
    if d == 0 {
        s.append("0");
        proof {
            reveal_strlit("0");
            assert(("0")@ =~= seq![spec_digit(0)]);
        }
    } else if d == 1 {
        s.append("1");
        proof {
            reveal_strlit("1");
            assert(("1")@ =~= seq![spec_digit(1)]);
        }
    } else if d == 2 {
        s.append("2");
        proof {
            reveal_strlit("2");
            assert(("2")@ =~= seq![spec_digit(2)]);
        }
    } else if d == 3 {
        s.append("3");
        proof {
            reveal_strlit("3");
            assert(("3")@ =~= seq![spec_digit(3)]);
        }
    } else if d == 4 {
        s.append("4");
        proof {
            reveal_strlit("4");
            assert(("4")@ =~= seq![spec_digit(4)]);
        }
    } else if d == 5 {
        s.append("5");
        proof {
            reveal_strlit("5");
            assert(("5")@ =~= seq![spec_digit(5)]);
        }
    } else if d == 6 {
        s.append("6");
        proof {
            reveal_strlit("6");
            assert(("6")@ =~= seq![spec_digit(6)]);
        }
    } else if d == 7 {
        s.append("7");
        proof {
            reveal_strlit("7");
            assert(("7")@ =~= seq![spec_digit(7)]);
        }
    } else if d == 8 {
        s.append("8");
        proof {
            reveal_strlit("8");
            assert(("8")@ =~= seq![spec_digit(8)]);
        }
    } else {
        s.append("9");
        proof {
            reveal_strlit("9");
            assert(("9")@ =~= seq![spec_digit(9)]);
        }
    }
}

/// Appends the decimal rendering of `n` to `s`.
pub fn push_u64_dec(s: &mut String, n: u64)
    ensures
        final(s)@ == old(s)@ + spec_u64_dec(n as nat),
    decreases n,
{
    if n < 10 {
        push_digit(s, n);
    } else {
        push_u64_dec(s, n / 10);
        push_digit(s, n % 10);
        proof {
            assert(old(s)@ + spec_u64_dec((n / 10) as nat) + seq![spec_digit((n % 10) as int)]
                =~= old(s)@ + spec_u64_dec(n as nat));
        }
    }
}

/// The decimal rendering of `n` as an owned string.
pub fn u64_to_dec(n: u64) -> (r: String)
    ensures
        r@ == spec_u64_dec(n as nat),
{
    let mut s = String::new();
    push_u64_dec(&mut s, n);
    proof {
        assert(s@ =~= spec_u64_dec(n as nat));
    }
    s
}

/// How many separator characters (`'-'`) occur in `s`.
pub open spec fn spec_sep_count(s: Seq<char>) -> nat
    decreases s.len(),
{
    if s.len() == 0 {
        0
    } else {
        spec_sep_count(s.drop_last()) + if s.last() == '-' {
            1nat
        } else {
            0nat
        }
    }
}

pub proof fn lemma_sep_count_concat(x: Seq<char>, y: Seq<char>)
    ensures
        spec_sep_count(x + y) == spec_sep_count(x) + spec_sep_count(y),
    decreases y.len(),
{
    if y.len() == 0 {
        assert(x + y =~= x);
    } else {
        assert((x + y).drop_last() =~= x + y.drop_last());
        lemma_sep_count_concat(x, y.drop_last());
    }
}

pub proof fn lemma_sep_count_zero(s: Seq<char>)
    ensures
        (spec_sep_count(s) == 0) <==> (forall|i: int| 0 <= i < s.len() ==> s[i] != '-'),
    decreases s.len(),
{
    if s.len() > 0 {
        lemma_sep_count_zero(s.drop_last());
        if spec_sep_count(s) == 0 {
            assert forall|i: int| 0 <= i < s.len() implies s[i] != '-' by {
                if i < s.len() - 1 {
                    assert(s.drop_last()[i] == s[i]);
                }
            }
        } else if forall|i: int| 0 <= i < s.len() ==> s[i] != '-' {
            assert forall|i: int| 0 <= i < s.len() - 1 implies s.drop_last()[i] != '-' by {
                assert(s.drop_last()[i] == s[i]);
            }
            assert(s.last() != '-');
        }
    }
}

/// A string with exactly one separator splits in only one way into two
/// separator-free parts.
pub proof fn lemma_split_unique(a0: Seq<char>, b0: Seq<char>, a: Seq<char>, b: Seq<char>)
    requires
        a0 + seq!['-'] + b0 == a + seq!['-'] + b,
        spec_sep_count(a0) == 0,
        spec_sep_count(b0) == 0,
        spec_sep_count(a) == 0,
        spec_sep_count(b) == 0,
    ensures
        a == a0,
        b == b0,
{
    let s = a0 + seq!['-'] + b0;
    lemma_sep_count_zero(a0);
    lemma_sep_count_zero(b0);
    lemma_sep_count_zero(a);
    lemma_sep_count_zero(b);
    assert(s[a0.len() as int] == '-');
    assert(s[a.len() as int] == '-');
    if a.len() < a0.len() {
        assert(s[a.len() as int] == a0[a.len() as int]);
    } else if a0.len() < a.len() {
        assert(s[a0.len() as int] == a[a0.len() as int]);
    }
    assert(a.len() == a0.len());
    assert forall|i: int| 0 <= i < a.len() implies a[i] == a0[i] by {
        assert(a[i] == (a + seq!['-'] + b)[i]);
        assert(a0[i] == (a0 + seq!['-'] + b0)[i]);
    }
    assert(a =~= a0);
    assert((a + seq!['-'] + b).len() == a.len() + 1 + b.len());
    assert((a0 + seq!['-'] + b0).len() == a0.len() + 1 + b0.len());
    assert(b.len() == b0.len());
    assert forall|j: int| 0 <= j < b.len() implies b[j] == b0[j] by {
        assert(b[j] == (a + seq!['-'] + b)[a.len() + 1 + j]);
        assert(b0[j] == (a0 + seq!['-'] + b0)[a0.len() + 1 + j]);
    }
    assert(b =~= b0);
}

/// A single separator character counts as one separator.
pub proof fn lemma_sep_count_single()
    ensures
        spec_sep_count(seq!['-']) == 1,
{
    reveal_with_fuel(spec_sep_count, 2);
    assert(seq!['-'].last() == '-');
    assert(seq!['-'].drop_last() =~= Seq::<char>::empty());
}

/// Splits `s` into the two parts around its separator, provided `s`
/// holds exactly one `'-'`; any other number of separators yields `None`.
pub fn split_two(s: &str) -> (r: Option<(String, String)>)
    ensures
        r is Some <==> spec_sep_count(s@) == 1,
        r matches Some(p) ==> {
            &&& s@ == p.0@ + seq!['-'] + p.1@
            &&& spec_sep_count(p.0@) == 0
            &&& spec_sep_count(p.1@) == 0
        },
{
    let n = s.unicode_len();
    let mut count: usize = 0;
    let mut idx: usize = 0;
    let mut i: usize = 0;
    while i < n
        invariant
            i <= n,
            n == s@.len(),
            count <= i,
            count == spec_sep_count(s@.take(i as int)),
            count > 0 ==> {
                &&& idx < i
                &&& s@[idx as int] == '-'
                &&& spec_sep_count(s@.take(idx as int)) == 0
            },
        decreases n - i,
    {
        let c = s.get_char(i);
        proof {
            assert(s@.take(i + 1).drop_last() =~= s@.take(i as int));
        }
        if c == '-' {
            if count == 0 {
                idx = i;
            }
            count = count + 1;
        }
        i = i + 1;
    }
    proof {
        assert(s@.take(n as int) =~= s@);
    }
    if count != 1 {
        return None;
    }
    let a = s.substring_char(0, idx);
    let b = s.substring_char(idx + 1, n);
    proof {
        assert(a@ =~= s@.take(idx as int));
        assert(s@ =~= a@ + seq!['-'] + b@);
        lemma_sep_count_concat(a@ + seq!['-'], b@);
        lemma_sep_count_concat(a@, seq!['-']);
        assert(spec_sep_count(seq!['-']) == 1) by {
            assert(seq!['-'].drop_last() =~= Seq::<char>::empty());
        }
    }
    Some((String::from_str(a), String::from_str(b)))
}

/// Character-wise string equality.
pub fn str_eq(a: &str, b: &str) -> (r: bool)
    ensures
        r == (a@ == b@),
{
    let n = a.unicode_len();
    if n != b.unicode_len() {
        return false;
    }
    let mut i: usize = 0;
    while i < n
        invariant
            i <= n,
            n == a@.len(),
            n == b@.len(),
            forall|j: int| 0 <= j < i ==> a@[j] == b@[j],
        decreases n - i,
    {
        if a.get_char(i) != b.get_char(i) {
            return false;
        }
        i = i + 1;
    }
    proof {
        assert(a@ =~= b@);
    }
    true
}

/// Whether `c` is a decimal digit.
pub open spec fn spec_is_digit(c: char) -> bool {
    48 <= c as u32 <= 57
}

/// The value of the decimal digit `c`.
pub open spec fn spec_digit_val(c: char) -> int {
    c as u32 - 48
}

/// The value of `s` read as a decimal numeral.
pub open spec fn spec_dec_val(s: Seq<char>) -> int
    decreases s.len(),
{
    if s.len() == 0 {
        0
    } else {
        spec_dec_val(s.drop_last()) * 10 + spec_digit_val(s.last())
    }
}

/// What parsing a port numeral yields: the value of `s`, provided `s` is a
/// nonempty run of decimal digits whose value fits in a `u16`.
pub open spec fn spec_parse_u16(s: Seq<char>) -> Option<u16> {
    if s.len() > 0 && (forall|i: int| 0 <= i < s.len() ==> spec_is_digit(s[i])) && spec_dec_val(s)
        <= 65535 {
        Some(spec_dec_val(s) as u16)
    } else {
        None
    }
}

proof fn lemma_dec_val_prefix(s: Seq<char>, i: int)
    requires
        0 <= i <= s.len(),
        forall|j: int| 0 <= j < s.len() ==> spec_is_digit(s[j]),
    ensures
        0 <= spec_dec_val(s.take(i)) <= spec_dec_val(s),
    decreases s.len() - i,
{
    if i == s.len() {
        assert(s.take(i) =~= s);
        lemma_dec_val_nonneg(s);
    } else {
        assert(s.take(i + 1).drop_last() =~= s.take(i));
        lemma_dec_val_nonneg(s.take(i));
        lemma_dec_val_prefix(s, i + 1);
    }
}

proof fn lemma_dec_val_nonneg(s: Seq<char>)
    requires
        forall|j: int| 0 <= j < s.len() ==> spec_is_digit(s[j]),
    ensures
        spec_dec_val(s) >= 0,
    decreases s.len(),
{
    if s.len() > 0 {
        lemma_dec_val_nonneg(s.drop_last());
    }
}

/// Parses a nonempty run of decimal digits into a `u16`.
pub fn parse_u16(s: &str) -> (r: Option<u16>)
    ensures
        r == spec_parse_u16(s@),
{
    let n = s.unicode_len();
    if n == 0 {
        return None;
    }
    let mut acc: u32 = 0;
    let mut i: usize = 0;
    while i < n
        invariant
            i <= n,
            n == s@.len(),
            0 < n,
            acc <= 65535,
            acc == spec_dec_val(s@.take(i as int)),
            forall|j: int| 0 <= j < i ==> spec_is_digit(s@[j]),
        decreases n - i,
    {
        let c = s.get_char(i);
        let v = c as u32;
        if v < 48 || v > 57 {
            return None;
        }
        proof {
            assert(s@.take(i + 1).drop_last() =~= s@.take(i as int));
        }
        let next: u32 = acc * 10 + (v - 48);
        if next > 65535 {
            proof {
                if forall|j: int| 0 <= j < s@.len() ==> spec_is_digit(s@[j]) {
                    lemma_dec_val_prefix(s@, i + 1);
                }
            }
            return None;
        }
        acc = next;
        i = i + 1;
    }
    proof {
        assert(s@.take(n as int) =~= s@);
    }
    Some(acc as u16)
}

} // verus!
