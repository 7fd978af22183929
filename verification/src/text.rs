//! Character-level string utilities: equality, and decimal rendering and
//! parsing of unsigned 64-bit integers (the provider's account ids and page
//! numbers travel as decimal strings).

use vstd::prelude::*;
use vstd::string::StrSliceExecFns;
use vstd::string::StringExecFns;

verus! {

/// Character-by-character string equality, proved against the views.
pub fn str_eq(a: &str, b: &str) -> (r: bool)
    ensures
        r == (a@ == b@),
{
    let a_len = a.unicode_len();
    let b_len = b.unicode_len();
    if a_len != b_len {
        return false;
    }
    let mut i: usize = 0;
    while i < a_len
        invariant
            a_len == a@.len(),
            b_len == b@.len(),
            a_len == b_len,
            i <= a_len,
            forall|j: int| 0 <= j < i ==> a@[j] == b@[j],
        decreases a_len - i,
    {
        if a.get_char(i) != b.get_char(i) {
            return false;
        }
        i = i + 1;
    }
    proof {
        assert(a@ =~= b@);
    }
    true
}

/// The index of the last occurrence of `c` in `s`, if any.
pub open spec fn last_index_of_char(s: Seq<char>, c: char) -> Option<int>
    decreases s.len(),
{
    if s.len() == 0 {
        None
    } else if s.last() == c {
        Some(s.len() - 1)
    } else {
        last_index_of_char(s.drop_last(), c)
    }
}

/// The index of the first occurrence of `c` in `s`, if any.
pub open spec fn first_index_of_char(s: Seq<char>, c: char) -> Option<int>
    decreases s.len(),
{
    if s.len() == 0 {
        None
    } else if s.first() == c {
        Some(0)
    } else {
        match first_index_of_char(s.drop_first(), c) {
            Some(i) => Some(i + 1),
            None => None,
        }
    }
}

pub proof fn lemma_last_index_of_char(s: Seq<char>, c: char)
    ensures
        match last_index_of_char(s, c) {
            Some(k) => 0 <= k < s.len() && s[k] == c && forall|j: int|
                k < j < s.len() ==> s[j] != c,
            None => forall|j: int| 0 <= j < s.len() ==> s[j] != c,
        },
    decreases s.len(),
{
    if s.len() > 0 && s.last() != c {
        lemma_last_index_of_char(s.drop_last(), c);
        let d = s.drop_last();
        match last_index_of_char(d, c) {
            Some(k) => {
                assert(s[k] == d[k]);
                assert forall|j: int| k < j < s.len() implies s[j] != c by {
                    if j < s.len() - 1 {
                        assert(s[j] == d[j]);
                    }
                }
            },
            None => {
                assert forall|j: int| 0 <= j < s.len() implies s[j] != c by {
                    if j < s.len() - 1 {
                        assert(s[j] == d[j]);
                    }
                }
            },
        }
    }
}

pub proof fn lemma_first_index_of_char(s: Seq<char>, c: char)
    ensures
        match first_index_of_char(s, c) {
            Some(k) => 0 <= k < s.len() && s[k] == c && forall|j: int| 0 <= j < k ==> s[j] != c,
            None => forall|j: int| 0 <= j < s.len() ==> s[j] != c,
        },
    decreases s.len(),
{
    if s.len() > 0 && s.first() != c {
        lemma_first_index_of_char(s.drop_first(), c);
        let d = s.drop_first();
        match first_index_of_char(d, c) {
            Some(k) => {
                assert(s[k + 1] == d[k]);
                assert forall|j: int| 0 <= j < k + 1 implies s[j] != c by {
                    if j > 0 {
                        assert(s[j] == d[j - 1]);
                    }
                }
            },
            None => {
                assert forall|j: int| 0 <= j < s.len() implies s[j] != c by {
                    if j > 0 {
                        assert(s[j] == d[j - 1]);
                    }
                }
            },
        }
    }
}

/// Finds the last occurrence of `c` in `s`.
pub fn rfind_char(s: &str, c: char) -> (r: Option<usize>)
    ensures
        match r {
            Some(k) => k < s@.len() && last_index_of_char(s@, c) == Some(k as int),
            None => last_index_of_char(s@, c) is None,
        },
{
    let n = s.unicode_len();
    let mut i = n;
    while i > 0
        invariant
            n == s@.len(),
            i <= n,
            forall|j: int| i <= j < n ==> s@[j] != c,
        decreases i,
    {
        i = i - 1;
        if s.get_char(i) == c {
            proof {
                lemma_last_index_of_char(s@, c);
            }
            return Some(i);
        }
        proof {
            assert(s@[i as int] != c);
        }
    }
    proof {
        lemma_last_index_of_char(s@, c);
    }
    None
}

/// A decimal digit.
pub open spec fn is_digit_char(c: char) -> bool {
    '0' as int <= c as int <= '9' as int
}

/// The numeric value of a decimal digit.
pub open spec fn digit_value(c: char) -> int {
    c as int - '0' as int
}

/// Every character of `s` is a decimal digit.
pub open spec fn all_digits(s: Seq<char>) -> bool {
    forall|i: int| 0 <= i < s.len() ==> is_digit_char(#[trigger] s[i])
}

/// The value of `s` read as a base-10 numeral, most significant digit first.
pub open spec fn dec_value(s: Seq<char>) -> int
    decreases s.len(),
{
    if s.len() == 0 {
        0
    } else {
        dec_value(s.drop_last()) * 10 + digit_value(s.last())
    }
}

pub proof fn lemma_dec_value_nonneg(s: Seq<char>)
    requires
        all_digits(s),
    ensures
        dec_value(s) >= 0,
    decreases s.len(),
{
    if s.len() > 0 {
        assert(all_digits(s.drop_last()));
        lemma_dec_value_nonneg(s.drop_last());
    }
}

/// A digit string is worth at least any of its prefixes.
pub proof fn lemma_dec_value_prefix_le(s: Seq<char>, k: int)
    requires
        all_digits(s),
        0 <= k <= s.len(),
    ensures
        dec_value(s.subrange(0, k)) <= dec_value(s),
    decreases s.len() - k,
{
    if k == s.len() {
        assert(s.subrange(0, k) =~= s);
    } else {
        let t = s.subrange(0, k + 1);
        assert(t.drop_last() =~= s.subrange(0, k));
        assert(all_digits(s.subrange(0, k)));
        lemma_dec_value_nonneg(s.subrange(0, k));
        assert(dec_value(t) == dec_value(s.subrange(0, k)) * 10 + digit_value(s[k]));
        lemma_dec_value_prefix_le(s, k + 1);
    }
}

/// Parses a non-empty all-digit string into a `u64`; `None` on an empty
/// string, a non-digit character, or a value that does not fit.
pub fn parse_u64(s: &str) -> (r: Option<u64>)
    ensures
        match r {
            Some(v) => s@.len() > 0 && all_digits(s@) && dec_value(s@) == v as int,
            None => s@.len() == 0 || !all_digits(s@) || dec_value(s@) > u64::MAX as int,
        },
{
    let n = s.unicode_len();
    if n == 0 {
        return None;
    }
    let mut acc: u64 = 0;
    let mut i: usize = 0;
    while i < n
        invariant
            n == s@.len(),
            i <= n,
            all_digits(s@.subrange(0, i as int)),
            acc as int == dec_value(s@.subrange(0, i as int)),
        decreases n - i,
    {
        let c = s.get_char(i);
        let code = c as u32;
        if code < 48 || code > 57 {
            assert(!is_digit_char(s@[i as int]));
            return None;
        }
        let d = (code - 48) as u64;
        proof {
            assert(s@.subrange(0, i + 1).drop_last() =~= s@.subrange(0, i as int));
            assert(s@.subrange(0, i + 1).last() == s@[i as int]);
        }
        if acc > (u64::MAX - d) / 10 {
            proof {
                let t = s@.subrange(0, i + 1);
                assert(dec_value(t) == acc as int * 10 + d as int);
                assert(acc as int * 10 + d as int > u64::MAX as int) by (nonlinear_arith)
                    requires
                        acc as int > (u64::MAX as int - d as int) / 10,
                        0 <= d as int <= 9,
                ;
                if all_digits(s@) {
                    assert(t =~= s@.subrange(0, i + 1));
                    lemma_dec_value_prefix_le(s@, i + 1);
                }
            }
            return None;
        }
        proof {
            assert(acc * 10 + d <= u64::MAX) by (nonlinear_arith)
                requires
                    acc as int <= (u64::MAX as int - d as int) / 10,
                    0 <= d as int <= 9,
            ;
        }
        acc = acc * 10 + d;
        i = i + 1;
    }
    proof {
        assert(s@.subrange(0, n as int) =~= s@);
    }
    Some(acc)
}

/// The single-character numeral for one digit.
fn digit_str(d: u64) -> (s: &'static str)
    requires
        d < 10,
    ensures
        s@.len() == 1,
        is_digit_char(s@[0]),
        digit_value(s@[0]) == d as int,
{
    if d == 0 {
        proof { reveal_strlit("0"); }
        "0"
    } else if d == 1 {
        proof { reveal_strlit("1"); }
        "1"
    } else if d == 2 {
        proof { reveal_strlit("2"); }
        "2"
    } else if d == 3 {
        proof { reveal_strlit("3"); }
        "3"
    } else if d == 4 {
        proof { reveal_strlit("4"); }
        "4"
    } else if d == 5 {
        proof { reveal_strlit("5"); }
        "5"
    } else if d == 6 {
        proof { reveal_strlit("6"); }
        "6"
    } else if d == 7 {
        proof { reveal_strlit("7"); }
        "7"
    } else if d == 8 {
        proof { reveal_strlit("8"); }
        "8"
    } else {
        proof { reveal_strlit("9"); }
        "9"
    }
}

/// Powers of ten.
pub open spec fn pow10(n: nat) -> int
    decreases n,
{
    if n == 0 {
        1
    } else {
        10 * pow10((n - 1) as nat)
    }
}

proof fn lemma_pow10_pos(n: nat)
    ensures
        pow10(n) >= 1,
    decreases n,
{
    if n > 0 {
        lemma_pow10_pos((n - 1) as nat);
    }
}

/// The value of a digit sequence stored least significant digit first.
pub open spec fn lsb_value(ds: Seq<u64>) -> int
    decreases ds.len(),
{
    if ds.len() == 0 {
        0
    } else {
        lsb_value(ds.drop_last()) + ds.last() * pow10((ds.len() - 1) as nat)
    }
}

proof fn lemma_lsb_value_prepend(d: u64, ds: Seq<u64>)
    ensures
        lsb_value(seq![d] + ds) == d + 10 * lsb_value(ds),
    decreases ds.len(),
{
    let whole = seq![d] + ds;
    if ds.len() == 0 {
        assert(whole =~= seq![d]);
        assert(seq![d].drop_last() =~= Seq::<u64>::empty());
        assert(seq![d].last() == d);
        assert(lsb_value(seq![d]) == lsb_value(Seq::<u64>::empty()) + d * pow10(0));
    } else {
        assert(whole.drop_last() =~= seq![d] + ds.drop_last());
        assert(whole.last() == ds.last());
        assert(whole.len() - 1 == ds.len());
        lemma_lsb_value_prepend(d, ds.drop_last());
        assert(lsb_value(whole) == lsb_value(seq![d] + ds.drop_last()) + ds.last() * pow10(
            ds.len() as nat,
        ));
        assert(pow10(ds.len() as nat) == 10 * pow10((ds.len() - 1) as nat));
        assert(ds.last() * (10 * pow10((ds.len() - 1) as nat)) == 10 * (ds.last() * pow10(
            (ds.len() - 1) as nat,
        ))) by (nonlinear_arith);
    }
}

/// Renders `v` in decimal: all digits, non-empty, worth exactly `v`, and with
/// no leading zero unless the numeral is `"0"` itself.
pub fn u64_to_dec_string(v: u64) -> (s: String)
    ensures
        all_digits(s@),
        s@.len() > 0,
        dec_value(s@) == v as int,
        s@[0] == '0' ==> s@.len() == 1,
{
    if v == 0 {
        let s = String::from_str("0");
        proof {
            reveal_strlit("0");
            assert(s@.len() == 1);
            assert(s@.last() == '0');
            assert(s@.drop_last() =~= Seq::<char>::empty());
            assert(dec_value(s@.drop_last()) == 0);
            assert(dec_value(s@) == digit_value('0'));
        }
        return s;
    }
    let mut digits: Vec<u64> = Vec::new();
    let mut x: u64 = v;
    while x > 0
        invariant
            v as int == lsb_value(digits@) + x as int * pow10(digits@.len() as nat),
            forall|j: int| 0 <= j < digits@.len() ==> #[trigger] digits@[j] < 10,
            x == 0 ==> digits@.len() > 0 && digits@.last() != 0,
            x > 0 || digits@.len() > 0,
        decreases x,
    {
        let d = x % 10;
        let x2 = x / 10;
        proof {
            let ds = digits@;
            let ds2 = ds.push(d);
            assert(ds2.drop_last() =~= ds);
            assert(ds2.last() == d);
            assert(lsb_value(ds2) == lsb_value(ds) + d * pow10(ds.len() as nat));
            assert(x as int == 10 * (x2 as int) + d as int);
            assert((10 * (x2 as int) + d as int) * pow10(ds.len() as nat) == d as int * pow10(
                ds.len() as nat,
            ) + (x2 as int) * (10 * pow10(ds.len() as nat))) by (nonlinear_arith);
            assert(pow10(ds2.len() as nat) == 10 * pow10(ds.len() as nat));
            if x2 == 0 {
                lemma_pow10_pos(ds.len() as nat);
                assert(d != 0) by (nonlinear_arith)
                    requires
                        x as int == 10 * (x2 as int) + d as int,
                        x2 == 0,
                        x > 0,
                        d as int == x as int % 10,
                ;
            }
        }
        digits.push(d);
        x = x2;
    }
    let top = digits.len();
    let mut s = String::new();
    let mut i = top;
    proof {
        assert(digits@.subrange(top as int, top as int) =~= Seq::<u64>::empty());
        lemma_pow10_pos(0);
    }
    while i > 0
        invariant
            top == digits@.len(),
            i <= top,
            top > 0,
            forall|j: int| 0 <= j < digits@.len() ==> #[trigger] digits@[j] < 10,
            digits@.last() != 0,
            lsb_value(digits@) == v as int,
            all_digits(s@),
            s@.len() == top - i,
            dec_value(s@) == lsb_value(digits@.subrange(i as int, top as int)),
            s@.len() > 0 ==> digit_value(s@[0]) == digits@.last() as int,
        decreases i,
    {
        i = i - 1;
        let d = digits[i];
        let ds = digit_str(d);
        proof {
            let before = s@;
            let after = before + ds@;
            assert(after.drop_last() =~= before);
            assert(after.last() == ds@[0]);
            assert(dec_value(after) == dec_value(before) * 10 + d as int);
            let seg = digits@.subrange(i as int, top as int);
            let seg_rest = digits@.subrange(i + 1, top as int);
            assert(seg =~= seq![d] + seg_rest);
            lemma_lsb_value_prepend(d, seg_rest);
            assert(lsb_value(seg) == d + 10 * lsb_value(seg_rest));
        }
        s.append(ds);
    }
    proof {
        assert(digits@.subrange(0, top as int) =~= digits@);
        assert(s@[0] == '0' ==> digit_value(s@[0]) == 0);
        assert(digit_value(s@[0]) == digits@.last() as int);
    }
    s
}

} // verus!
