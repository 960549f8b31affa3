//! Verified string primitives: equality, case folding for ASCII, and
//! decimal digit parsing and rendering.
//!
//! The control protocol and the geometry table both speak in plain
//! strings, so the grammar of a decimal number is spelled out here once,
//! as spec functions, and the executable parser and renderer are proved
//! against it.

use vstd::prelude::*;

verus! {

/// Compares two string slices character by character.
pub fn str_eq(a: &str, b: &str) -> (r: bool)
    ensures
        r == (a@ == b@),
{
    let a_len = a.unicode_len();
    let b_len = b.unicode_len();
    if a_len != b_len {
        assert(a@.len() != b@.len());
        return false;
    }
    let mut i: usize = 0;
    while i < a_len
        invariant
            a_len == a@.len(),
            b_len == b@.len(),
            a@.len() == b@.len(),
            i <= a_len,
            forall|j: int| 0 <= j < i ==> a@[j] == b@[j],
        decreases a_len - i,
    {
        if a.get_char(i) != b.get_char(i) {
            return false;
        }
        i += 1;
    }
    assert(a@ =~= b@);
    true
}

/// The code point of a character with an upper-case ASCII letter folded
/// to its lower-case counterpart; any other character is kept as it is.
pub open spec fn lower_code(c: char) -> int {
    if 'A' <= c && c <= 'Z' {
        c as u32 + 32
    } else {
        c as u32 as int
    }
}

/// Two character sequences are equal once ASCII case is folded away.
pub open spec fn fold_case_eq(a: Seq<char>, b: Seq<char>) -> bool {
    a.len() == b.len() && forall|i: int|
        0 <= i < a.len() ==> lower_code(#[trigger] a[i]) == lower_code(b[i])
}

/// Compares two string slices ignoring the case of ASCII letters.
pub fn str_eq_ignore_ascii_case(a: &str, b: &str) -> (r: bool)
    ensures
        r == fold_case_eq(a@, b@),
{
    let a_len = a.unicode_len();
    let b_len = b.unicode_len();
    if a_len != b_len {
        return false;
    }
    let mut i: usize = 0;
    while i < a_len
        invariant
            a_len == a@.len(),
            b_len == b@.len(),
            a@.len() == b@.len(),
            i <= a_len,
            forall|j: int| 0 <= j < i ==> lower_code(#[trigger] a@[j]) == lower_code(b@[j]),
        decreases a_len - i,
    {
        let ca = lower_code_exec(a.get_char(i));
        let cb = lower_code_exec(b.get_char(i));
        if ca != cb {
            return false;
        }
        i += 1;
    }
    true
}

/// Folds one character's code point exactly as `lower_code` describes.
pub fn lower_code_exec(c: char) -> (r: u32)
    ensures
        r as int == lower_code(c),
{
    if 'A' <= c && c <= 'Z' {
        (c as u32) + 32
    } else {
        c as u32
    }
}

/// A decimal digit.
pub open spec fn is_digit(c: char) -> bool {
    '0' <= c && c <= '9'
}

/// The value of one decimal digit.
pub open spec fn digit_val(c: char) -> int {
    c as u32 - '0' as u32
}

/// Every character of the sequence is a decimal digit.
pub open spec fn all_digits(s: Seq<char>) -> bool {
    forall|i: int| 0 <= i < s.len() ==> is_digit(#[trigger] s[i])
}

/// The number a sequence of decimal digits denotes, most significant first.
pub open spec fn digits_val(s: Seq<char>) -> int
    decreases s.len(),
{
    if s.len() == 0 {
        0
    } else {
        digits_val(s.drop_last()) * 10 + digit_val(s.last())
    }
}

/// A digit string denotes a non-negative number.
pub proof fn lemma_digits_val_nonneg(s: Seq<char>)
    requires
        all_digits(s),
    ensures
        digits_val(s) >= 0,
    decreases s.len(),
{
    if s.len() > 0 {
        lemma_digits_val_nonneg(s.drop_last());
    }
}

/// Dropping trailing digits never increases the denoted number.
pub proof fn lemma_digits_val_prefix_le(s: Seq<char>, k: int)
    requires
        all_digits(s),
        0 <= k <= s.len(),
    ensures
        digits_val(s.subrange(0, k)) <= digits_val(s),
    decreases s.len() - k,
{
    if k == s.len() {
        assert(s.subrange(0, k) =~= s);
    } else {
        let shorter = s.subrange(0, k);
        let longer = s.subrange(0, k + 1);
        assert(longer.drop_last() =~= shorter);
        assert(longer.last() == s[k]);
        lemma_digits_val_nonneg(shorter);
        assert(digits_val(longer) == digits_val(shorter) * 10 + digit_val(s[k]));
        lemma_digits_val_prefix_le(s, k + 1);
    }
}

/// Parses a non-empty, all-digit string into a 32-bit number.
///
/// Returns `None` exactly when the string is empty, holds a non-digit,
/// or denotes a number too large for the result type.
pub fn parse_u32_digits(s: &str) -> (r: Option<u32>)
    ensures
        match r {
            Some(v) => s@.len() > 0 && all_digits(s@) && v as int == digits_val(s@),
            None => s@.len() == 0 || !all_digits(s@) || digits_val(s@) > u32::MAX,
        },
{
    let len = s.unicode_len();
    if len == 0 {
        return None;
    }
    let mut acc: u64 = 0;
    let mut i: usize = 0;
    while i < len
        invariant
            len == s@.len(),
            0 < len,
            i <= len,
            all_digits(s@.subrange(0, i as int)),
            acc as int == digits_val(s@.subrange(0, i as int)),
            acc <= u32::MAX,
        decreases len - i,
    {
        let c = s.get_char(i);
        if c < '0' || c > '9' {
            assert(!is_digit(s@[i as int]));
            return None;
        }
        let d: u64 = (c as u32 - 48) as u64;
        assert(d <= 9) by {
            assert(c as u32 <= '9' as u32);
        }
        let next: u64 = acc * 10 + d;
        proof {
            let prefix = s@.subrange(0, i as int);
            let extended = s@.subrange(0, i as int + 1);
            assert(extended.drop_last() =~= prefix);
            assert(extended.last() == s@[i as int]);
            assert(next as int == digits_val(extended));
        }
        if next > 0xFFFF_FFFF {
            proof {
                let extended = s@.subrange(0, i as int + 1);
                if all_digits(s@) {
                    lemma_digits_val_prefix_le(s@, i as int + 1);
                    assert(digits_val(s@) >= digits_val(extended));
                }
            }
            return None;
        }
        acc = next;
        i += 1;
    }
    assert(s@.subrange(0, len as int) =~= s@);
    Some(acc as u32)
}

/// The string of one decimal digit.
pub fn digit_str(d: u32) -> (r: &'static str)
    requires
        d < 10,
    ensures
        r@.len() == 1,
        is_digit(r@[0]),
        digit_val(r@[0]) == d as int,
{
    proof {
        reveal_strlit("0");
        reveal_strlit("1");
        reveal_strlit("2");
        reveal_strlit("3");
        reveal_strlit("4");
        reveal_strlit("5");
        reveal_strlit("6");
        reveal_strlit("7");
        reveal_strlit("8");
        reveal_strlit("9");
    }
    if d == 0 {
        "0"
    } else if d == 1 {
        "1"
    } else if d == 2 {
        "2"
    } else if d == 3 {
        "3"
    } else if d == 4 {
        "4"
    } else if d == 5 {
        "5"
    } else if d == 6 {
        "6"
    } else if d == 7 {
        "7"
    } else if d == 8 {
        "8"
    } else {
        "9"
    }
}

/// Renders a 32-bit number as decimal digits, most significant first,
/// with no leading zero (`0` itself is the single digit `0`).
pub fn render_u32(n: u32) -> (r: String)
    ensures
        r@.len() >= 1,
        all_digits(r@),
        digits_val(r@) == n as int,
        n > 0 ==> digit_val(r@[0]) >= 1,
    decreases n,
{
    if n < 10 {
        let s = digit_str(n);
        let r = s.to_owned();
        proof {
            assert(r@ =~= s@);
            assert(r@.drop_last() =~= Seq::<char>::empty());
            assert(digits_val(Seq::<char>::empty()) == 0);
            assert(digits_val(r@) == digit_val(r@.last()));
        }
        r
    } else {
        let rest = render_u32(n / 10);
        let last = digit_str(n % 10);
        let r = rest.concat(last);
        proof {
            assert(r@.drop_last() =~= rest@);
            assert(r@.last() == last@[0]);
            assert(digits_val(r@) == digits_val(rest@) * 10 + (n % 10));
            assert((n / 10) as int * 10 + (n % 10) as int == n as int) by (nonlinear_arith);
            assert(r@[0] == rest@[0]);
        }
        r
    }
}

} // verus!
