//! Text helpers: whitespace trimming, ASCII case-insensitive comparison and
//! decimal rendering of integers, each with its meaning on character sequences.

use vstd::prelude::*;
use vstd::string::*;

verus! {

/// `char::is_whitespace`: the Unicode `White_Space` property.
pub open spec fn is_ws(c: char) -> bool {
    ||| '\t' <= c <= '\r'
    ||| c == ' '
    ||| c == '\u{85}'
    ||| c == '\u{a0}'
    ||| c == '\u{1680}'
    ||| '\u{2000}' <= c <= '\u{200a}'
    ||| c == '\u{2028}'
    ||| c == '\u{2029}'
    ||| c == '\u{202f}'
    ||| c == '\u{205f}'
    ||| c == '\u{3000}'
}

/// The characters left after dropping leading whitespace.
pub open spec fn trim_start_spec(s: Seq<char>) -> Seq<char>
    decreases s.len(),
{
    if s.len() > 0 && is_ws(s[0]) {
        trim_start_spec(s.drop_first())
    } else {
        s
    }
}

/// The characters left after dropping trailing whitespace.
pub open spec fn trim_end_spec(s: Seq<char>) -> Seq<char>
    decreases s.len(),
{
    if s.len() > 0 && is_ws(s.last()) {
        trim_end_spec(s.drop_last())
    } else {
        s
    }
}

/// `str::trim`.
pub open spec fn trim_spec(s: Seq<char>) -> Seq<char> {
    trim_end_spec(trim_start_spec(s))
}

/// A text that neither begins nor ends with whitespace is its own trim.
pub proof fn lemma_trim_plain(s: Seq<char>)
    requires
        s.len() > 0,
        !is_ws(s[0]),
        !is_ws(s.last()),
    ensures
        trim_spec(s) == s,
{
}

/// A text without spaces keeps all its characters when the spaces are
/// dropped.
pub proof fn lemma_no_spaces_plain(s: Seq<char>)
    requires
        forall|i: int| 0 <= i < s.len() ==> s[i] != ' ',
    ensures
        no_spaces(s) == s,
    decreases s.len(),
{
    reveal_with_fuel(Seq::<char>::filter, 1);
    if s.len() > 0 {
        lemma_no_spaces_plain(s.drop_last());
        assert(s.drop_last().push(s.last()) =~= s);
    }
}

/// Dropping the spaces of two words joined by one space joins the words.
pub proof fn lemma_no_spaces_joined(a: Seq<char>, b: Seq<char>)
    requires
        forall|i: int| 0 <= i < a.len() ==> a[i] != ' ',
        forall|i: int| 0 <= i < b.len() ==> b[i] != ' ',
    ensures
        no_spaces(a + seq![' '] + b) == a + b,
{
    lemma_no_spaces_plain(a);
    lemma_no_spaces_plain(b);
    reveal_with_fuel(Seq::<char>::filter, 2);
    assert(seq![' '].drop_last() =~= Seq::<char>::empty());
    assert(no_spaces(seq![' ']) =~= Seq::<char>::empty());
    Seq::filter_distributes_over_add(a + seq![' '], b, |c: char| c != ' ');
    Seq::filter_distributes_over_add(a, seq![' '], |c: char| c != ' ');
    assert(a + Seq::<char>::empty() =~= a);
}

/// `char::to_ascii_lowercase`.
pub open spec fn ascii_lower(c: char) -> char {
    if 'A' <= c <= 'Z' {
        ((c as u32) + 32) as char
    } else {
        c
    }
}

/// `str::eq_ignore_ascii_case`.
pub open spec fn eq_ic(a: Seq<char>, b: Seq<char>) -> bool {
    a.len() == b.len() && forall|i: int| 0 <= i < a.len() ==> ascii_lower(#[trigger] a[i]) == ascii_lower(b[i])
}

/// The characters other than the space, in order.
pub open spec fn no_spaces(s: Seq<char>) -> Seq<char> {
    s.filter(|c: char| c != ' ')
}

/// What `str::to_lowercase` returns (full Unicode case mapping).
pub uninterp spec fn lowercase_text(s: Seq<char>) -> Seq<char>;

/// What `str::to_uppercase` returns (full Unicode case mapping).
pub uninterp spec fn uppercase_text(s: Seq<char>) -> Seq<char>;

/// `str::trim`: drops the leading and trailing characters that have the
/// Unicode `White_Space` property.
#[verifier::external_body]
pub(crate) fn trim(s: &str) -> (r: &str)
    ensures
        r@ == trim_spec(s@),
{
    s.trim()
}

/// `str::eq_ignore_ascii_case`: equal lengths and equal characters once
/// ASCII letters are lowered.
#[verifier::external_body]
pub(crate) fn eq_ignore_ascii_case(a: &str, b: &str) -> (r: bool)
    ensures
        r == eq_ic(a@, b@),
{
    a.eq_ignore_ascii_case(b)
}

/// `str::replace(' ', "")`: the characters other than the space, in order.
#[verifier::external_body]
pub(crate) fn remove_spaces(s: &str) -> (r: String)
    ensures
        r@ == no_spaces(s@),
{
    s.replace(' ', "")
}

/// `str::to_lowercase`; the result is named `lowercase_text`.
#[verifier::external_body]
pub(crate) fn to_lowercase(s: &str) -> (r: String)
    ensures
        r@ == lowercase_text(s@),
{
    s.to_lowercase()
}

/// `str::to_uppercase`; the result is named `uppercase_text`.
#[verifier::external_body]
pub(crate) fn to_uppercase(s: &str) -> (r: String)
    ensures
        r@ == uppercase_text(s@),
{
    s.to_uppercase()
}

/// `s` begins with `p`.
pub open spec fn starts_with(s: Seq<char>, p: Seq<char>) -> bool {
    p.len() <= s.len() && s.subrange(0, p.len() as int) == p
}

/// A copy of an optional string.
pub fn clone_opt(s: &Option<String>) -> (r: Option<String>)
    ensures
        r == *s,
{
    match s {
        Some(t) => Some(t.clone()),
        None => None,
    }
}

/// The concatenation of two strings.
pub fn concat(a: &str, b: &str) -> (r: String)
    ensures
        r@ == a@ + b@,
        starts_with(r@, a@),
{
    let r = String::from_str(a).concat(b);
    proof {
        assert(r@.subrange(0, a@.len() as int) =~= a@);
    }
    r
}

/// The decimal digit character of `d < 10`.
pub open spec fn digit_char(d: nat) -> char {
    (('0' as u32) + d) as char
}

/// The decimal digits of `n` without leading zeros ("0" for zero).
pub open spec fn nat_digits(n: nat) -> Seq<char>
    decreases n,
{
    if n < 10 {
        seq![digit_char(n)]
    } else {
        nat_digits(n / 10).push(digit_char(n % 10))
    }
}

/// `Display` of an integer: a minus sign for negative values, then the digits.
pub open spec fn int_digits(n: int) -> Seq<char> {
    if n < 0 {
        seq!['-'] + nat_digits((-n) as nat)
    } else {
        nat_digits(n as nat)
    }
}

/// `{:0w$}` of a non-negative integer: the digits, padded with leading
/// zeros up to `w` characters.
pub open spec fn zero_padded(n: nat, w: nat) -> Seq<char> {
    let d = nat_digits(n);
    Seq::new((if w > d.len() { w - d.len() } else { 0 }) as nat, |i: int| '0') + d
}

/// The number a sequence of decimal digit characters spells.
pub open spec fn digits_value(s: Seq<char>) -> int
    decreases s.len(),
{
    if s.len() == 0 {
        0
    } else {
        digits_value(s.drop_last()) * 10 + ((s.last() as u32) - ('0' as u32))
    }
}

/// The digits of `n` spell `n`.
pub proof fn lemma_nat_digits_value(n: nat)
    ensures
        digits_value(nat_digits(n)) == n,
    decreases n,
{
    if n < 10 {
        let d = nat_digits(n);
        assert(d == seq![digit_char(n)]);
        assert(d.drop_last() =~= Seq::<char>::empty());
        assert(digit_char(n) as u32 == ('0' as u32) + n);
        assert(digits_value(d) == digits_value(d.drop_last()) * 10 + n);
    } else {
        lemma_nat_digits_value(n / 10);
        let d = nat_digits(n);
        assert(d.drop_last() =~= nat_digits(n / 10));
        assert(d.last() == digit_char(n % 10));
        assert(digit_char(n % 10) as u32 == ('0' as u32) + n % 10);
        vstd::arithmetic::div_mod::lemma_fundamental_div_mod(n as int, 10);
        assert(digits_value(d) == digits_value(d.drop_last()) * 10 + (n % 10));
    }
}

/// Leading zeros do not change the number a text of digits spells.
pub proof fn lemma_leading_zeros_value(k: nat, s: Seq<char>)
    ensures
        digits_value(Seq::new(k, |i: int| '0') + s) == digits_value(s),
    decreases s.len(), k,
{
    let z = Seq::new(k, |i: int| '0');
    if s.len() == 0 {
        assert(z + s =~= z);
        if k > 0 {
            let z1 = Seq::new((k - 1) as nat, |i: int| '0');
            assert(z.drop_last() =~= z1);
            lemma_leading_zeros_value((k - 1) as nat, s);
            assert(z1 + s =~= z1);
        }
    } else {
        lemma_leading_zeros_value(k, s.drop_last());
        assert((z + s).drop_last() =~= z + s.drop_last());
        assert((z + s).last() == s.last());
    }
}

/// Zero-padding to the same width keeps distinct numbers distinct.
pub proof fn lemma_zero_padded_injective(a: nat, b: nat, w: nat)
    requires
        zero_padded(a, w) == zero_padded(b, w),
    ensures
        a == b,
{
    let da = nat_digits(a);
    let db = nat_digits(b);
    lemma_leading_zeros_value((if w > da.len() { w - da.len() } else { 0 }) as nat, da);
    lemma_leading_zeros_value((if w > db.len() { w - db.len() } else { 0 }) as nat, db);
    lemma_nat_digits_value(a);
    lemma_nat_digits_value(b);
}

fn digit_str(d: u64) -> (r: &'static str)
    requires
        d < 10,
    ensures
        r@ == seq![digit_char(d as nat)],
{
    match d {
        0 => {
            proof { reveal_strlit("0"); }
            "0"
        },
        1 => {
            proof { reveal_strlit("1"); }
            "1"
        },
        2 => {
            proof { reveal_strlit("2"); }
            "2"
        },
        3 => {
            proof { reveal_strlit("3"); }
            "3"
        },
        4 => {
            proof { reveal_strlit("4"); }
            "4"
        },
        5 => {
            proof { reveal_strlit("5"); }
            "5"
        },
        6 => {
            proof { reveal_strlit("6"); }
            "6"
        },
        7 => {
            proof { reveal_strlit("7"); }
            "7"
        },
        8 => {
            proof { reveal_strlit("8"); }
            "8"
        },
        _ => {
            proof { reveal_strlit("9"); }
            "9"
        },
    }
}

/// The digits of `n`, or nothing for zero.
spec fn lead_digits(n: nat) -> Seq<char> {
    if n == 0 {
        Seq::<char>::empty()
    } else {
        nat_digits(n)
    }
}

proof fn lemma_nat_digits_split(n: nat)
    ensures
        nat_digits(n) =~= lead_digits(n / 10).push(digit_char(n % 10)),
{
}

/// The decimal digits of `n`.
pub fn nat_text(n: u64) -> (r: String)
    ensures
        r@ == nat_digits(n as nat),
{
    let mut rest: u64 = n / 10;
    let mut out = String::from_str(digit_str(n % 10));
    proof {
        lemma_nat_digits_split(n as nat);
        assert(nat_digits(n as nat) =~= lead_digits(rest as nat) + out@);
    }
    while rest > 0
        invariant
            rest <= n,
            nat_digits(n as nat) =~= lead_digits(rest as nat) + out@,
        decreases rest,
    {
        let d = rest % 10;
        let prefix = digit_str(d);
        proof {
            lemma_nat_digits_split(rest as nat);
        }
        let ghost old_out = out@;
        out = concat(prefix, out.as_str());
        proof {
            assert(lead_digits(rest as nat) =~= lead_digits((rest / 10) as nat).push(digit_char(d as nat)));
            assert(lead_digits(rest as nat) + old_out =~= lead_digits((rest / 10) as nat) + out@);
        }
        rest = rest / 10;
    }
    proof {
        assert(lead_digits(0) + out@ =~= out@);
    }
    out
}

/// `Display` of an integer.
pub fn int_text(n: i64) -> (r: String)
    ensures
        r@ == int_digits(n as int),
{
    if n < 0 {
        let mag: u64 = if n == i64::MIN { 9223372036854775808u64 } else { (-n) as u64 };
        let digits = nat_text(mag);
        proof { reveal_strlit("-"); }
        concat("-", digits.as_str())
    } else {
        nat_text(n as u64)
    }
}

/// `{:0w$}` of `n`.
pub fn padded_text(n: u64, w: usize) -> (r: String)
    ensures
        r@ == zero_padded(n as nat, w as nat),
{
    let digits = nat_text(n);
    let len = digits.as_str().unicode_len();
    let mut out = String::from_str(digits.as_str());
    let mut pad: usize = 0;
    let ghost d = nat_digits(n as nat);
    let need: usize = if w > len { w - len } else { 0 };
    while pad < need
        invariant
            pad <= need,
            len == d.len(),
            d == nat_digits(n as nat),
            need == (if w > len { w - len } else { 0 }),
            out@ =~= Seq::new(pad as nat, |i: int| '0') + d,
        decreases need - pad,
    {
        proof { reveal_strlit("0"); }
        out = concat("0", out.as_str());
        pad = pad + 1;
    }
    out
}

} // verus!
