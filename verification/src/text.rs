use vstd::prelude::*;
use vstd::string::StrSliceExecFns;
use vstd::utf8::is_ascii_chars;

verus! {

/// The character of a decimal digit.
pub open spec fn digit_char(d: nat) -> char {
    ((48 + d) as u32) as char
}

/// The decimal text of a number, without sign or leading zeros.
pub open spec fn decimal_text(n: nat) -> Seq<char>
    decreases n,
{
    if n < 10 {
        seq![digit_char(n)]
    } else {
        decimal_text(n / 10).push(digit_char(n % 10))
    }
}

/// Whether two texts hold the same characters.
pub fn text_eq(a: &str, b: &str) -> (r: bool)
    ensures
        r == (a@ == b@),
{
    let n = a.unicode_len();
    let m = b.unicode_len();
    if n != m {
        return false;
    }
    let mut i: usize = 0;
    while i < n
        invariant
            n == a@.len(),
            m == b@.len(),
            n == m,
            i <= n,
            forall|j: int| 0 <= j < i ==> a@[j] == b@[j],
        decreases n - i,
    {
        if a.get_char(i) != b.get_char(i) {
            return false;
        }
        i = i + 1;
    }
    assert(a@ =~= b@);
    true
}

/// The rest of `text` after `prefix`, when `text` begins with it.
pub fn strip_prefix<'a>(text: &'a str, prefix: &str) -> (r: Option<&'a str>)
    ensures
        r matches Some(rest) ==> prefix@.is_prefix_of(text@) && rest@ == text@.skip(prefix@.len() as int),
        r is None ==> !prefix@.is_prefix_of(text@),
{
    let n = prefix.unicode_len();
    let m = text.unicode_len();
    if n > m {
        return None;
    }
    let mut i: usize = 0;
    while i < n
        invariant
            n == prefix@.len(),
            m == text@.len(),
            n <= m,
            i <= n,
            forall|j: int| 0 <= j < i ==> prefix@[j] == text@[j],
        decreases n - i,
    {
        if prefix.get_char(i) != text.get_char(i) {
            assert(prefix@[i as int] != text@.subrange(0, n as int)[i as int]);
            return None;
        }
        i = i + 1;
    }
    assert(prefix@ =~= text@.subrange(0, n as int));
    let rest = text.substring_char(n, m);
    assert(rest@ =~= text@.skip(n as int));
    Some(rest)
}

/// `u32::to_string`: the decimal text of the number, as std's `Display`
/// writes integers.
#[verifier::external_body]
pub fn u32_text(n: u32) -> (s: String)
    ensures
        s@ == decimal_text(n as nat),
{
    n.to_string()
}

/// The decimal text of a number is plain ASCII, at least one character
/// long, and, for a positive number, no longer than the number itself.
pub proof fn lemma_decimal_text_shape(n: nat)
    ensures
        is_ascii_chars(decimal_text(n)),
        decimal_text(n).len() >= 1,
        n >= 1 ==> decimal_text(n).len() <= n,
    decreases n,
{
    if n >= 10 {
        lemma_decimal_text_shape(n / 10);
        let s = decimal_text(n);
        assert(s == decimal_text(n / 10).push(digit_char(n % 10)));
        assert forall|i: int| 0 <= i < s.len() implies '\0' <= #[trigger] s[i] <= '\u{7f}' by {
            if i < s.len() - 1 {
                assert(s[i] == decimal_text(n / 10)[i]);
            }
        }
    }
}

} // verus!
