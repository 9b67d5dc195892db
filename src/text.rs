//! Text primitives: decimal rendering (verified), shell quoting through
//! shell-escape and regular-expression capture through regex.
use vstd::prelude::*;

verus! {

pub open spec fn digit_char(d: nat) -> char {
    (('0' as nat) + d) as char
}

/// Decimal digits of `n`, most significant first, without leading zeros.
pub open spec fn nat_digits(n: nat) -> Seq<char>
    decreases n,
{
    if n < 10 {
        seq![digit_char(n)]
    } else {
        nat_digits(n / 10).push(digit_char(n % 10))
    }
}

/// Decimal text of an integer, with a leading `-` when negative.
pub open spec fn decimal_of(n: int) -> Seq<char> {
    if n < 0 {
        seq!['-'] + nat_digits((-n) as nat)
    } else {
        nat_digits(n as nat)
    }
}

fn digit_text(d: u64) -> (r: &'static str)
    requires
        d < 10,
    ensures
        r@ == seq![digit_char(d as nat)],
{
    proof {
        reveal_strlit("0");
        reveal_strlit("1");
        reveal_strlit("2");
        reveal_strlit("3");
        reveal_strlit("4");
        reveal_strlit("5");
        reveal_strlit("6");
        reveal_strlit("7");
        reveal_strlit("8");
        reveal_strlit("9");
    }
    let r = if d == 0 {
        "0"
    } else if d == 1 {
        "1"
    } else if d == 2 {
        "2"
    } else if d == 3 {
        "3"
    } else if d == 4 {
        "4"
    } else if d == 5 {
        "5"
    } else if d == 6 {
        "6"
    } else if d == 7 {
        "7"
    } else if d == 8 {
        "8"
    } else {
        "9"
    };
    assert(r@ =~= seq![digit_char(d as nat)]);
    r
}

/// Decimal digits of `n`.
pub fn natural_text(n: u64) -> (r: String)
    ensures
        r@ == nat_digits(n as nat),
    decreases n,
{
    if n < 10 {
        String::from_str(digit_text(n))
    } else {
        let mut s = natural_text(n / 10);
        s.append(digit_text(n % 10));
        assert(s@ =~= nat_digits(n as nat));
        s
    }
}

/// Decimal text of `n`, with a leading `-` when negative.
pub fn decimal_text(n: i64) -> (r: String)
    ensures
        r@ == decimal_of(n as int),
{
    if n < 0 {
        proof {
            reveal_strlit("-");
        }
        let mut s = String::from_str("-");
        let m: u64 = (-(n as i128)) as u64;
        let t = natural_text(m);
        s.append(t.as_str());
        assert(s@ =~= decimal_of(n as int));
        s
    } else {
        natural_text(n as u64)
    }
}

/// Characters that `shell_escape::unix::escape` leaves as they are.
pub open spec fn shell_safe(c: char) -> bool {
    ('a' <= c <= 'z') || ('A' <= c <= 'Z') || ('0' <= c <= '9') || c == '-' || c == '_' || c == '='
        || c == '/' || c == ',' || c == '.' || c == '+'
}

/// Body of a single-quoted word: `'` and `!` are each closed out of the quotes.
pub open spec fn quoted_body(s: Seq<char>) -> Seq<char>
    decreases s.len(),
{
    if s.len() == 0 {
        Seq::empty()
    } else if s.last() == '\'' || s.last() == '!' {
        quoted_body(s.drop_last()) + seq!['\'', '\\', s.last(), '\'']
    } else {
        quoted_body(s.drop_last()).push(s.last())
    }
}

/// A word the shell reads back as `s`: kept when non-empty and made of safe
/// characters only, otherwise single-quoted.
pub open spec fn shell_word(s: Seq<char>) -> Seq<char> {
    if s.len() > 0 && forall|i: int| 0 <= i < s.len() ==> shell_safe(#[trigger] s[i]) {
        s
    } else {
        seq!['\''] + quoted_body(s) + seq!['\'']
    }
}

/// Relies on `shell_escape::unix::escape`, which returns its input when it is
/// non-empty and whitelisted, and otherwise quotes it as `shell_word` states.
#[verifier::external_body]
pub(crate) fn shell_quote(arg: &String) -> (r: String)
    ensures
        r@ == shell_word(arg@),
{
    shell_escape::unix::escape(std::borrow::Cow::Borrowed(arg.as_str())).into_owned()
}

/// Group 1 of the leftmost match of regular expression `pattern` in
/// `haystack`; `None` when the pattern does not compile, nothing matches, or
/// the group took no part in the match.
pub uninterp spec fn regex_group1(pattern: Seq<char>, haystack: Seq<char>) -> Option<Seq<char>>;

/// Relies on `regex::Regex::new` and `Regex::captures`: the text of capture
/// group 1 of the leftmost match.
#[verifier::external_body]
pub(crate) fn capture_group1(pattern: &str, haystack: &str) -> (r: Option<String>)
    ensures
        r matches Some(s) ==> regex_group1(pattern@, haystack@) == Some(s@),
        r is None ==> regex_group1(pattern@, haystack@) is None,
{
    match regex::Regex::new(pattern) {
        Ok(re) => re.captures(haystack).and_then(|c| c.get(1)).map(|g| g.as_str().to_string()),
        Err(_) => None,
    }
}

} // verus!
