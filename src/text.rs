//! Small verified text routines: decimal numbers, splitting at a colon,
//! comparing and rewriting strings.
use vstd::prelude::*;

verus! {

pub open spec fn is_digit(c: char) -> bool {
    '0' <= c && c <= '9'
}

pub open spec fn digit_value(c: char) -> int {
    (c as int) - ('0' as int)
}

pub open spec fn all_digits(s: Seq<char>) -> bool {
    forall|i: int| 0 <= i < s.len() ==> is_digit(#[trigger] s[i])
}

/// Value of a string of decimal digits, most significant first.
pub open spec fn digits_value(s: Seq<char>) -> int
    decreases s.len(),
{
    if s.len() == 0 {
        0
    } else {
        digits_value(s.drop_last()) * 10 + digit_value(s.last())
    }
}

/// The digits of a decimal number, after an optional leading `+`.
pub open spec fn unsigned_body(s: Seq<char>) -> Seq<char> {
    if s.len() > 0 && s[0] == '+' {
        s.drop_first()
    } else {
        s
    }
}

/// The `u32` that `s` writes in decimal: an optional `+`, then at least one
/// digit, with a value that fits in 32 bits.
pub open spec fn decimal_u32(s: Seq<char>) -> Option<u32> {
    let body = unsigned_body(s);
    if body.len() > 0 && all_digits(body) && digits_value(body) <= u32::MAX {
        Some(digits_value(body) as u32)
    } else {
        None
    }
}

proof fn lemma_digits_value_nonneg(s: Seq<char>)
    requires
        all_digits(s),
    ensures
        digits_value(s) >= 0,
    decreases s.len(),
{
    if s.len() > 0 {
        lemma_digits_value_nonneg(s.drop_last());
    }
}

/// Reads a `u32` written in decimal, as `str::parse::<u32>` does.
pub fn parse_u32(s: &str) -> (r: Option<u32>)
    ensures
        r == decimal_u32(s@),
{
    let n = s.unicode_len();
    let mut start: usize = 0;
    if n > 0 && s.get_char(0) == '+' {
        start = 1;
    }
    let ghost body = unsigned_body(s@);
    assert(body =~= s@.subrange(start as int, n as int));
    if start == n {
        return None;
    }
    let limit: u64 = 0x1_0000_0000;
    let mut acc: u64 = 0;
    let mut i: usize = start;
    while i < n
        invariant
            start <= i <= n,
            n == s@.len(),
            body =~= s@.subrange(start as int, n as int),
            body == unsigned_body(s@),
            limit == 0x1_0000_0000,
            all_digits(s@.subrange(start as int, i as int)),
            acc <= limit,
            acc == limit ==> digits_value(s@.subrange(start as int, i as int)) >= limit,
            acc < limit ==> acc == digits_value(s@.subrange(start as int, i as int)),
        decreases n - i,
    {
        let c = s.get_char(i);
        if !('0' <= c && c <= '9') {
            assert(body[i - start] == c);
            assert(!all_digits(body));
            return None;
        }
        let ghost prev = s@.subrange(start as int, i as int);
        let ghost next = s@.subrange(start as int, i + 1);
        assert(next.drop_last() =~= prev);
        assert(next.last() == c);
        proof {
            lemma_digits_value_nonneg(prev);
        }
        let d = (c as u32 - '0' as u32) as u64;
        if acc == limit {
            assert(digits_value(next) >= limit) by (nonlinear_arith)
                requires
                    digits_value(next) == digits_value(prev) * 10 + d,
                    digits_value(prev) >= limit,
                    d >= 0,
            ;
        } else {
            assert(acc * 10 + d < 0x1_0000_0000 * 10 + 10) by (nonlinear_arith)
                requires
                    acc < 0x1_0000_0000,
                    d <= 9,
            ;
            acc = acc * 10 + d;
            if acc >= limit {
                acc = limit;
            }
        }
        i = i + 1;
    }
    assert(s@.subrange(start as int, n as int) =~= body);
    if acc < limit {
        Some(acc as u32)
    } else {
        None
    }
}

/// `i` is the position of the first `:` of `s`.
pub open spec fn is_first_colon(s: Seq<char>, i: int) -> bool {
    &&& 0 <= i < s.len()
    &&& s[i] == ':'
    &&& forall|j: int| 0 <= j < i ==> s[j] != ':'
}

/// The parts of `s` before and after its first `:`, as `str::split_once`
/// gives them.
pub open spec fn split_once_colon(s: Seq<char>) -> Option<(Seq<char>, Seq<char>)> {
    if exists|i: int| is_first_colon(s, i) {
        let i = choose|i: int| is_first_colon(s, i);
        Some((s.subrange(0, i), s.subrange(i + 1, s.len() as int)))
    } else {
        None
    }
}

proof fn lemma_first_colon_unique(s: Seq<char>, i: int, k: int)
    requires
        is_first_colon(s, i),
        is_first_colon(s, k),
    ensures
        i == k,
{
    if i < k {
        assert(s[i] != ':');
    } else if k < i {
        assert(s[k] != ':');
    }
}

/// Splits `s` at its first `:`.
pub fn split_at_colon<'a>(s: &'a str) -> (r: Option<(&'a str, &'a str)>)
    ensures
        r is None ==> split_once_colon(s@) is None,
        r matches Some((a, b)) ==> split_once_colon(s@) == Some((a@, b@)),
{
    let n = s.unicode_len();
    let mut i: usize = 0;
    while i < n
        invariant
            i <= n,
            n == s@.len(),
            forall|j: int| 0 <= j < i ==> s@[j] != ':',
        decreases n - i,
    {
        if s.get_char(i) == ':' {
            assert(is_first_colon(s@, i as int));
            proof {
                let k = choose|k: int| is_first_colon(s@, k);
                lemma_first_colon_unique(s@, i as int, k);
            }
            return Some((s.substring_char(0, i), s.substring_char(i + 1, n)));
        }
        i = i + 1;
    }
    assert(!exists|k: int| is_first_colon(s@, k));
    None
}

/// Whether two strings hold the same characters.
pub fn str_eq(a: &str, b: &str) -> (r: bool)
    ensures
        r == (a@ == b@),
{
    let n = a.unicode_len();
    if n != b.unicode_len() {
        return false;
    }
    let mut i: usize = 0;
    while i < n
        invariant
            i <= n,
            n == a@.len(),
            n == b@.len(),
            forall|j: int| 0 <= j < i ==> a@[j] == b@[j],
        decreases n - i,
    {
        if a.get_char(i) != b.get_char(i) {
            return false;
        }
        i = i + 1;
    }
    assert(a@ =~= b@);
    true
}

/// `s` with each `c` turned into a space.
pub open spec fn spaced(s: Seq<char>, c: char) -> Seq<char> {
    Seq::new(s.len(), |i: int| if s[i] == c { ' ' } else { s[i] })
}

/// Replaces each `c` of `s` by a space.
pub fn replace_with_space(s: &str, c: char) -> (r: String)
    ensures
        r@ == spaced(s@, c),
{
    let n = s.unicode_len();
    let mut out = String::new();
    let mut i: usize = 0;
    while i < n
        invariant
            i <= n,
            n == s@.len(),
            out@ =~= spaced(s@, c).subrange(0, i as int),
        decreases n - i,
    {
        if s.get_char(i) == c {
            proof {
                reveal_strlit(" ");
            }
            out.append(" ");
        } else {
            out.append(s.substring_char(i, i + 1));
        }
        i = i + 1;
    }
    out
}


/// What std's `char::to_uppercase` gives for `c`: one or more characters.
pub uninterp spec fn uppercase_of(c: char) -> Seq<char>;

/// Relies on `char::to_uppercase`, collected into a string: the upper case
/// of one character, which depends on that character alone.
#[verifier::external_body]
fn char_uppercase(c: char) -> (r: String)
    ensures
        r@ == uppercase_of(c),
{
    c.to_uppercase().collect()
}

/// `s` with its first character in upper case.
pub open spec fn capitalized(s: Seq<char>) -> Seq<char> {
    if s.len() == 0 {
        s
    } else {
        uppercase_of(s[0]) + s.drop_first()
    }
}

/// `s` with its first character replaced by `first_upper`, the upper case
/// of that character.
pub fn capitalize_with(first_upper: &str, s: &str) -> (r: String)
    requires
        s@.len() > 0,
    ensures
        r@ == first_upper@ + s@.drop_first(),
{
    let n = s.unicode_len();
    let mut r = String::from_str(first_upper);
    r.append(s.substring_char(1, n));
    assert(s@.subrange(1, n as int) =~= s@.drop_first());
    r
}

/// Puts the first character of `s` in upper case.
pub fn capitalize(s: &str) -> (r: String)
    ensures
        r@ == capitalized(s@),
{
    if s.unicode_len() == 0 {
        return String::new();
    }
    let upper = char_uppercase(s.get_char(0));
    capitalize_with(upper.as_str(), s)
}

/// An error code of a provider as a sentence: capitalized, with spaces for
/// underscores.
pub open spec fn prettified(error: Seq<char>) -> Seq<char> {
    spaced(capitalized(error), '_')
}

/// Writes an error code of a provider as a sentence.
pub fn prettify_error(error: &str) -> (r: String)
    ensures
        r@ == prettified(error@),
{
    let c = capitalize(error);
    replace_with_space(c.as_str(), '_')
}

/// What the `regex` crate gives when every match of `pattern` in `text` is
/// replaced by `replacement`, with its `$n` groups expanded.
pub uninterp spec fn regex_replaced(pattern: Seq<char>, text: Seq<char>, replacement: Seq<char>) -> Seq<char>;

/// Relies on `regex::Regex::new` and `Regex::replace_all`: `None` where the
/// pattern does not compile, else the replaced text, which depends on the
/// three strings alone.
#[verifier::external_body]
fn regex_replace_all(pattern: &str, text: &str, replacement: &str) -> (r: Option<String>)
    ensures
        r matches Some(s) ==> s@ == regex_replaced(pattern@, text@, replacement@),
{
    let re = regex::Regex::new(pattern).ok()?;
    Some(re.replace_all(text, replacement).to_string())
}

pub open spec fn link_pattern() -> Seq<char> {
    "\\[([^\\]]+)\\]\\(([^)]+)\\)"@
}

pub open spec fn bold_pattern() -> Seq<char> {
    "\\*\\*(.*?)\\*\\*"@
}

pub open spec fn italic_pattern() -> Seq<char> {
    "\\*(.*?)\\*"@
}

pub open spec fn code_pattern() -> Seq<char> {
    "`(.*?)`"@
}

/// The HTML of the small markdown subset that catchphrases use: links, then
/// bold, italic and code spans, each rewritten over the previous result.
pub open spec fn markdown_html(content: Seq<char>) -> Seq<char> {
    let linked = regex_replaced(link_pattern(), content, "<a href=\"$2\">$1</a>"@);
    let bold = regex_replaced(bold_pattern(), linked, "<b>$1</b>"@);
    let italic = regex_replaced(italic_pattern(), bold, "<i>$1</i>"@);
    regex_replaced(code_pattern(), italic, "<code>$1</code>"@)
}

/// Renders links, bold, italic and code spans of `content` as HTML; `None`
/// where a pattern does not compile.
pub fn markdown_to_html(content: &str) -> (r: Option<String>)
    ensures
        r matches Some(s) ==> s@ == markdown_html(content@),
{
    let linked = regex_replace_all("\\[([^\\]]+)\\]\\(([^)]+)\\)", content, "<a href=\"$2\">$1</a>")?;
    let bold = regex_replace_all("\\*\\*(.*?)\\*\\*", linked.as_str(), "<b>$1</b>")?;
    let italic = regex_replace_all("\\*(.*?)\\*", bold.as_str(), "<i>$1</i>")?;
    regex_replace_all("`(.*?)`", italic.as_str(), "<code>$1</code>")
}

} // verus!
