//! Character classes and low-level text scanning shared by every parser in
//! the crate: whitespace-and-comment skipping, token-end scanning and exact
//! string matching, each paired with the spec function that defines it.

use vstd::prelude::*;
use vstd::string::*;

verus! {

/// Relies on String::push: appending one character to the end of a string.
pub assume_specification[ std::string::String::push ](s: &mut String, ch: char)
    ensures
        final(s)@ == old(s)@.push(ch),
;

pub open spec fn is_ws_char(c: char) -> bool {
    c == ' ' || c == '\t' || c == '\n' || c == '\r'
}

pub open spec fn is_dec_digit(c: char) -> bool {
    48 <= c as u32 <= 57
}

pub open spec fn is_hex_digit(c: char) -> bool {
    is_dec_digit(c) || (97 <= c as u32 <= 102) || (65 <= c as u32 <= 70)
}

pub open spec fn is_ascii_letter(c: char) -> bool {
    (65 <= c as u32 <= 90) || (97 <= c as u32 <= 122)
}

pub open spec fn is_alnum_char(c: char) -> bool {
    is_ascii_letter(c) || is_dec_digit(c)
}

/// Characters a mnemonic token is made of, e.g. `add-int/2addr`.
pub open spec fn is_mnemonic_char(c: char) -> bool {
    is_alnum_char(c) || c == '-' || c == '/'
}

/// Characters allowed in a label name after the leading `:`.
pub open spec fn is_label_char(c: char) -> bool {
    is_alnum_char(c) || c == '_' || c == '$'
}

/// Characters allowed in a field or method identifier.
pub open spec fn is_ident_char(c: char) -> bool {
    is_alnum_char(c) || c == '_' || c == '$' || c == '-'
}

pub fn ws_char(c: char) -> (r: bool)
    ensures
        r == is_ws_char(c),
{
    c == ' ' || c == '\t' || c == '\n' || c == '\r'
}

pub fn dec_digit(c: char) -> (r: bool)
    ensures
        r == is_dec_digit(c),
{
    let u = c as u32;
    48 <= u && u <= 57
}

pub fn hex_digit(c: char) -> (r: bool)
    ensures
        r == is_hex_digit(c),
{
    let u = c as u32;
    (48 <= u && u <= 57) || (97 <= u && u <= 102) || (65 <= u && u <= 70)
}

pub fn alnum_char(c: char) -> (r: bool)
    ensures
        r == is_alnum_char(c),
{
    let u = c as u32;
    (65 <= u && u <= 90) || (97 <= u && u <= 122) || (48 <= u && u <= 57)
}

pub fn mnemonic_char(c: char) -> (r: bool)
    ensures
        r == is_mnemonic_char(c),
{
    alnum_char(c) || c == '-' || c == '/'
}

pub fn label_char(c: char) -> (r: bool)
    ensures
        r == is_label_char(c),
{
    alnum_char(c) || c == '_' || c == '$'
}

pub fn ident_char(c: char) -> (r: bool)
    ensures
        r == is_ident_char(c),
{
    alnum_char(c) || c == '_' || c == '$' || c == '-'
}

/// Position after skipping whitespace and `#`-to-end-of-line comments from `i`.
pub open spec fn spec_skip_ws(s: Seq<char>, i: int) -> int
    decreases s.len() - i, 0int,
{
    if i < 0 || i >= s.len() {
        i
    } else if is_ws_char(s[i]) {
        spec_skip_ws(s, i + 1)
    } else if s[i] == '#' {
        spec_skip_comment(s, i + 1)
    } else {
        i
    }
}

/// Position after skipping the rest of a comment line and what follows it.
pub open spec fn spec_skip_comment(s: Seq<char>, i: int) -> int
    decreases s.len() - i, 1int,
{
    if i < 0 || i >= s.len() {
        i
    } else if s[i] == '\n' {
        spec_skip_ws(s, i + 1)
    } else {
        spec_skip_comment(s, i + 1)
    }
}

pub proof fn lemma_skip_ws_range(s: Seq<char>, i: int)
    requires
        0 <= i <= s.len(),
    ensures
        i <= spec_skip_ws(s, i) <= s.len(),
        i <= spec_skip_comment(s, i) <= s.len(),
    decreases s.len() - i,
{
    if i < s.len() {
        lemma_skip_ws_range(s, i + 1);
    }
}

pub fn skip_ws(s: &str, i: usize) -> (j: usize)
    requires
        i <= s@.len(),
    ensures
        j == spec_skip_ws(s@, i as int),
        i <= j <= s@.len(),
    decreases s@.len() - i, 0int,
{
    proof {
        lemma_skip_ws_range(s@, i as int);
    }
    if i >= s.unicode_len() {
        i
    } else {
        let c = s.get_char(i);
        if ws_char(c) {
            skip_ws(s, i + 1)
        } else if c == '#' {
            skip_comment(s, i + 1)
        } else {
            i
        }
    }
}

pub fn skip_comment(s: &str, i: usize) -> (j: usize)
    requires
        i <= s@.len(),
    ensures
        j == spec_skip_comment(s@, i as int),
        i <= j <= s@.len(),
    decreases s@.len() - i, 1int,
{
    proof {
        lemma_skip_ws_range(s@, i as int);
    }
    if i >= s.unicode_len() {
        i
    } else if s.get_char(i) == '\n' {
        skip_ws(s, i + 1)
    } else {
        skip_comment(s, i + 1)
    }
}

/// End of the run of decimal digits starting at `i`.
pub open spec fn spec_dec_end(s: Seq<char>, i: int) -> int
    decreases s.len() - i,
{
    if 0 <= i < s.len() && is_dec_digit(s[i]) {
        spec_dec_end(s, i + 1)
    } else {
        i
    }
}

pub fn dec_end(s: &str, i: usize) -> (j: usize)
    requires
        i <= s@.len(),
    ensures
        j == spec_dec_end(s@, i as int),
        i <= j <= s@.len(),
    decreases s@.len() - i,
{
    if i < s.unicode_len() && dec_digit(s.get_char(i)) {
        dec_end(s, i + 1)
    } else {
        i
    }
}

/// End of the run of hexadecimal digits starting at `i`.
pub open spec fn spec_hex_end(s: Seq<char>, i: int) -> int
    decreases s.len() - i,
{
    if 0 <= i < s.len() && is_hex_digit(s[i]) {
        spec_hex_end(s, i + 1)
    } else {
        i
    }
}

pub fn hex_end(s: &str, i: usize) -> (j: usize)
    requires
        i <= s@.len(),
    ensures
        j == spec_hex_end(s@, i as int),
        i <= j <= s@.len(),
    decreases s@.len() - i,
{
    if i < s.unicode_len() && hex_digit(s.get_char(i)) {
        hex_end(s, i + 1)
    } else {
        i
    }
}

/// End of the run of mnemonic characters starting at `i`.
pub open spec fn spec_mnemonic_end(s: Seq<char>, i: int) -> int
    decreases s.len() - i,
{
    if 0 <= i < s.len() && is_mnemonic_char(s[i]) {
        spec_mnemonic_end(s, i + 1)
    } else {
        i
    }
}

pub fn mnemonic_end(s: &str, i: usize) -> (j: usize)
    requires
        i <= s@.len(),
    ensures
        j == spec_mnemonic_end(s@, i as int),
        i <= j <= s@.len(),
    decreases s@.len() - i,
{
    if i < s.unicode_len() && mnemonic_char(s.get_char(i)) {
        mnemonic_end(s, i + 1)
    } else {
        i
    }
}

/// End of the run of label characters starting at `i`.
pub open spec fn spec_label_end(s: Seq<char>, i: int) -> int
    decreases s.len() - i,
{
    if 0 <= i < s.len() && is_label_char(s[i]) {
        spec_label_end(s, i + 1)
    } else {
        i
    }
}

pub fn label_end(s: &str, i: usize) -> (j: usize)
    requires
        i <= s@.len(),
    ensures
        j == spec_label_end(s@, i as int),
        i <= j <= s@.len(),
    decreases s@.len() - i,
{
    if i < s.unicode_len() && label_char(s.get_char(i)) {
        label_end(s, i + 1)
    } else {
        i
    }
}

/// End of the run of alphanumeric characters starting at `i`.
pub open spec fn spec_alnum_end(s: Seq<char>, i: int) -> int
    decreases s.len() - i,
{
    if 0 <= i < s.len() && is_alnum_char(s[i]) {
        spec_alnum_end(s, i + 1)
    } else {
        i
    }
}

pub fn alnum_end(s: &str, i: usize) -> (j: usize)
    requires
        i <= s@.len(),
    ensures
        j == spec_alnum_end(s@, i as int),
        i <= j <= s@.len(),
    decreases s@.len() - i,
{
    if i < s.unicode_len() && alnum_char(s.get_char(i)) {
        alnum_end(s, i + 1)
    } else {
        i
    }
}

/// End of the run of identifier characters starting at `i`.
pub open spec fn spec_ident_end(s: Seq<char>, i: int) -> int
    decreases s.len() - i,
{
    if 0 <= i < s.len() && is_ident_char(s[i]) {
        spec_ident_end(s, i + 1)
    } else {
        i
    }
}

pub fn ident_end(s: &str, i: usize) -> (j: usize)
    requires
        i <= s@.len(),
    ensures
        j == spec_ident_end(s@, i as int),
        i <= j <= s@.len(),
    decreases s@.len() - i,
{
    if i < s.unicode_len() && ident_char(s.get_char(i)) {
        ident_end(s, i + 1)
    } else {
        i
    }
}

/// First position at or after `i` holding `c`, or the end of `s`.
pub open spec fn spec_until_char(s: Seq<char>, i: int, c: char) -> int
    decreases s.len() - i,
{
    if 0 <= i < s.len() && s[i] != c {
        spec_until_char(s, i + 1, c)
    } else {
        i
    }
}

pub fn until_char(s: &str, i: usize, c: char) -> (j: usize)
    requires
        i <= s@.len(),
    ensures
        j == spec_until_char(s@, i as int, c),
        i <= j <= s@.len(),
        j < s@.len() ==> s@[j as int] == c,
    decreases s@.len() - i,
{
    if i < s.unicode_len() && s.get_char(i) != c {
        until_char(s, i + 1, c)
    } else {
        i
    }
}

/// First position at or after `i` holding `;` or `<`, or the end of `s`:
/// the end of a class name.
pub open spec fn spec_cname_end(s: Seq<char>, i: int) -> int
    decreases s.len() - i,
{
    if 0 <= i < s.len() && s[i] != ';' && s[i] != '<' {
        spec_cname_end(s, i + 1)
    } else {
        i
    }
}

pub fn cname_end(s: &str, i: usize) -> (j: usize)
    requires
        i <= s@.len(),
    ensures
        j == spec_cname_end(s@, i as int),
        i <= j <= s@.len(),
    decreases s@.len() - i,
{
    if i < s.unicode_len() && s.get_char(i) != ';' && s.get_char(i) != '<' {
        cname_end(s, i + 1)
    } else {
        i
    }
}

/// Characters that may follow a backslash inside a quoted string.
pub open spec fn is_escape_char(c: char) -> bool {
    c == '\'' || c == '"' || c == 't' || c == 'b' || c == 'n' || c == 'r' || c == 'f'
        || c == 'u' || c == '\\'
}

pub fn escape_char(c: char) -> (r: bool)
    ensures
        r == is_escape_char(c),
{
    c == '\'' || c == '"' || c == 't' || c == 'b' || c == 'n' || c == 'r' || c == 'f'
        || c == 'u' || c == '\\'
}

/// Position of the closing quote of a string body that starts at `i` (just
/// after the opening quote). Escape pairs are kept as written; a lone
/// backslash or a missing closing quote fails.
pub open spec fn spec_string_body_end(s: Seq<char>, i: int) -> Option<int>
    decreases s.len() - i,
{
    if i < 0 || i >= s.len() {
        None
    } else if s[i] == '"' {
        Some(i)
    } else if s[i] == '\\' {
        if i + 1 < s.len() && is_escape_char(s[i + 1]) {
            spec_string_body_end(s, i + 2)
        } else {
            None
        }
    } else {
        spec_string_body_end(s, i + 1)
    }
}

pub proof fn lemma_string_body_end_range(s: Seq<char>, i: int)
    requires
        0 <= i <= s.len(),
    ensures
        match spec_string_body_end(s, i) {
            Some(e) => i <= e < s.len(),
            None => true,
        },
    decreases s.len() - i,
{
    if i < s.len() {
        if s[i] == '\\' {
            if i + 1 < s.len() && is_escape_char(s[i + 1]) {
                lemma_string_body_end_range(s, i + 2);
            }
        } else if s[i] != '"' {
            lemma_string_body_end_range(s, i + 1);
        }
    }
}

fn string_body_end(s: &str, i: usize) -> (r: Option<usize>)
    requires
        i <= s@.len(),
    ensures
        match spec_string_body_end(s@, i as int) {
            Some(e) => r == Some(e as usize) && i <= e < s@.len(),
            None => r is None,
        },
    decreases s@.len() - i,
{
    proof {
        lemma_string_body_end_range(s@, i as int);
    }
    if i >= s.unicode_len() {
        None
    } else {
        let c = s.get_char(i);
        if c == '"' {
            Some(i)
        } else if c == '\\' {
            if i + 1 < s.unicode_len() && escape_char(s.get_char(i + 1)) {
                string_body_end(s, i + 2)
            } else {
                None
            }
        } else {
            string_body_end(s, i + 1)
        }
    }
}

/// The quoted-string grammar at `i`, after leading whitespace: the body text
/// with escape pairs kept as written, and the position after the closing
/// quote.
pub open spec fn spec_parse_string_lit(s: Seq<char>, i: int) -> Option<(Seq<char>, int)> {
    let i0 = spec_skip_ws(s, i);
    if i0 < s.len() && s[i0] == '"' {
        match spec_string_body_end(s, i0 + 1) {
            Some(e) => Some((s.subrange(i0 + 1, e), e + 1)),
            None => None,
        }
    } else {
        None
    }
}

/// Parse a quoted string literal, which may be empty. The returned text is
/// the body between the quotes, with escape pairs kept as written.
pub fn parse_string_lit(s: &str, i: usize) -> (r: Option<(String, usize)>)
    requires
        i <= s@.len(),
    ensures
        match spec_parse_string_lit(s@, i as int) {
            Some((body, j)) => r matches Some(p) && p.0@ == body && p.1 == j && i <= j
                <= s@.len(),
            None => r is None,
        },
{
    let i0 = skip_ws(s, i);
    if i0 < s.unicode_len() && s.get_char(i0) == '"' {
        match string_body_end(s, i0 + 1) {
            Some(e) => {
                let body = s.substring_char(i0 + 1, e).to_owned();
                Some((body, e + 1))
            },
            None => None,
        }
    } else {
        None
    }
}

/// Whether the text at position `i` of `s` starts with `t`.
pub open spec fn spec_match_at(s: Seq<char>, i: int, t: Seq<char>) -> bool {
    0 <= i && i + t.len() <= s.len() && s.subrange(i, i + t.len()) =~= t
}

pub fn str_eq(a: &str, b: &str) -> (r: bool)
    ensures
        r == (a@ =~= b@),
{
    let na = a.unicode_len();
    if na != b.unicode_len() {
        return false;
    }
    let mut k: usize = 0;
    while k < na
        invariant
            k <= na,
            na == a@.len(),
            na == b@.len(),
            forall|m: int| 0 <= m < k ==> a@[m] == b@[m],
        decreases na - k,
    {
        if a.get_char(k) != b.get_char(k) {
            return false;
        }
        k += 1;
    }
    true
}

/// If `s` starts with `lit` at `i`, the position just after it.
pub fn match_lit(s: &str, i: usize, lit: &str) -> (r: Option<usize>)
    requires
        i <= s@.len(),
    ensures
        spec_match_at(s@, i as int, lit@) ==> r == Some((i + lit@.len()) as usize),
        !spec_match_at(s@, i as int, lit@) ==> r is None,
        r is Some ==> i <= r->0 <= s@.len() && r->0 == i + lit@.len(),
    decreases lit@.len(),
{
    let n = lit.unicode_len();
    let sl = s.unicode_len();
    if n > sl - i {
        assert(!spec_match_at(s@, i as int, lit@));
        return None;
    }
    let mut k: usize = 0;
    while k < n
        invariant
            k <= n,
            n == lit@.len(),
            sl == s@.len(),
            i + n <= sl,
            forall|m: int| 0 <= m < k ==> s@[i + m] == lit@[m],
        decreases n - k,
    {
        if s.get_char(i + k) != lit.get_char(k) {
            assert(s@.subrange(i as int, i + lit@.len()) != lit@) by {
                assert(s@.subrange(i as int, i + lit@.len())[k as int] != lit@[k as int]);
            }
            return None;
        }
        k += 1;
    }
    assert(s@.subrange(i as int, i + lit@.len()) =~= lit@);
    Some(i + n)
}

} // verus!
