//! Text operations that the templater needs, stated over character sequences.

use vstd::prelude::*;

verus! {

/// The upper-case form of an ASCII lower-case letter; any other character is itself.
pub open spec fn ascii_upper(c: char) -> char {
    if 'a' <= c && c <= 'z' {
        ((c as u8 - 32) as u8) as char
    } else {
        c
    }
}

/// The lower-case form of an ASCII upper-case letter; any other character is itself.
pub open spec fn ascii_lower(c: char) -> char {
    if 'A' <= c && c <= 'Z' {
        ((c as u8 + 32) as u8) as char
    } else {
        c
    }
}

/// A text with each character replaced by its ASCII upper-case form.
pub open spec fn upper_of(s: Seq<char>) -> Seq<char> {
    s.map_values(|c: char| ascii_upper(c))
}

/// A text with each character replaced by its ASCII lower-case form.
pub open spec fn lower_of(s: Seq<char>) -> Seq<char> {
    s.map_values(|c: char| ascii_lower(c))
}

/// `str::to_ascii_uppercase` maps the letters 'a' to 'z' to 'A' to 'Z' and
/// leaves every other character, ASCII or not, as it is.
pub assume_specification[ str::to_ascii_uppercase ](s: &str) -> (r: String)
    ensures
        r@ == upper_of(s@),
;

/// `str::to_ascii_lowercase` maps the letters 'A' to 'Z' to 'a' to 'z' and
/// leaves every other character, ASCII or not, as it is.
pub assume_specification[ str::to_ascii_lowercase ](s: &str) -> (r: String)
    ensures
        r@ == lower_of(s@),
;

/// `==` on string slices: true exactly when both hold the same characters.
#[verifier::external_body]
pub(crate) fn str_eq(a: &str, b: &str) -> (r: bool)
    ensures
        r == (a@ == b@),
{
    a == b
}

/// A text that ends with a line feed unless it is empty.
pub open spec fn completed(s: Seq<char>) -> Seq<char> {
    if s.len() == 0 || s.last() == '\n' {
        s
    } else {
        s.push('\n')
    }
}

/// Ends a non-empty text with a line feed if it has none; the empty text stays empty.
pub fn complete_newline(text: &str) -> (r: String)
    ensures
        r@ == completed(text@),
{
    let n = text.unicode_len();
    let owned = text.to_owned();
    if n > 0 && text.get_char(n - 1) != '\n' {
        proof {
            reveal_strlit("\n");
        }
        let r = owned.concat("\n");
        assert(r@ =~= text@.push('\n'));
        r
    } else {
        owned
    }
}

/// The texts of `parts` in order, with `separator` between neighbours.
pub open spec fn joined(parts: Seq<Seq<char>>, separator: Seq<char>) -> Seq<char>
    decreases parts.len(),
{
    if parts.len() == 0 {
        Seq::empty()
    } else if parts.len() == 1 {
        parts[0]
    } else {
        joined(parts.drop_last(), separator) + separator + parts.last()
    }
}

/// The character sequences of a list of strings.
pub open spec fn texts_of(parts: Seq<String>) -> Seq<Seq<char>> {
    parts.map_values(|s: String| s@)
}

/// Joins strings with a separator between neighbours.
pub fn join(parts: &Vec<String>, separator: &str) -> (r: String)
    ensures
        r@ == joined(texts_of(parts@), separator@),
{
    let mut out = String::new();
    let mut i: usize = 0;
    while i < parts.len()
        invariant
            i <= parts.len(),
            out@ == joined(texts_of(parts@).take(i as int), separator@),
        decreases parts.len() - i,
    {
        let ghost before = texts_of(parts@).take(i as int);
        let ghost after = texts_of(parts@).take(i + 1);
        assert(after.drop_last() =~= before);
        assert(after.last() == parts@[i as int]@);
        if i > 0 {
            out.append(separator);
        }
        out.append(parts[i].as_str());
        assert(out@ =~= joined(after, separator@));
        i += 1;
    }
    assert(texts_of(parts@).take(parts.len() as int) =~= texts_of(parts@));
    out
}

} // verus!
