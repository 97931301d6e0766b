use vstd::prelude::*;

verus! {

/// The lowercase hexadecimal digit of `d`, which is below 16.
pub open spec fn hex_digit(d: u32) -> char {
    seq!['0', '1', '2', '3', '4', '5', '6', '7', '8', '9', 'a', 'b', 'c', 'd', 'e', 'f'][d as int]
}

/// How one character stands inside a JSON string literal as serde_json
/// writes it: the quote and the backslash are escaped, the control
/// characters below U+0020 get their short escape or `\u00xx`, and every
/// other character stands for itself.
pub open spec fn json_escape(c: char) -> Seq<char> {
    if c == '"' {
        seq!['\\', '"']
    } else if c == '\\' {
        seq!['\\', '\\']
    } else if c == '\x08' {
        seq!['\\', 'b']
    } else if c == '\t' {
        seq!['\\', 't']
    } else if c == '\n' {
        seq!['\\', 'n']
    } else if c == '\x0c' {
        seq!['\\', 'f']
    } else if c == '\r' {
        seq!['\\', 'r']
    } else if (c as u32) < 0x20 {
        seq!['\\', 'u', '0', '0', hex_digit(c as u32 / 16), hex_digit(c as u32 % 16)]
    } else {
        seq![c]
    }
}

/// The characters of `s`, each escaped.
pub open spec fn json_escaped(s: Seq<char>) -> Seq<char>
    decreases s.len(),
{
    if s.len() == 0 {
        Seq::empty()
    } else {
        json_escaped(s.drop_last()) + json_escape(s.last())
    }
}

/// The JSON string literal that serde_json writes for the text `s`: its
/// escaped characters between two quotes.
pub open spec fn json_quoted(s: Seq<char>) -> Seq<char> {
    seq!['"'] + json_escaped(s) + seq!['"']
}

/// The text that serde_json reads out of the JSON document `t` when it
/// expects a single string, or `None` when `t` is no such document.
pub uninterp spec fn json_string_value(t: Seq<char>) -> Option<Seq<char>>;

/// Relies on `serde_json::to_string` applied to a `str`: it writes the text as
/// one JSON string literal, escaping by its table `ESCAPE` and
/// `write_char_escape`. For a `str` the only error path is an I/O error of
/// the in-memory `Vec<u8>` writer, which never fails, so the default is never
/// taken.
#[verifier::external_body]
pub(crate) fn quote(s: &str) -> (r: String)
    ensures
        r@ == json_quoted(s@),
{
    serde_json::to_string(s).unwrap_or_default()
}

/// Relies on `serde_json::from_str::<String>`: it reads one JSON string
/// literal (surrounding whitespace allowed) and gives back its text; in
/// particular it reads back exactly the text that `serde_json::to_string`
/// quoted.
#[verifier::external_body]
pub(crate) fn unquote(t: &str) -> (r: Option<String>)
    ensures
        r is Some <==> json_string_value(t@) is Some,
        r is Some ==> json_string_value(t@) == Some(r->0@),
        forall|s: Seq<char>| #[trigger] json_quoted(s) == t@ ==> (r is Some && r->0@ == s),
{
    serde_json::from_str::<String>(t).ok()
}

} // verus!
