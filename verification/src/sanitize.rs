//! Turning free-form metadata strings into filesystem-safe path segments.
//!
//! Each character that path syntax reserves is replaced with a visually
//! similar Unicode substitute, so an artist or album name can be used as a
//! directory name without colliding with the path separator or shell
//! wildcards.  The mapping is fixed and documented on [`sanitize_char`]; it
//! is deterministic, total, and leaves every other character untouched.

use vstd::prelude::*;

verus! {

/// A character the filesystem or shell gives a meaning to, which therefore
/// may not appear in a path segment.
pub open spec fn is_reserved_char(c: char) -> bool {
    c == '/' || c == '>' || c == '<' || c == '"' || c == '\\' || c == '|' || c == '?' || c == '*'
        || c == ':'
}

/// The replacement for one character.  Reserved characters map to look-alike
/// code points, everything else maps to itself:
/// `/` to U+2044 fraction slash, `>` to U+FF1E, `<` to U+FF1C, `\` to
/// U+FF3C, `|` to U+FF5C, `?` to U+FF1F, `*` to U+FF0A (the fullwidth
/// forms), `:` to U+A789 modifier letter colon, and `"` to the plain
/// apostrophe `'`.
pub open spec fn sanitize_char(c: char) -> char {
    if c == '/' {
        '\u{2044}'
    } else if c == '>' {
        '\u{FF1E}'
    } else if c == '<' {
        '\u{FF1C}'
    } else if c == '"' {
        '\''
    } else if c == '\\' {
        '\u{FF3C}'
    } else if c == '|' {
        '\u{FF5C}'
    } else if c == '?' {
        '\u{FF1F}'
    } else if c == '*' {
        '\u{FF0A}'
    } else if c == ':' {
        '\u{A789}'
    } else {
        c
    }
}

/// A string sanitized character by character.
pub open spec fn sanitize_spec(s: Seq<char>) -> Seq<char> {
    s.map_values(|c: char| sanitize_char(c))
}

/// Replaces every reserved character of `input` with its substitute, as
/// [`sanitize_char`] describes.
pub fn change_forbidden_chars(input: &str) -> (r: String)
    ensures
        r@ == sanitize_spec(input@),
{
    let len = input.unicode_len();
    let mut output = String::new();
    let mut i: usize = 0;
    while i < len
        invariant
            i <= len,
            len == input@.len(),
            output@ == sanitize_spec(input@.take(i as int)),
        decreases len - i,
    {
        let c = input.get_char(i);
        let rc = match c {
            '/' => '\u{2044}',
            '>' => '\u{FF1E}',
            '<' => '\u{FF1C}',
            '"' => '\'',
            '\\' => '\u{FF3C}',
            '|' => '\u{FF5C}',
            '?' => '\u{FF1F}',
            '*' => '\u{FF0A}',
            ':' => '\u{A789}',
            _ => c,
        };
        assert(rc == sanitize_char(c));
        crate::text::push_char(&mut output, rc);
        proof {
            assert(sanitize_spec(input@.take(i + 1)) =~= sanitize_spec(
                input@.take(i as int),
            ).push(sanitize_char(input@[i as int])));
        }
        i += 1;
    }
    proof {
        assert(input@.take(len as int) =~= input@);
    }
    output
}

/// No character a sanitized string holds is reserved.
pub proof fn lemma_sanitize_free_of_reserved(s: Seq<char>)
    ensures
        forall|i: int|
            0 <= i < sanitize_spec(s).len() ==> !is_reserved_char(#[trigger] sanitize_spec(s)[i]),
{
}

/// A string already free of reserved characters sanitizes to itself.
pub proof fn lemma_sanitize_identity(s: Seq<char>)
    requires
        forall|i: int| 0 <= i < s.len() ==> !is_reserved_char(#[trigger] s[i]),
    ensures
        sanitize_spec(s) == s,
{
    assert(sanitize_spec(s) =~= s);
}

/// Law: sanitizing is idempotent.  Sanitizing a second time changes nothing,
/// because the first pass leaves no reserved character behind.
pub proof fn lemma_sanitize_idempotent(s: Seq<char>)
    ensures
        sanitize_spec(sanitize_spec(s)) == sanitize_spec(s),
{
    lemma_sanitize_free_of_reserved(s);
    lemma_sanitize_identity(sanitize_spec(s));
}

} // verus!
