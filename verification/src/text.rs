//! Small verified building blocks for working with strings: appending a
//! character, equality, substring search, ASCII lowercasing, file-name
//! extensions and membership in a list of strings.

use vstd::prelude::*;

verus! {

/// Relies on `String::push`, which appends the given character to the end of
/// the string.
#[verifier::external_body]
pub(crate) fn push_char(s: &mut String, c: char)
    ensures
        final(s)@ == old(s)@.push(c),
{
    s.push(c);
}

/// The views of a sequence of strings, element by element.
pub open spec fn strings_view(v: Seq<String>) -> Seq<Seq<char>> {
    v.map_values(|s: String| s@)
}

/// Character-for-character string equality.
pub fn str_eq(a: &str, b: &str) -> (r: bool)
    ensures
        r == (a@ == b@),
{
    let a_len = a.unicode_len();
    let b_len = b.unicode_len();
    if a_len != b_len {
        return false;
    }
    let mut i: usize = 0;
    while i < a_len
        invariant
            i <= a_len,
            a_len == a@.len(),
            a_len == b@.len(),
            forall|k: int| 0 <= k < i ==> a@[k] == b@[k],
        decreases a_len - i,
    {
        if a.get_char(i) != b.get_char(i) {
            return false;
        }
        i += 1;
    }
    proof {
        assert(a@ =~= b@);
    }
    true
}

/// `needle` occurs in `hay` starting at position `i`.
pub open spec fn contains_at(hay: Seq<char>, needle: Seq<char>, i: int) -> bool {
    0 <= i && i + needle.len() <= hay.len() && hay.subrange(i, i + needle.len() as int) == needle
}

/// `needle` occurs somewhere in `hay` (an empty needle always does).
pub open spec fn contains_seq(hay: Seq<char>, needle: Seq<char>) -> bool {
    exists|i: int| contains_at(hay, needle, i)
}

/// Substring search: does `hay` contain `needle`, case-sensitively?
pub fn str_contains(hay: &str, needle: &str) -> (r: bool)
    ensures
        r == contains_seq(hay@, needle@),
{
    let hay_len = hay.unicode_len();
    let needle_len = needle.unicode_len();
    if needle_len > hay_len {
        return false;
    }
    let mut i: usize = 0;
    while i <= hay_len - needle_len
        invariant
            needle_len <= hay_len,
            hay_len == hay@.len(),
            needle_len == needle@.len(),
            i <= hay_len - needle_len + 1,
            forall|k: int| 0 <= k < i ==> !contains_at(hay@, needle@, k),
        decreases hay_len - i,
    {
        let mut j: usize = 0;
        let mut is_match = true;
        while is_match && j < needle_len
            invariant
                j <= needle_len,
                i + needle_len <= hay_len,
                hay_len == hay@.len(),
                needle_len == needle@.len(),
                is_match ==> forall|k: int| 0 <= k < j ==> hay@[i + k] == needle@[k],
                !is_match ==> exists|k: int|
                    0 <= k < needle@.len() && hay@[i + k] != needle@[k],
            decreases needle_len - j, (if is_match { 1int } else { 0int }),
        {
            if hay.get_char(i + j) != needle.get_char(j) {
                is_match = false;
            } else {
                j += 1;
            }
        }
        if is_match {
            proof {
                assert(hay@.subrange(i as int, i + needle@.len() as int) =~= needle@);
                assert(contains_at(hay@, needle@, i as int));
            }
            return true;
        }
        proof {
            if contains_at(hay@, needle@, i as int) {
                let k = choose|k: int| 0 <= k < needle@.len() && hay@[i + k] != needle@[k];
                assert(hay@.subrange(i as int, i + needle@.len() as int)[k] == hay@[i + k]);
            }
        }
        i += 1;
    }
    proof {
        if contains_seq(hay@, needle@) {
            let k = choose|k: int| contains_at(hay@, needle@, k);
            assert(k < i);
        }
    }
    false
}

/// The names among `content` that contain `q` as a substring, in their
/// original order.
pub open spec fn matching_names(content: Seq<String>, q: Seq<char>) -> Seq<String>
    decreases content.len(),
{
    if content.len() == 0 {
        Seq::empty()
    } else {
        let rest = matching_names(content.drop_last(), q);
        if contains_seq(content.last()@, q) {
            rest.push(content.last())
        } else {
            rest
        }
    }
}

/// Keeps the strings that contain `query` as a substring, preserving order.
pub fn search(query: &str, content: Vec<String>) -> (r: Vec<String>)
    ensures
        r@ == matching_names(content@, query@),
{
    let mut results: Vec<String> = Vec::new();
    let mut i: usize = 0;
    while i < content.len()
        invariant
            i <= content@.len(),
            results@ == matching_names(content@.take(i as int), query@),
        decreases content@.len() - i,
    {
        proof {
            assert(content@.take(i + 1).drop_last() =~= content@.take(i as int));
            assert(content@.take(i + 1).last() == content@[i as int]);
        }
        if str_contains(content[i].as_str(), query) {
            results.push(content[i].clone());
        }
        i += 1;
    }
    proof {
        assert(content@.take(content@.len() as int) =~= content@);
    }
    results
}

/// Some string in `list` has exactly the characters `x`.
pub open spec fn contains_string(list: Seq<String>, x: Seq<char>) -> bool {
    exists|i: int| 0 <= i < list.len() && list[i]@ == x
}

/// Membership of `x` in a list of strings, by character comparison.
pub fn list_contains_str(list: &Vec<String>, x: &str) -> (r: bool)
    ensures
        r == contains_string(list@, x@),
{
    let mut i: usize = 0;
    while i < list.len()
        invariant
            i <= list@.len(),
            forall|k: int| 0 <= k < i ==> list@[k]@ != x@,
        decreases list@.len() - i,
    {
        if str_eq(list[i].as_str(), x) {
            return true;
        }
        i += 1;
    }
    false
}

/// The ASCII lowercase counterpart of a character; everything but `A`..`Z`
/// is left unchanged.
pub open spec fn lower_char(c: char) -> char {
    if 'A' <= c && c <= 'Z' {
        ((c as u32) + 32) as char
    } else {
        c
    }
}

/// A string with every ASCII letter lowercased.
pub open spec fn lower_spec(s: Seq<char>) -> Seq<char> {
    s.map_values(|c: char| lower_char(c))
}

/// Lowercases the ASCII letters of `s` and leaves all other characters alone.
pub fn ascii_lowercase(s: &str) -> (r: String)
    ensures
        r@ == lower_spec(s@),
{
    let len = s.unicode_len();
    let mut out = String::new();
    let mut i: usize = 0;
    while i < len
        invariant
            i <= len,
            len == s@.len(),
            out@ == lower_spec(s@.take(i as int)),
        decreases len - i,
    {
        let c = s.get_char(i);
        let lc = match c {
            'A' => 'a',
            'B' => 'b',
            'C' => 'c',
            'D' => 'd',
            'E' => 'e',
            'F' => 'f',
            'G' => 'g',
            'H' => 'h',
            'I' => 'i',
            'J' => 'j',
            'K' => 'k',
            'L' => 'l',
            'M' => 'm',
            'N' => 'n',
            'O' => 'o',
            'P' => 'p',
            'Q' => 'q',
            'R' => 'r',
            'S' => 's',
            'T' => 't',
            'U' => 'u',
            'V' => 'v',
            'W' => 'w',
            'X' => 'x',
            'Y' => 'y',
            'Z' => 'z',
            _ => c,
        };
        assert(lc == lower_char(c));
        push_char(&mut out, lc);
        proof {
            assert(lower_spec(s@.take(i + 1)) =~= lower_spec(s@.take(i as int)).push(
                lower_char(s@[i as int]),
            ));
        }
        i += 1;
    }
    proof {
        assert(s@.take(len as int) =~= s@);
    }
    out
}

/// There is a dot at position `i` of `name`, after the first character, with
/// no later dot: the extension starts right after it.
pub open spec fn dot_at(name: Seq<char>, i: int) -> bool {
    1 <= i < name.len() && name[i] == '.' && (forall|j: int|
        i < j < name.len() ==> name[j] != '.')
}

/// The extension of a file name: the portion after the last dot, or none if
/// there is no dot after the first character (a name such as `.config` has
/// no extension).
pub open spec fn extension_spec(name: Seq<char>) -> Option<Seq<char>> {
    if exists|i: int| dot_at(name, i) {
        let i = choose|i: int| dot_at(name, i);
        Some(name.subrange(i + 1, name.len() as int))
    } else {
        None
    }
}

/// Splits the extension off a file name, if it has one.
pub fn extension_of(name: &str) -> (r: Option<String>)
    ensures
        r matches Some(e) ==> extension_spec(name@) == Some(e@),
        r is None ==> extension_spec(name@) is None,
{
    let len = name.unicode_len();
    let mut k: usize = len;
    while k > 1
        invariant
            k <= len,
            len == name@.len(),
            forall|j: int| k <= j < len ==> name@[j] != '.',
        decreases k,
    {
        k -= 1;
        if name.get_char(k) == '.' {
            proof {
                assert(dot_at(name@, k as int));
                let i = choose|i: int| dot_at(name@, i);
                assert(i == k as int) by {
                    if i < k as int {
                        assert(name@[k as int] != '.');
                    }
                    if i > k as int {
                        assert(name@[i] != '.');
                    }
                }
            }
            let ext = name.substring_char(k + 1, len);
            return Some(ext.to_owned());
        }
    }
    proof {
        if exists|i: int| dot_at(name@, i) {
            let i = choose|i: int| dot_at(name@, i);
            assert(name@[i] != '.');
        }
    }
    None
}

} // verus!
