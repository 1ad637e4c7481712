//! File paths typed by the user.

use crate::text::text_contains;
use vstd::prelude::*;

verus! {

/// `text` with each pair of backslashes, taken from left to right without
/// overlap, written as one `/` (the first `str::replace` of
/// [`normalize_path`]).
pub open spec fn collapse_double_backslashes(text: Seq<char>) -> Seq<char>
    decreases text.len(),
{
    if text.len() == 0 {
        seq![]
    } else if text.len() >= 2 && text[0] == '\\' && text[1] == '\\' {
        seq!['/'] + collapse_double_backslashes(text.skip(2))
    } else {
        seq![text[0]] + collapse_double_backslashes(text.skip(1))
    }
}

/// `text` with each backslash written as `/`.
pub open spec fn forward_slashes(text: Seq<char>) -> Seq<char> {
    text.map_values(|c: char| if c == '\\' { '/' } else { c })
}

/// The path with Windows separators written as `/`: a doubled backslash, as
/// in an escaped path, becomes one slash, and so does each backslash left.
pub open spec fn normalized_path(path: Seq<char>) -> Seq<char> {
    forward_slashes(collapse_double_backslashes(path))
}

/// Writes the path with `/` for Windows separators: `path.replace("\\\\", "/")`
/// followed by `.replace("\\", "/")`.
pub fn normalize_path(path: &str) -> (r: String)
    ensures
        r@ == normalized_path(path@),
{
    proof {
        reveal_strlit("/");
    }
    let n = path.unicode_len();
    let mut r = String::new();
    let mut i: usize = 0;
    assert(path@.skip(0) == path@);
    assert(r@ + normalized_path(path@) == normalized_path(path@));
    while i < n
        invariant
            n == path@.len(),
            i <= n,
            normalized_path(path@) == r@ + forward_slashes(
                collapse_double_backslashes(path@.skip(i as int)),
            ),
            "/"@ == seq!['/'],
        decreases n - i,
    {
        let c = path.get_char(i);
        let ghost rest = path@.skip(i as int);
        assert(rest[0] == c);
        if c == '\\' && i + 1 < n && path.get_char(i + 1) == '\\' {
            assert(rest[1] == '\\');
            assert(rest.skip(2) == path@.skip(i + 2));
            assert(forward_slashes(seq!['/'] + collapse_double_backslashes(rest.skip(2)))
                == seq!['/'] + forward_slashes(collapse_double_backslashes(rest.skip(2))));
            r.append("/");
            i = i + 2;
        } else {
            assert(!(rest.len() >= 2 && rest[0] == '\\' && rest[1] == '\\'));
            assert(rest.skip(1) == path@.skip(i + 1));
            let one = if c == '\\' {
                "/"
            } else {
                path.substring_char(i, i + 1)
            };
            assert(one@ == seq![if c == '\\' { '/' } else { c }]);
            assert(forward_slashes(seq![c] + collapse_double_backslashes(rest.skip(1)))
                == seq![if c == '\\' { '/' } else { c }] + forward_slashes(
                collapse_double_backslashes(rest.skip(1)),
            ));
            r.append(one);
            i = i + 1;
        }
    }
    assert(path@.skip(n as int).len() == 0);
    r
}

/// Reading `path` back from its end, where `seg` holds the characters
/// already read of the segment in hand: the last `/`-separated segment that
/// is neither empty nor `.`, if there is one.
pub open spec fn last_named_segment(path: Seq<char>, seg: Seq<char>) -> Option<Seq<char>>
    decreases path.len(),
{
    if path.len() == 0 {
        if seg.len() > 0 && seg != seq!['.'] {
            Some(seg)
        } else {
            None
        }
    } else if path.last() == '/' {
        if seg.len() > 0 && seg != seq!['.'] {
            Some(seg)
        } else {
            last_named_segment(path.drop_last(), seq![])
        }
    } else {
        last_named_segment(path.drop_last(), seq![path.last()] + seg)
    }
}

/// A path that reads alike under every platform's path syntax: it holds no
/// `:` and no backslash and does not start with `//`, so it has no prefix and
/// `/` is its only separator.
pub open spec fn plain_path(path: Seq<char>) -> bool {
    !path.contains(':') && !path.contains('\\') && !(path.len() >= 2 && path[0] == '/' && path[1]
        == '/')
}

/// The file name of a plain path: its last segment other than an empty one
/// or `.`, unless that segment is `..` or there is none.
pub open spec fn plain_file_name(path: Seq<char>) -> Option<Seq<char>> {
    match last_named_segment(path, seq![]) {
        Some(seg) => if seg == seq!['.', '.'] {
            None
        } else {
            Some(seg)
        },
        None => None,
    }
}

/// An optional text, taken by its view.
pub open spec fn text_option(t: Option<String>) -> Option<Seq<char>> {
    match t {
        Some(s) => Some(s@),
        None => None,
    }
}

/// `Path::new(path).file_name()` as owned text. Which component std takes
/// for the file name depends on the platform's path syntax; what holds on
/// every platform is stated: a file name is a non-empty run of the path's
/// characters without a `/`, and for a plain path (see [`plain_path`]) the
/// file name is exactly [`plain_file_name`].
#[verifier::external_body]
pub(crate) fn file_name(path: &str) -> (r: Option<String>)
    ensures
        r matches Some(name) ==> name@.len() > 0 && text_contains(path@, name@) && !name@.contains(
            '/',
        ),
        plain_path(path@) ==> text_option(r) == plain_file_name(path@),
{
    std::path::Path::new(path).file_name().and_then(|name| name.to_str()).map(String::from)
}

} // verus!

verus! {

proof fn lemma_collapse_without_backslash(text: Seq<char>)
    requires
        !text.contains('\\'),
    ensures
        collapse_double_backslashes(text) == text,
    decreases text.len(),
{
    if text.len() > 0 {
        assert(text[0] != '\\');
        assert(!text.skip(1).contains('\\')) by {
            if text.skip(1).contains('\\') {
                let k = choose|k: int| 0 <= k < text.skip(1).len() && text.skip(1)[k] == '\\';
                assert(text[k + 1] == '\\');
            }
        }
        lemma_collapse_without_backslash(text.skip(1));
        assert(seq![text[0]] + text.skip(1) == text);
    }
}

/// A normalized path holds no backslash, so normalizing it again changes
/// nothing.
pub proof fn law_normalize_path_is_idempotent(path: Seq<char>)
    ensures
        !normalized_path(path).contains('\\'),
        normalized_path(normalized_path(path)) == normalized_path(path),
{
    let once = normalized_path(path);
    assert(!once.contains('\\')) by {
        if once.contains('\\') {
            let k = choose|k: int| 0 <= k < once.len() && once[k] == '\\';
            assert(once[k] == (if collapse_double_backslashes(path)[k] == '\\' {
                '/'
            } else {
                collapse_double_backslashes(path)[k]
            }));
        }
    }
    lemma_collapse_without_backslash(once);
    assert(forward_slashes(once) =~= once);
}

} // verus!
