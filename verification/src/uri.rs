//! Rendering a canonical path as a `file://` URI.
//!
//! On POSIX-like platforms a canonical path already starts with `/`, so the
//! URI is the scheme followed by the path unchanged.  On Windows-like
//! platforms a canonical path starts with a drive letter and uses `\` as its
//! separator, so an extra `/` is inserted after the scheme and every `\` is
//! replaced by `/`.  The platform is an explicit flag so that both branches
//! are a single verified function, testable on any host.

use vstd::prelude::*;

verus! {

/// The characters of the `file://` scheme prefix.
pub open spec fn scheme_chars() -> Seq<char> {
    seq!['f', 'i', 'l', 'e', ':', '/', '/']
}

/// `\` becomes `/`; every other character is kept.
pub open spec fn to_uri_separator(c: char) -> char {
    if c == '\\' {
        '/'
    } else {
        c
    }
}

/// `/` becomes `\`; every other character is kept.  Inverse of
/// [`to_uri_separator`] on characters that are not `/`.
pub open spec fn to_native_separator(c: char) -> char {
    if c == '/' {
        '\\'
    } else {
        c
    }
}

/// The path with every backslash replaced by a forward slash.
pub open spec fn uri_separators(path: Seq<char>) -> Seq<char> {
    path.map_values(|c: char| to_uri_separator(c))
}

/// The `file://` URI for a canonical path, by the platform's rule.
pub open spec fn uri_chars(path: Seq<char>, windows: bool) -> Seq<char> {
    if windows {
        scheme_chars() + seq!['/'] + uri_separators(path)
    } else {
        scheme_chars() + path
    }
}

/// The path formatted as requested: the URI when `as_uri` holds, otherwise
/// the path itself.
pub open spec fn formatted_chars(path: Seq<char>, as_uri: bool, windows: bool) -> Seq<char> {
    if as_uri {
        uri_chars(path, windows)
    } else {
        path
    }
}

/// What stripping a URI back to a path means: drop the scheme (and on
/// Windows the extra slash), and on Windows turn the separators back.
pub open spec fn stripped_chars(uri: Seq<char>, windows: bool) -> Seq<char> {
    if windows {
        uri.skip(8).map_values(|c: char| to_native_separator(c))
    } else {
        uri.skip(7)
    }
}

/// Render `path` as a `file://` URI.
pub fn as_uri(path: &str, windows: bool) -> (uri: String)
    ensures
        uri@ == uri_chars(path@, windows),
{
    let mut uri = String::from_str("file://");
    proof {
        reveal_strlit("file://");
        assert(uri@ =~= scheme_chars());
    }
    if windows {
        uri.append("/");
        proof {
            reveal_strlit("/");
            assert(uri@ =~= scheme_chars() + seq!['/']);
        }
        let n = path.unicode_len();
        let mut i: usize = 0;
        while i < n
            invariant
                n == path@.len(),
                i <= n,
                uri@ == scheme_chars() + seq!['/'] + uri_separators(path@.take(i as int)),
            decreases n - i,
        {
            let c = path.get_char(i);
            if c == '\\' {
                uri.append("/");
                proof {
                    reveal_strlit("/");
                }
            } else {
                let piece = path.substring_char(i, i + 1);
                uri.append(piece);
            }
            proof {
                assert(path@.take(i + 1).drop_last() =~= path@.take(i as int));
                assert(uri_separators(path@.take(i + 1)) =~= uri_separators(path@.take(i as int)).push(
                    to_uri_separator(path@[i as int]),
                ));
                assert(uri@ =~= scheme_chars() + seq!['/'] + uri_separators(path@.take(i + 1)));
            }
            i = i + 1;
        }
        proof {
            assert(path@.take(n as int) =~= path@);
        }
    } else {
        uri.append(path);
    }
    uri
}

/// The path formatted as requested: unchanged when `as_uri` is false, the
/// `file://` URI otherwise.
pub fn format_path(path: &str, as_uri: bool, windows: bool) -> (s: String)
    ensures
        s@ == formatted_chars(path@, as_uri, windows),
        !as_uri ==> s@ == path@,
{
    if as_uri {
        self::as_uri(path, windows)
    } else {
        String::from_str(path)
    }
}

/// A formatted URI always begins with the `file://` scheme, and on
/// POSIX-like platforms it is exactly the scheme followed by the path.
pub proof fn lemma_uri_scheme_prefix(path: Seq<char>, windows: bool)
    ensures
        uri_chars(path, windows).len() >= scheme_chars().len(),
        uri_chars(path, windows).take(scheme_chars().len() as int) == scheme_chars(),
        !windows ==> uri_chars(path, false) == scheme_chars() + path,
{
    assert(uri_chars(path, windows).take(scheme_chars().len() as int) =~= scheme_chars());
}

/// Formatting depends on the canonical path and the two flags alone: two
/// invocations on the same input produce byte-identical output.
pub proof fn lemma_format_deterministic(
    path1: Seq<char>,
    path2: Seq<char>,
    as_uri: bool,
    windows: bool,
)
    requires
        path1 == path2,
    ensures
        formatted_chars(path1, as_uri, windows) == formatted_chars(path2, as_uri, windows),
{
}

/// Round trip: stripping the scheme (and on Windows the extra slash and the
/// separator substitution) from a formatted URI recovers the path.  On
/// Windows this asks that the canonical path holds no forward slash, as a
/// canonical Windows path does not: the separator substitution is reversible
/// only then.
pub proof fn lemma_uri_round_trip(path: Seq<char>, windows: bool)
    requires
        windows ==> forall|i: int| 0 <= i < path.len() ==> path[i] != '/',
    ensures
        stripped_chars(uri_chars(path, windows), windows) == path,
{
    if windows {
        let u = uri_chars(path, true);
        assert(u.skip(8) =~= uri_separators(path));
        assert forall|i: int| 0 <= i < path.len() implies #[trigger] to_native_separator(
            to_uri_separator(path[i]),
        ) == path[i] by {
        }
        assert(stripped_chars(u, true) =~= path);
    } else {
        assert(uri_chars(path, false).skip(7) =~= path);
    }
}

} // verus!
