//! Requests made under the shell's own URL scheme, and the resource path
//! that such a request names.
//!
//! A request URI has the form `<scheme>://<path>`. The path runs up to the
//! first `?` or `#`, and one leading `/`, which stands for the root of the
//! scheme, is not part of the resource's name.

use vstd::prelude::*;
use vstd::string::StrSliceExecFns;
use vstd::string::StringExecFns;

verus! {

/// One intercepted request. The body travels with the request but plays no
/// part in answering it.
#[derive(Clone, Debug, PartialEq, Eq)]
pub struct ResourceRequest {
    pub uri: String,
    pub method: String,
    pub body: Vec<u8>,
}

/// The three characters `://` stand at index `i` of `uri`.
pub open spec fn separator_at(uri: Seq<char>, i: int) -> bool {
    &&& 0 <= i
    &&& i + 3 <= uri.len()
    &&& uri[i] == ':'
    &&& uri[i + 1] == '/'
    &&& uri[i + 2] == '/'
}

/// Index of the first `://` that starts at or after `from`.
pub open spec fn first_separator_from(uri: Seq<char>, from: int) -> Option<int>
    decreases uri.len() - from,
{
    if from < 0 || from + 3 > uri.len() {
        None
    } else if separator_at(uri, from) {
        Some(from)
    } else {
        first_separator_from(uri, from + 1)
    }
}

/// Where the path begins: just past the first `://`, or at the very start
/// of a URI that carries no scheme.
pub open spec fn path_start(uri: Seq<char>) -> int {
    match first_separator_from(uri, 0) {
        Some(i) => i + 3,
        None => 0,
    }
}

/// A character that ends the path: the start of a query or of a fragment.
pub open spec fn ends_path(c: char) -> bool {
    c == '?' || c == '#'
}

/// Index of the first path-ending character at or after `from`, or the
/// length of `uri` when none follows.
pub open spec fn path_end_from(uri: Seq<char>, from: int) -> int
    decreases uri.len() - from,
{
    if from < 0 || from >= uri.len() {
        uri.len() as int
    } else if ends_path(uri[from]) {
        from
    } else {
        path_end_from(uri, from + 1)
    }
}

/// The path component of `uri`, leading separator included.
pub open spec fn path_component(uri: Seq<char>) -> Seq<char> {
    uri.subrange(path_start(uri), path_end_from(uri, path_start(uri)))
}

/// `path` without the one leading `/` that denotes the scheme's root.
pub open spec fn strip_root(path: Seq<char>) -> Seq<char> {
    if path.len() > 0 && path[0] == '/' {
        path.skip(1)
    } else {
        path
    }
}

/// The resource that `uri` names, relative to the root that resources are
/// served from.
pub open spec fn resource_path(uri: Seq<char>) -> Seq<char> {
    strip_root(path_component(uri))
}

/// `first_separator_from` finds a separator exactly when one exists at or
/// after `from`, and then it is the first of them.
pub proof fn lemma_first_separator(uri: Seq<char>, from: int)
    requires
        0 <= from,
    ensures
        match first_separator_from(uri, from) {
            Some(i) => from <= i && separator_at(uri, i) && forall|j: int|
                from <= j < i ==> !separator_at(uri, j),
            None => forall|j: int| from <= j ==> !separator_at(uri, j),
        },
    decreases uri.len() - from,
{
    if from + 3 <= uri.len() && !separator_at(uri, from) {
        lemma_first_separator(uri, from + 1);
    }
}

/// The path ends at or after `from`, within `uri`, at a path-ending
/// character or at the end, and no path-ending character comes before it.
pub proof fn lemma_path_end(uri: Seq<char>, from: int)
    requires
        0 <= from <= uri.len(),
    ensures
        from <= path_end_from(uri, from) <= uri.len(),
        path_end_from(uri, from) < uri.len() ==> ends_path(uri[path_end_from(uri, from)]),
        forall|j: int| from <= j < path_end_from(uri, from) ==> !ends_path(uri[j]),
    decreases uri.len() - from,
{
    if from < uri.len() && !ends_path(uri[from]) {
        lemma_path_end(uri, from + 1);
    }
}

/// The URI that a webview sent, put together from the parts that it was
/// parsed into. A parser reports the path of a URI that has a scheme and an
/// authority and no path as `/`; no such path was sent, and none is put
/// back.
pub open spec fn uri_of_parts(
    scheme: Option<Seq<char>>,
    authority: Option<Seq<char>>,
    path: Seq<char>,
    query: Option<Seq<char>>,
) -> Seq<char> {
    let head = match scheme {
        Some(name) => name + seq![':', '/', '/'],
        None => Seq::empty(),
    };
    let host = match authority {
        Some(name) => name,
        None => Seq::empty(),
    };
    let sent = if scheme is Some && authority is Some && path == seq!['/'] {
        Seq::empty()
    } else {
        path
    };
    let tail = match query {
        Some(text) => seq!['?'] + text,
        None => Seq::empty(),
    };
    head + host + sent + tail
}

/// A URI made of a scheme, `://`, a path and what follows the path names
/// that path, less its one leading `/`. This holds wherever the scheme
/// holds no `:`, the path neither `?` nor `#`, and what follows is empty or
/// starts with one of these two.
pub proof fn lemma_wire_form(scheme: Seq<char>, path: Seq<char>, rest: Seq<char>)
    requires
        forall|i: int| 0 <= i < scheme.len() ==> scheme[i] != ':',
        forall|i: int| 0 <= i < path.len() ==> !ends_path(path[i]),
        rest.len() == 0 || ends_path(rest[0]),
    ensures
        path_component(scheme + seq![':', '/', '/'] + path + rest) == path,
        resource_path(scheme + seq![':', '/', '/'] + path + rest) == strip_root(path),
{
    let uri = scheme + seq![':', '/', '/'] + path + rest;
    let at = scheme.len() as int;
    assert(separator_at(uri, at));
    lemma_first_separator(uri, 0);
    let found = first_separator_from(uri, 0);
    assert(found == Some(at)) by {
        let i = found->0;
        if i < at {
            assert(uri[i] == scheme[i]);
        }
    }
    let start = at + 3;
    let stop = start + path.len();
    lemma_path_end(uri, start);
    let end = path_end_from(uri, start);
    if end < stop {
        assert(uri[end] == path[end - start]);
    }
    if end > stop {
        assert(uri[stop] == rest[0]);
    }
    assert(uri.subrange(start, end) =~= path);
}

/// A URI that was parsed into a scheme, an authority, a path and a query
/// names the authority followed by the path that was sent, less one
/// leading `/`: the query is no part of the name, and neither is the `/`
/// that stands for a path that was not sent.
pub proof fn lemma_parts_name_resource(
    scheme: Seq<char>,
    authority: Seq<char>,
    path: Seq<char>,
    query: Option<Seq<char>>,
)
    requires
        forall|i: int| 0 <= i < scheme.len() ==> scheme[i] != ':',
        forall|i: int| 0 <= i < authority.len() ==> !ends_path(authority[i]),
        forall|i: int| 0 <= i < path.len() ==> !ends_path(path[i]),
    ensures
        path == seq!['/'] ==> resource_path(
            uri_of_parts(Some(scheme), Some(authority), path, query),
        ) == strip_root(authority),
        path != seq!['/'] ==> resource_path(
            uri_of_parts(Some(scheme), Some(authority), path, query),
        ) == strip_root(authority + path),
{
    let sent = if path == seq!['/'] {
        Seq::<char>::empty()
    } else {
        path
    };
    let tail = match query {
        Some(text) => seq!['?'] + text,
        None => Seq::<char>::empty(),
    };
    assert(authority + Seq::<char>::empty() =~= authority);
    lemma_wire_form(scheme, authority + sent, tail);
    assert(uri_of_parts(Some(scheme), Some(authority), path, query) =~= scheme + seq![
        ':',
        '/',
        '/',
    ] + (authority + sent) + tail);
}

/// Finds the first `://` of `uri`.
pub fn find_separator(uri: &str) -> (found: Option<usize>)
    ensures
        match found {
            Some(i) => first_separator_from(uri@, 0) == Some(i as int) && i + 3 <= uri@.len()
                <= usize::MAX,
            None => first_separator_from(uri@, 0) is None,
        },
{
    let n: usize = uri.unicode_len();
    if n < 3 {
        return None;
    }
    let last: usize = n - 3;
    let mut i: usize = 0;
    while i <= last
        invariant
            n == uri@.len(),
            last == n - 3,
            i <= last + 1,
            first_separator_from(uri@, 0) == first_separator_from(uri@, i as int),
        decreases last + 1 - i,
    {
        if uri.get_char(i) == ':' && uri.get_char(i + 1) == '/' && uri.get_char(i + 2) == '/' {
            return Some(i);
        }
        i = i + 1;
    }
    None
}

/// Finds where the path that starts at `from` ends.
pub fn find_path_end(uri: &str, from: usize) -> (end: usize)
    requires
        from <= uri@.len(),
    ensures
        end == path_end_from(uri@, from as int),
        from <= end <= uri@.len(),
{
    let n: usize = uri.unicode_len();
    let mut i: usize = from;
    while i < n
        invariant
            n == uri@.len(),
            from <= i <= n,
            path_end_from(uri@, from as int) == path_end_from(uri@, i as int),
        decreases n - i,
    {
        let c: char = uri.get_char(i);
        if c == '?' || c == '#' {
            return i;
        }
        i = i + 1;
    }
    i
}

/// Extracts the resource path that a request URI names.
pub fn resource_path_of(uri: &str) -> (path: String)
    ensures
        path@ == resource_path(uri@),
{
    let start: usize = match find_separator(uri) {
        Some(i) => i + 3,
        None => 0,
    };
    let end: usize = find_path_end(uri, start);
    let begin: usize = if start < end && uri.get_char(start) == '/' {
        start + 1
    } else {
        start
    };
    let path: &str = uri.substring_char(begin, end);
    assert(path@ =~= resource_path(uri@));
    String::from_str(path)
}

/// Puts the URI that a webview sent together from the parts that it was
/// parsed into.
pub fn uri_from_parts(
    scheme: Option<&str>,
    authority: Option<&str>,
    path: &str,
    query: Option<&str>,
) -> (uri: String)
    ensures
        uri@ == uri_of_parts(
            match scheme {
                Some(name) => Some(name@),
                None => None,
            },
            match authority {
                Some(name) => Some(name@),
                None => None,
            },
            path@,
            match query {
                Some(text) => Some(text@),
                None => None,
            },
        ),
{
    proof {
        reveal_strlit("://");
        reveal_strlit("?");
    }
    assert("://"@ =~= seq![':', '/', '/']);
    assert("?"@ =~= seq!['?']);
    let mut uri: String = String::new();
    if let Some(name) = scheme {
        uri.append(name);
        uri.append("://");
    }
    if let Some(name) = authority {
        uri.append(name);
    }
    let unsent: bool = scheme.is_some() && authority.is_some() && path.unicode_len() == 1
        && path.get_char(0) == '/';
    assert(unsent == (scheme is Some && authority is Some && path@ =~= seq!['/']));
    if !unsent {
        uri.append(path);
    }
    if let Some(text) = query {
        uri.append("?");
        uri.append(text);
    }
    assert(uri@ =~= uri_of_parts(
        match scheme {
            Some(name) => Some(name@),
            None => None,
        },
        match authority {
            Some(name) => Some(name@),
            None => None,
        },
        path@,
        match query {
            Some(text) => Some(text@),
            None => None,
        },
    ));
    uri
}

impl ResourceRequest {
    pub fn new(uri: String, method: String, body: Vec<u8>) -> (request: ResourceRequest)
        ensures
            request.uri == uri,
            request.method == method,
            request.body == body,
    {
        ResourceRequest { uri, method, body }
    }

    /// The resource this request asks for.
    pub fn resource_path(&self) -> (path: String)
        ensures
            path@ == resource_path(self.uri@),
    {
        resource_path_of(self.uri.as_str())
    }
}

} // verus!
