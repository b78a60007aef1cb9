//! The MIME table: a fixed mapping from a path's extension to a content type.

use vstd::prelude::*;
use vstd::string::StrSliceExecFns;

verus! {

/// The content types this shell knows how to serve.
#[derive(Clone, Copy, Debug, PartialEq, Eq, Structural)]
pub enum MimeType {
    Html,
    Javascript,
    Png,
}

/// Header value announced with failure responses.
pub open spec fn plain_text() -> Seq<char> {
    seq!['t', 'e', 'x', 't', '/', 'p', 'l', 'a', 'i', 'n']
}

/// `s` ends with `suffix`.
pub open spec fn ends_with(s: Seq<char>, suffix: Seq<char>) -> bool {
    suffix.len() <= s.len() && s.subrange(s.len() - suffix.len(), s.len() as int) == suffix
}

pub open spec fn html_extension() -> Seq<char> {
    seq!['.', 'h', 't', 'm', 'l']
}

pub open spec fn javascript_extension() -> Seq<char> {
    seq!['.', 'j', 's']
}

pub open spec fn png_extension() -> Seq<char> {
    seq!['.', 'p', 'n', 'g']
}

/// The table itself: the content type of a path, decided by its extension
/// alone, and `None` for every path whose extension is not listed.
pub open spec fn mime_of(path: Seq<char>) -> Option<MimeType> {
    if ends_with(path, html_extension()) {
        Some(MimeType::Html)
    } else if ends_with(path, javascript_extension()) {
        Some(MimeType::Javascript)
    } else if ends_with(path, png_extension()) {
        Some(MimeType::Png)
    } else {
        None
    }
}

impl MimeType {
    /// The header value that names this content type.
    pub open spec fn text(self) -> Seq<char> {
        match self {
            MimeType::Html => seq!['t', 'e', 'x', 't', '/', 'h', 't', 'm', 'l'],
            MimeType::Javascript => seq![
                't', 'e', 'x', 't', '/', 'j', 'a', 'v', 'a', 's', 'c', 'r', 'i', 'p', 't',
            ],
            MimeType::Png => seq!['i', 'm', 'a', 'g', 'e', '/', 'p', 'n', 'g'],
        }
    }

    /// The extension, leading dot included, that selects this content type.
    pub open spec fn extension(self) -> Seq<char> {
        match self {
            MimeType::Html => html_extension(),
            MimeType::Javascript => javascript_extension(),
            MimeType::Png => png_extension(),
        }
    }

    pub fn as_str(self) -> (name: &'static str)
        ensures
            name@ == self.text(),
    {
        match self {
            MimeType::Html => {
                proof {
                    reveal_strlit("text/html");
                }
                assert("text/html"@ =~= self.text());
                "text/html"
            },
            MimeType::Javascript => {
                proof {
                    reveal_strlit("text/javascript");
                }
                assert("text/javascript"@ =~= self.text());
                "text/javascript"
            },
            MimeType::Png => {
                proof {
                    reveal_strlit("image/png");
                }
                assert("image/png"@ =~= self.text());
                "image/png"
            },
        }
    }
}

/// Whether `s` ends with `suffix`, compared character by character.
pub fn has_suffix(s: &str, suffix: &str) -> (found: bool)
    ensures
        found == ends_with(s@, suffix@),
{
    let n: usize = s.unicode_len();
    let m: usize = suffix.unicode_len();
    if m > n {
        return false;
    }
    let start: usize = n - m;
    let mut i: usize = 0;
    while i < m
        invariant
            n == s@.len(),
            m == suffix@.len(),
            m <= n,
            start == n - m,
            i <= m,
            forall|k: int| 0 <= k < i ==> s@[start + k] == suffix@[k],
        decreases m - i,
    {
        if s.get_char(start + i) != suffix.get_char(i) {
            assert(s@.subrange(n - m, n as int)[i as int] != suffix@[i as int]);
            return false;
        }
        i = i + 1;
    }
    assert(s@.subrange(n - m, n as int) =~= suffix@);
    true
}

/// Looks a path up in the MIME table.
pub fn resolve_mime(path: &str) -> (found: Option<MimeType>)
    ensures
        found == mime_of(path@),
{
    proof {
        reveal_strlit(".html");
        reveal_strlit(".js");
        reveal_strlit(".png");
    }
    assert(".html"@ =~= html_extension());
    assert(".js"@ =~= javascript_extension());
    assert(".png"@ =~= png_extension());
    if has_suffix(path, ".html") {
        Some(MimeType::Html)
    } else if has_suffix(path, ".js") {
        Some(MimeType::Javascript)
    } else if has_suffix(path, ".png") {
        Some(MimeType::Png)
    } else {
        None
    }
}

/// A path that ends in a listed extension has that extension's content
/// type, whatever precedes the extension.
pub proof fn lemma_listed_extension(path: Seq<char>, mime: MimeType)
    requires
        ends_with(path, mime.extension()),
    ensures
        mime_of(path) == Some(mime),
{
    let n: int = path.len() as int;
    let html: Seq<char> = html_extension();
    let js: Seq<char> = javascript_extension();
    let png: Seq<char> = png_extension();
    if ends_with(path, html) {
        assert(path.subrange(n - 5, n)[4] == html[4]);
    }
    if ends_with(path, js) {
        assert(path.subrange(n - 3, n)[2] == js[2]);
    }
    if ends_with(path, png) {
        assert(path.subrange(n - 4, n)[3] == png[3]);
    }
}

} // verus!
