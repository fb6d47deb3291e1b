use vstd::prelude::*;
use vstd::string::*;

use crate::text::same_text;

verus! {

/// Position of the last `.` in `p`, or -1 when there is none.
pub open spec fn last_dot(p: Seq<char>) -> int
    decreases p.len(),
{
    if p.len() == 0 {
        -1
    } else if p.last() == '.' {
        p.len() - 1
    } else {
        last_dot(p.drop_last())
    }
}

/// The file extension of `p`: what follows its last `.`, if it has one.
pub open spec fn extension_of(p: Seq<char>) -> Option<Seq<char>> {
    if last_dot(p) < 0 {
        None
    } else {
        Some(p.skip(last_dot(p) + 1))
    }
}

/// The MIME type served for a file with extension `ext`.
pub open spec fn mime_for_extension(ext: Option<Seq<char>>) -> Seq<char> {
    match ext {
        Some(e) => if e == "html"@ {
            "text/html"@
        } else if e == "js"@ {
            "application/javascript"@
        } else if e == "css"@ {
            "text/css"@
        } else if e == "json"@ {
            "application/json"@
        } else if e == "png"@ {
            "image/png"@
        } else if e == "svg"@ {
            "image/svg+xml"@
        } else if e == "ico"@ {
            "image/x-icon"@
        } else {
            "application/octet-stream"@
        },
        None => "application/octet-stream"@,
    }
}

/// Whether `ext` is one of the extensions with a MIME type of its own.
pub open spec fn is_known_extension(ext: Option<Seq<char>>) -> bool {
    match ext {
        Some(e) => e == "html"@ || e == "js"@ || e == "css"@ || e == "json"@ || e == "png"@
            || e == "svg"@ || e == "ico"@,
        None => false,
    }
}

/// The MIME type of the file at `path`, by its extension alone.
pub open spec fn mime_of(path: Seq<char>) -> Seq<char> {
    mime_for_extension(extension_of(path))
}

proof fn lemma_last_dot_bounds(p: Seq<char>)
    ensures
        -1 <= last_dot(p) < p.len(),
        last_dot(p) >= 0 ==> p[last_dot(p)] == '.',
        forall|k: int| last_dot(p) < k < p.len() ==> p[k] != '.',
    decreases p.len(),
{
    if p.len() > 0 && p.last() != '.' {
        lemma_last_dot_bounds(p.drop_last());
        assert forall|k: int| last_dot(p) < k < p.len() implies p[k] != '.' by {
            if k < p.len() - 1 {
                assert(p[k] == p.drop_last()[k]);
            }
        }
    }
}

/// Finds the last `.` of `path` by scanning from its end.
fn find_last_dot(path: &str) -> (r: Option<usize>)
    ensures
        match r {
            Some(i) => last_dot(path@) == i as int,
            None => last_dot(path@) == -1,
        },
{
    let n = path.unicode_len();
    let mut i: usize = n;
    while i > 0
        invariant
            n == path@.len(),
            i <= n,
            forall|k: int| i <= k < n ==> path@[k] != '.',
        decreases i,
    {
        if path.get_char(i - 1) == '.' {
            proof {
                lemma_last_dot_from_end(path@, (i - 1) as int);
            }
            return Some(i - 1);
        }
        i = i - 1;
    }
    proof {
        lemma_last_dot_from_end(path@, -1);
    }
    None
}

/// `last_dot` is the position `d` when nothing after `d` is a `.` and `d` is one (or is -1).
proof fn lemma_last_dot_from_end(p: Seq<char>, d: int)
    requires
        -1 <= d < p.len(),
        d >= 0 ==> p[d] == '.',
        forall|k: int| d < k < p.len() ==> p[k] != '.',
    ensures
        last_dot(p) == d,
    decreases p.len(),
{
    if p.len() > 0 && p.len() - 1 != d {
        lemma_last_dot_from_end(p.drop_last(), d);
    }
}

/// Returns the MIME type of `path` from its file extension: `text/html` for
/// `.html`, `application/javascript` for `.js`, `text/css`, `application/json`,
/// `image/png`, `image/svg+xml`, `image/x-icon` for `.css`, `.json`, `.png`,
/// `.svg`, `.ico`, and `application/octet-stream` for any other extension or
/// none.
pub fn get_mime_type(path: &str) -> (r: String)
    ensures
        r@ == mime_of(path@),
{
    let n = path.unicode_len();
    proof {
        lemma_last_dot_bounds(path@);
    }
    match find_last_dot(path) {
        None => String::from_str("application/octet-stream"),
        Some(d) => {
            let ext = path.substring_char(d + 1, n);
            assert(ext@ =~= path@.skip(d + 1));
            if same_text(ext, "html") {
                String::from_str("text/html")
            } else if same_text(ext, "js") {
                String::from_str("application/javascript")
            } else if same_text(ext, "css") {
                String::from_str("text/css")
            } else if same_text(ext, "json") {
                String::from_str("application/json")
            } else if same_text(ext, "png") {
                String::from_str("image/png")
            } else if same_text(ext, "svg") {
                String::from_str("image/svg+xml")
            } else if same_text(ext, "ico") {
                String::from_str("image/x-icon")
            } else {
                String::from_str("application/octet-stream")
            }
        },
    }
}

/// A path whose extension is missing or not in the table is served as
/// `application/octet-stream`.
pub proof fn lemma_unknown_extension_is_octet_stream(path: Seq<char>)
    requires
        !is_known_extension(extension_of(path)),
    ensures
        mime_of(path) == "application/octet-stream"@,
{
}

} // verus!
