//! Helpers for saving fetched documents: the front-matter framing and the
//! slug-based filenames the save routines use.

use vstd::prelude::*;

use crate::naming::{slug_filename, slug_of};

verus! {

/// Frames content with a front-matter header carrying the source URL.
pub fn render_with_frontmatter(url: &str, content: &str) -> (r: String)
    ensures
        r@ == "---\nurl: "@ + url@ + "\n---\n\n"@ + content@,
{
    String::from_str("---\nurl: ").concat(url).concat("\n---\n\n").concat(content)
}

/// The filename a document is saved under: the slug of its title where one
/// is known, else of its URL, plus the extension.
pub fn document_filename(url: &str, title: Option<&str>, extension: &str) -> (r: String)
    ensures
        r@ == (match title {
            Some(t) => slug_of(t@),
            None => slug_of(url@),
        }) + "."@ + extension@,
{
    match title {
        Some(t) => slug_filename(t, extension),
        None => slug_filename(url, extension),
    }
}

} // verus!
