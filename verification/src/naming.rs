//! File naming: URL slugs and filenames derived from them.

use vstd::prelude::*;

use crate::cli::OutputFormat;
use crate::text::{dec_rep, u64_to_string};

verus! {

/// The ASCII slug that the slug engine derives from a piece of text: the
/// result depends on the characters alone.
pub uninterp spec fn slug_of(s: Seq<char>) -> Seq<char>;

/// Relies on `slug::slugify`: turns any text into an ASCII slug of lower-case
/// letters, digits and single dashes, with no leading or trailing dash.
#[verifier::external_body]
pub fn slugify(s: &str) -> (r: String)
    ensures
        r@ == slug_of(s@),
{
    slug::slugify(s)
}

/// Builds a filename from any text and an extension: the text's slug, a
/// dot, and the extension.
pub fn slug_filename(name: &str, extension: &str) -> (r: String)
    ensures
        r@ == slug_of(name@) + "."@ + extension@,
{
    slugify(name).concat(".").concat(extension)
}

/// The filename for a URL saved in a format: the URL's slug plus the
/// format's extension, with an optional running index before the extension.
pub open spec fn spec_filename(url: Seq<char>, index: Option<int>, extension: Seq<char>) -> Seq<
    char,
> {
    match index {
        Some(i) => slug_of(url) + "-"@ + dec_rep(i) + "."@ + extension,
        None => slug_of(url) + "."@ + extension,
    }
}

/// Builds the filename for a URL and format, with an optional running index.
pub fn filename_for(url: &str, index: Option<u64>, format: OutputFormat) -> (r: String)
    ensures
        r@ == spec_filename(
            url@,
            match index {
                Some(i) => Some(i as int),
                None => None,
            },
            format.spec_file_extension(),
        ),
{
    let slug = slugify(url);
    match index {
        Some(i) => {
            let num = u64_to_string(i);
            slug.concat("-").concat(num.as_str()).concat(".").concat(format.file_extension())
        },
        None => slug.concat(".").concat(format.file_extension()),
    }
}

} // verus!
