use vstd::prelude::*;

use crate::paths::{ext_of, has_extension, split_path};
use crate::text::str_equal;

verus! {

/// What `str::to_lowercase` makes of a string.
pub uninterp spec fn lower_of(s: Seq<char>) -> Seq<char>;

/// Relies on `str::to_lowercase`: the lowercase form of `s`, which depends on
/// the characters of `s` alone.
#[verifier::external_body]
fn lowercase(s: &str) -> (r: String)
    ensures
        r@ == lower_of(s@),
{
    s.to_lowercase()
}

/// The kind of file that an output path asks for.
#[derive(Clone, Copy, Debug, PartialEq, Eq, Structural)]
pub enum OutputKind {
    /// A game texture container that carries a named footer.
    Nutexb,
    /// A second game texture container.
    Bntx,
    /// A generic compressed-texture container.
    Dds,
    /// Any other extension: an ordinary raster image.
    Image,
}

/// The kind that a lowercase extension selects.
pub open spec fn kind_of_extension(e: Seq<char>) -> OutputKind {
    if e == "nutexb"@ {
        OutputKind::Nutexb
    } else if e == "bntx"@ {
        OutputKind::Bntx
    } else if e == "dds"@ {
        OutputKind::Dds
    } else {
        OutputKind::Image
    }
}

/// `p` has an extension whose lowercase form is `nutexb`.
pub open spec fn is_nutexb(p: Seq<char>) -> bool {
    has_extension(p) && lower_of(ext_of(p)) == "nutexb"@
}

/// Classifies an extension that is already in lowercase.
pub fn classify_extension(lowered: &str) -> (r: OutputKind)
    ensures
        r == kind_of_extension(lowered@),
{
    if str_equal(lowered, "nutexb") {
        OutputKind::Nutexb
    } else if str_equal(lowered, "bntx") {
        OutputKind::Bntx
    } else if str_equal(lowered, "dds") {
        OutputKind::Dds
    } else {
        OutputKind::Image
    }
}

/// The kind that the extension of `path` selects, case-insensitively;
/// `None` when the path has no extension.
pub fn output_kind(path: &str) -> (r: Option<OutputKind>)
    ensures
        r == (if has_extension(path@) {
            Some(kind_of_extension(lower_of(ext_of(path@))))
        } else {
            None
        }),
{
    match split_path(path) {
        Some(parts) => {
            let lowered = lowercase(parts.ext.as_str());
            Some(classify_extension(lowered.as_str()))
        },
        None => None,
    }
}

/// Whether `path` names a container with a footer, by its extension.
pub fn is_nutexb_path(path: &str) -> (r: bool)
    ensures
        r == is_nutexb(path@),
{
    match split_path(path) {
        Some(parts) => {
            let lowered = lowercase(parts.ext.as_str());
            str_equal(lowered.as_str(), "nutexb")
        },
        None => false,
    }
}

} // verus!
