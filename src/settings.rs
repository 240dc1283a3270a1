use vstd::prelude::*;

verus! {

#[verifier::external_type_specification]
#[verifier::external_body]
pub struct ExImageFormat(image_dds::ImageFormat);

/// The names that `image_dds::ImageFormat` parses from: its variant names,
/// matched case-sensitively.
pub open spec fn is_image_format_name(s: Seq<char>) -> bool {
    s == "R8Unorm"@ || s == "R8Snorm"@ || s == "Rg8Unorm"@ || s == "Rg8Snorm"@
        || s == "Rgba8Unorm"@ || s == "Rgba8UnormSrgb"@ || s == "Rgba16Float"@
        || s == "Rgba32Float"@ || s == "Bgr8Unorm"@ || s == "Bgra8Unorm"@
        || s == "Bgra8UnormSrgb"@ || s == "Bgra4Unorm"@ || s == "BC1RgbaUnorm"@
        || s == "BC1RgbaUnormSrgb"@ || s == "BC2RgbaUnorm"@ || s == "BC2RgbaUnormSrgb"@
        || s == "BC3RgbaUnorm"@ || s == "BC3RgbaUnormSrgb"@ || s == "BC4RUnorm"@
        || s == "BC4RSnorm"@ || s == "BC5RgUnorm"@ || s == "BC5RgSnorm"@
        || s == "BC6hRgbUfloat"@ || s == "BC6hRgbSfloat"@ || s == "BC7RgbaUnorm"@
        || s == "BC7RgbaUnormSrgb"@ || s == "Rgba8Snorm"@ || s == "R16Unorm"@
        || s == "R16Snorm"@ || s == "Rg16Unorm"@ || s == "Rg16Snorm"@
        || s == "Rgba16Unorm"@ || s == "Rgba16Snorm"@ || s == "R16Float"@
        || s == "Rg16Float"@ || s == "R32Float"@ || s == "Rg32Float"@
        || s == "Rgb32Float"@ || s == "Bgr5A1Unorm"@
}

/// Relies on `image_dds::ImageFormat`'s `FromStr` (derived by strum's
/// `EnumString`): a string parses exactly when it is a variant's name.
#[verifier::external_body]
fn parse_image_format(name: &str) -> (r: Option<image_dds::ImageFormat>)
    ensures
        r.is_some() == is_image_format_name(name@),
{
    <image_dds::ImageFormat as std::str::FromStr>::from_str(name).ok()
}

/// The block format used when no format is asked for.
pub const DEFAULT_FORMAT_NAME: &'static str = "BC7RgbaUnorm";

/// Whether a mipmap chain is generated on encode.
#[derive(Clone, Copy, Debug, PartialEq, Eq, Structural)]
pub enum MipmapPolicy {
    /// Generate mipmaps down to the smallest level.
    GeneratedAutomatic,
    /// Keep the base level only.
    Disabled,
}

/// The name of the format that a request asks for: the given one, else the
/// default block format.
pub open spec fn chosen_format_name(format: Option<String>) -> Seq<char> {
    match format {
        Some(f) => f@,
        None => DEFAULT_FORMAT_NAME@,
    }
}

/// Looks up the encode format by name; `None` when the name is not one.
pub fn resolve_format(format: &Option<String>) -> (r: Option<(image_dds::ImageFormat, String)>)
    ensures
        r.is_some() == is_image_format_name(chosen_format_name(*format)),
        r matches Some((_, name)) ==> name@ == chosen_format_name(*format),
{
    let name: &str = match format {
        Some(f) => f.as_str(),
        None => DEFAULT_FORMAT_NAME,
    };
    match parse_image_format(name) {
        Some(parsed) => Some((parsed, String::from_str(name))),
        None => None,
    }
}

/// The mipmap policy: automatic generation unless it was switched off.
pub fn mipmap_policy(no_mipmaps: bool) -> (r: MipmapPolicy)
    ensures
        r == (if no_mipmaps { MipmapPolicy::Disabled } else { MipmapPolicy::GeneratedAutomatic }),
{
    if no_mipmaps {
        MipmapPolicy::Disabled
    } else {
        MipmapPolicy::GeneratedAutomatic
    }
}

} // verus!
