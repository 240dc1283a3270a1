use vstd::prelude::*;

use crate::kind::{is_nutexb, is_nutexb_path, kind_of_extension, lower_of, output_kind, OutputKind};
use crate::paths::{ext_of, has_extension, split_path, stem_of, substitute_wildcard};
use crate::settings::{
    chosen_format_name, is_image_format_name, mipmap_policy, resolve_format, MipmapPolicy,
};
use crate::text::{lemma_replace_absent, lemma_replace_removes, replace_char};

verus! {

/// One invocation of the converter, as given on the command line.
pub struct ConversionRequest {
    /// Path of the file to read.
    pub input: String,
    /// Output path template; `*` stands for the input container's name.
    pub output: Option<String>,
    /// Only report the input container's footer.
    pub info: bool,
    /// Name of the encode format; the default block format when absent.
    pub format: Option<String>,
    pub no_mipmaps: bool,
    /// Number the output instead of overwriting an existing image file.
    pub unique_filename: bool,
    /// Name to write into an output container's footer.
    pub nutexb_name: Option<String>,
}

/// Why a request cannot be carried out.
#[derive(Clone, Copy, Debug, PartialEq, Eq, Structural)]
pub enum RequestError {
    /// The footer report was asked of a file that is not a named container.
    InfoOnNonContainer,
    /// No output path was given outside of report mode.
    MissingOutput,
    /// The format name is not one of the known formats.
    InvalidFormatName,
    /// The output path has no file stem or no extension.
    MissingExtension,
}

/// What to do first with a request.
#[derive(Clone, Copy, Debug, PartialEq, Eq, Structural)]
pub enum Start {
    /// Read the input container's footer, print its report, and stop.
    ShowInfo,
    /// Read the input container's name, then plan with it.
    ReadInputName,
    /// Plan without a name.
    Convert,
}

/// The first step of a request.
pub open spec fn start_of(req: ConversionRequest) -> Result<Start, RequestError> {
    if req.info {
        if is_nutexb(req.input@) {
            Ok(Start::ShowInfo)
        } else {
            Err(RequestError::InfoOnNonContainer)
        }
    } else {
        match req.output {
            None => Err(RequestError::MissingOutput),
            Some(t) => if t@.contains('*') && is_nutexb(req.input@) {
                Ok(Start::ReadInputName)
            } else {
                Ok(Start::Convert)
            },
        }
    }
}

/// The output path after wildcard substitution: only a named container's
/// name replaces the markers; otherwise they stay as they are.
pub open spec fn resolved_output(
    template: Seq<char>,
    input: Seq<char>,
    input_name: Option<&str>,
) -> Seq<char> {
    match input_name {
        Some(n) => if is_nutexb(input) {
            replace_char(template, '*', n@)
        } else {
            template
        },
        None => template,
    }
}

/// A template without a wildcard marker is the output path as it is,
/// whatever the input and its name.
pub proof fn lemma_no_marker_keeps_path(template: Seq<char>, input: Seq<char>, input_name: Option<&str>)
    requires
        !template.contains('*'),
    ensures
        resolved_output(template, input, input_name) == template,
{
    if let Some(n) = input_name {
        lemma_replace_absent(template, '*', n@);
    }
}

/// For a named container as input, every marker of the template is replaced
/// by the container's name, so none is left unless the name holds one; for
/// any other input the template is kept verbatim.
pub proof fn lemma_wildcard_substitution(template: Seq<char>, input: Seq<char>, name: &str)
    ensures
        is_nutexb(input) ==> resolved_output(template, input, Some(name)) == replace_char(
            template,
            '*',
            name@,
        ),
        is_nutexb(input) && !name@.contains('*') ==> !resolved_output(
            template,
            input,
            Some(name),
        ).contains('*'),
        !is_nutexb(input) ==> resolved_output(template, input, Some(name)) == template,
{
    if !name@.contains('*') {
        lemma_replace_removes(template, '*', name@);
    }
}

/// Everything that the conversion needs once the request is resolved.
pub struct ConversionPlan {
    /// The output path, wildcards substituted.
    pub output: String,
    pub kind: OutputKind,
    /// The encode format; `format_name` is the name it was parsed from.
    pub format: image_dds::ImageFormat,
    pub format_name: String,
    pub mipmaps: MipmapPolicy,
    /// The name to write into the footer of a container output.
    pub footer_name: String,
    /// Apply the uniqueness guard before writing the image.
    pub unique: bool,
    /// Report the input container's footer after the conversion.
    pub report_input: bool,
}

impl ConversionRequest {
    /// Decides the first step: report mode needs a named container as input;
    /// otherwise an output path is needed, and the input's name is read when
    /// the path holds a wildcard and the input is a named container.
    pub fn start(&self) -> (r: Result<Start, RequestError>)
        ensures
            r == start_of(*self),
    {
        let input_is_nutexb = is_nutexb_path(self.input.as_str());
        if self.info {
            if input_is_nutexb {
                Ok(Start::ShowInfo)
            } else {
                Err(RequestError::InfoOnNonContainer)
            }
        } else {
            match &self.output {
                None => Err(RequestError::MissingOutput),
                Some(t) => {
                    if crate::text::contains_char(t.as_str(), '*') && input_is_nutexb {
                        Ok(Start::ReadInputName)
                    } else {
                        Ok(Start::Convert)
                    }
                },
            }
        }
    }

    /// Resolves the request into a plan, given the input container's name
    /// when one was read. Errors come in this order: no output path, an
    /// unknown format name, an output path without stem or extension.
    pub fn plan(&self, input_name: Option<&str>) -> (r: Result<ConversionPlan, RequestError>)
        ensures
            self.output is None ==> r == Err::<ConversionPlan, RequestError>(RequestError::MissingOutput),
            self.output matches Some(t) ==> {
                let out = resolved_output(t@, self.input@, input_name);
                let fname = chosen_format_name(self.format);
                if !is_image_format_name(fname) {
                    r == Err::<ConversionPlan, RequestError>(RequestError::InvalidFormatName)
                } else if !has_extension(out) {
                    r == Err::<ConversionPlan, RequestError>(RequestError::MissingExtension)
                } else {
                    r matches Ok(p) && {
                        &&& p.output@ == out
                        &&& p.kind == kind_of_extension(lower_of(ext_of(out)))
                        &&& p.format_name@ == fname
                        &&& p.mipmaps == (if self.no_mipmaps {
                            MipmapPolicy::Disabled
                        } else {
                            MipmapPolicy::GeneratedAutomatic
                        })
                        &&& p.footer_name@ == (match self.nutexb_name {
                            Some(n) => n@,
                            None => stem_of(out),
                        })
                        &&& p.unique == (self.unique_filename && p.kind == OutputKind::Image)
                        &&& p.report_input == is_nutexb(self.input@)
                    }
                }
            },
    {
        let template = match &self.output {
            Some(t) => t,
            None => {
                return Err(RequestError::MissingOutput);
            },
        };
        let input_is_nutexb = is_nutexb_path(self.input.as_str());
        let name = if input_is_nutexb {
            input_name
        } else {
            None
        };
        let output = substitute_wildcard(template.as_str(), name);
        let (format, format_name) = match resolve_format(&self.format) {
            Some(found) => found,
            None => {
                return Err(RequestError::InvalidFormatName);
            },
        };
        let kind = match output_kind(output.as_str()) {
            Some(k) => k,
            None => {
                return Err(RequestError::MissingExtension);
            },
        };
        let footer_name = match &self.nutexb_name {
            Some(n) => n.clone(),
            None => match split_path(output.as_str()) {
                Some(parts) => parts.stem,
                None => {
                    return Err(RequestError::MissingExtension);
                },
            },
        };
        let unique = self.unique_filename && kind == OutputKind::Image;
        Ok(ConversionPlan {
            output,
            kind,
            format,
            format_name,
            mipmaps: mipmap_policy(self.no_mipmaps),
            footer_name,
            unique,
            report_input: input_is_nutexb,
        })
    }
}

} // verus!
