//! Where results are written.
use vstd::prelude::*;

use crate::cli::OutputOptions;
use crate::error::FfxError;
use crate::utils::text::{concat, dec_padded, u64_to_dec_padded};

verus! {

broadcast use vstd::string::group_string_axioms;

/// The stem of a path as `Path::file_stem` gives it (`None` when the path
/// has no file name): a name for a result that the standard library decides.
pub uninterp spec fn path_file_stem(path: Seq<char>) -> Option<Seq<char>>;

/// The path with its file name replaced, as `Path::with_file_name` gives it.
pub uninterp spec fn path_with_file_name(path: Seq<char>, name: Seq<char>) -> Seq<char>;

/// `name` placed in the directory `dir`, as `Path::join` gives it.
pub uninterp spec fn path_join(dir: Seq<char>, name: Seq<char>) -> Seq<char>;

/// Calls `Path::file_stem`; the contract claims only that the result is the
/// function `path_file_stem` of the path.
#[verifier::external_body]
fn file_stem_of(path: &str) -> (stem: Option<String>)
    ensures
        stem.deep_view() == path_file_stem(path@),
{
    std::path::Path::new(path).file_stem().and_then(|s| s.to_str()).map(|s| s.to_string())
}

/// Calls `Path::with_file_name`; the contract claims only that the result
/// is the function `path_with_file_name` of its arguments.
#[verifier::external_body]
pub(crate) fn with_file_name(path: &str, name: &str) -> (r: String)
    ensures
        r@ == path_with_file_name(path@, name@),
{
    std::path::Path::new(path).with_file_name(name).to_string_lossy().into_owned()
}

/// Calls `Path::join`; the contract claims only that the result is the
/// function `path_join` of its arguments.
#[verifier::external_body]
pub(crate) fn join_path(dir: &str, name: &str) -> (r: String)
    ensures
        r@ == path_join(dir@, name@),
{
    std::path::Path::new(dir).join(name).to_string_lossy().into_owned()
}

/// The stem used to name outputs: the input's file stem, else `output`.
pub open spec fn stem_spec(input: Seq<char>) -> Seq<char> {
    match path_file_stem(input) {
        Some(s) => s,
        None => "output"@,
    }
}

/// The stem used to name outputs.
pub fn file_stem(path: &str) -> (r: String)
    ensures
        r@ == stem_spec(path@),
{
    match file_stem_of(path) {
        Some(s) => s,
        None => "output".to_string(),
    }
}

/// The error, if any, that the output options give for these inputs.
pub open spec fn output_options_error(
    input_count: nat,
    output: Option<Seq<char>>,
    output_dir: Option<Seq<char>>,
) -> Option<FfxError> {
    if output is Some && output_dir is Some {
        Some(FfxError::OutputAndOutputDir)
    } else if output is Some && input_count > 1 {
        Some(FfxError::OutputWithManyInputs)
    } else {
        None
    }
}

/// Checks that the output options fit the inputs: not both an exact output
/// and an output directory, and an exact output only for one input.
pub fn validate_output_options(inputs: &[String], output: &OutputOptions) -> (r: Result<
    (),
    FfxError,
>)
    ensures
        match output_options_error(
            inputs.len() as nat,
            output.output.deep_view(),
            output.output_dir.deep_view(),
        ) {
            Some(e) => r == Err::<(), FfxError>(e),
            None => r is Ok,
        },
{
    if output.output.is_some() && output.output_dir.is_some() {
        return Err(FfxError::OutputAndOutputDir);
    }
    if output.output.is_some() && inputs.len() > 1 {
        return Err(FfxError::OutputWithManyInputs);
    }
    Ok(())
}

/// `name` placed in the output directory, or beside the input when there is none.
pub open spec fn place_output(input: Seq<char>, output_dir: Option<Seq<char>>, name: Seq<char>) -> Seq<
    char,
> {
    match output_dir {
        Some(dir) => path_join(dir, name),
        None => path_with_file_name(input, name),
    }
}

/// The output path of an input: the exact output if given, else
/// `<stem><suffix>.<extension>` in the output directory or beside the input.
pub open spec fn output_path_spec(
    input: Seq<char>,
    output: Option<Seq<char>>,
    output_dir: Option<Seq<char>>,
    suffix: Seq<char>,
    extension: Seq<char>,
) -> Seq<char> {
    match output {
        Some(p) => p,
        None => place_output(input, output_dir, stem_spec(input) + suffix + "."@ + extension),
    }
}

fn place(input: &str, output_dir: &Option<String>, name: &str) -> (r: String)
    ensures
        r@ == place_output(input@, output_dir.deep_view(), name@),
{
    match output_dir {
        Some(dir) => join_path(dir.as_str(), name),
        None => with_file_name(input, name),
    }
}

/// The output path of an input.
pub fn build_output_path(input: &str, output: &OutputOptions, suffix: &str, extension: &str) -> (r:
    Result<String, FfxError>)
    ensures
        r matches Ok(p) && p@ == output_path_spec(
            input@,
            output.output.deep_view(),
            output.output_dir.deep_view(),
            suffix@,
            extension@,
        ),
{
    if let Some(path) = &output.output {
        return Ok(path.clone());
    }
    let stem = file_stem(input);
    let mut filename = concat(stem.as_str(), suffix);
    filename.append(".");
    filename.append(extension);
    Ok(place(input, &output.output_dir, filename.as_str()))
}

/// The file name of the segment at `index`: `<stem>.partNN.<extension>`,
/// numbered from 1 with at least two digits.
pub open spec fn segment_file_name(input: Seq<char>, index: nat, extension: Seq<char>) -> Seq<char> {
    stem_spec(input) + ".part"@ + dec_padded(index + 1, 2) + "."@ + extension
}

/// The output path of the segment at `index` of an input: the exact output
/// for the first segment only (refused for the others), else the segment
/// file name in the output directory or beside the input.
pub fn build_segment_output_path(
    input: &str,
    output: &OutputOptions,
    index: usize,
    extension: &str,
) -> (r: Result<String, FfxError>)
    requires
        output.output is None ==> index < usize::MAX,
    ensures
        match output.output {
            Some(p) => if index == 0 {
                r matches Ok(q) && q@ == p@
            } else {
                r == Err::<String, FfxError>(FfxError::OutputWithManySegments)
            },
            None => r matches Ok(q) && q@ == place_output(
                input@,
                output.output_dir.deep_view(),
                segment_file_name(input@, index as nat, extension@),
            ),
        },
{
    if let Some(path) = &output.output {
        if index == 0 {
            return Ok(path.clone());
        }
        return Err(FfxError::OutputWithManySegments);
    }
    let stem = file_stem(input);
    let mut filename = concat(stem.as_str(), ".part");
    let number = u64_to_dec_padded(index as u64 + 1, 2);
    filename.append(number.as_str());
    filename.append(".");
    filename.append(extension);
    Ok(place(input, &output.output_dir, filename.as_str()))
}

} // verus!
