//! One run: from the manifest and what the staleness tool wrote to the
//! findings.

use crate::manifest::{Package, PackageView, get_packages, manifest_packages, package_views};
use crate::response::{
    MuseResponse, MuseResponseView, Outdated, build_muse_response, dependency_views, findings_of,
    response_views,
};
use crate::text::lines;
use vstd::prelude::*;
use vstd::string::{StringExecFns, StringSliceAdditionalSpecFns};
use vstd::utf8::{decode_utf8, encode_utf8, valid_utf8};

verus! {

/// Why a run gave no findings.
#[derive(Clone, Copy, Debug, PartialEq, Eq, Structural)]
pub enum RunError {
    /// The manifest has more lines than a line number can count.
    TooManyLines,
    /// The output stream is not UTF-8.
    UnreadableOutput,
    /// The output stream is no report of the tool's.
    MalformedOutput,
}

/// The text that `bytes` encode, where they are UTF-8.
///
/// Stands for `core::str::from_utf8` of the standard library, which is
/// documented to check that the bytes are valid UTF-8 and then to hand them
/// on as a string slice, and to fail on any other bytes. The contract says so:
/// there is a text exactly for valid UTF-8, and its bytes are the given ones.
#[verifier::external_body]
pub(crate) fn text_of(bytes: &[u8]) -> (text: Option<&str>)
    ensures
        text is Some <==> valid_utf8(bytes@),
        text is Some ==> text->0.spec_bytes() == bytes@,
{
    core::str::from_utf8(bytes).ok()
}

/// The text that the standard library's `String::from_utf8_lossy` makes of
/// `bytes`, whatever they are.
pub uninterp spec fn lossy_text(bytes: Seq<u8>) -> Seq<char>;

/// A text for any bytes.
///
/// Stands for `String::from_utf8_lossy` of the standard library, which is
/// documented to turn every slice of bytes into a string, with a replacement
/// character in place of what is not UTF-8. What it returns goes by the bytes
/// alone; the contract gives that text its name and says nothing else of it.
#[verifier::external_body]
pub(crate) fn lossy_text_of(bytes: &[u8]) -> (text: String)
    ensures
        text@ == lossy_text(bytes@),
{
    String::from_utf8_lossy(bytes).into_owned()
}

/// The text of an error stream: what its bytes encode where they are UTF-8,
/// and else what a lossy reading makes of them.
pub open spec fn error_text(stderr: Seq<u8>) -> Seq<char> {
    if valid_utf8(stderr) {
        decode_utf8(stderr)
    } else {
        lossy_text(stderr)
    }
}

/// The finding that hands on what the tool wrote to its error stream.
pub open spec fn error_finding(text: Seq<char>) -> MuseResponseView {
    MuseResponseView { type_of: "stderr"@, message: text, file: "N/A"@, line: 0 }
}

/// The finding on an error stream.
pub fn error_report(stderr: &Vec<u8>) -> (response: MuseResponse)
    ensures
        response@ == error_finding(error_text(stderr@)),
{
    broadcast use vstd::utf8::encode_utf8_decode_utf8;

    let message = match text_of(stderr.as_slice()) {
        Some(text) => String::from_str(text),
        None => lossy_text_of(stderr.as_slice()),
    };
    MuseResponse {
        type_of: String::from_str("stderr"),
        message,
        file: String::from_str("N/A"),
        line: 0,
    }
}

/// What is reported once the tool's output has been read as a report, or
/// could not be.
pub open spec fn concluded(
    parsed: Option<Outdated>,
    packages: Seq<PackageView>,
) -> Result<Seq<MuseResponseView>, RunError> {
    match parsed {
        Some(outdated) => Ok(findings_of(dependency_views(outdated.dependencies@), packages)),
        None => Err(RunError::MalformedOutput),
    }
}

/// What `outcome` holds, as mathematical values.
pub open spec fn outcome_view(outcome: Result<Vec<MuseResponse>, RunError>) -> Result<
    Seq<MuseResponseView>,
    RunError,
> {
    match outcome {
        Ok(responses) => Ok(response_views(responses@)),
        Err(error) => Err(error),
    }
}

/// The findings on a report that was read, or the failure where it could not
/// be read.
pub fn conclude(parsed: Option<Outdated>, packages: Vec<Package>) -> (outcome: Result<
    Vec<MuseResponse>,
    RunError,
>)
    ensures
        outcome_view(outcome) == concluded(parsed, package_views(packages@)),
{
    match parsed {
        Some(outdated) => Ok(build_muse_response(outdated, packages)),
        None => Err(RunError::MalformedOutput),
    }
}

/// What a run gives without reading the tool's report, where it gives
/// anything: the one finding on an error stream that is not empty, or else
/// the failure on a manifest or an output stream that cannot be used.
pub open spec fn run_before_parsing(
    manifest: Seq<char>,
    stdout: Seq<u8>,
    stderr: Seq<u8>,
) -> Option<Result<Seq<MuseResponseView>, RunError>> {
    if stderr.len() > 0 {
        Some(Ok(seq![error_finding(error_text(stderr))]))
    } else if lines(manifest).len() > u32::MAX {
        Some(Err(RunError::TooManyLines))
    } else if !valid_utf8(stdout) {
        Some(Err(RunError::UnreadableOutput))
    } else {
        None
    }
}

/// An error stream that is not empty settles the run: whatever the manifest
/// and the output stream hold, there is exactly one finding, of type `stderr`,
/// on no file and on line 0, and its message is the error stream's text.
pub proof fn lemma_error_stream_settles_the_run(
    manifest: Seq<char>,
    stdout: Seq<u8>,
    stderr: Seq<u8>,
)
    requires
        stderr.len() > 0,
    ensures
        run_before_parsing(manifest, stdout, stderr) == Some(
            Ok::<Seq<MuseResponseView>, RunError>(seq![error_finding(error_text(stderr))]),
        ),
        error_finding(error_text(stderr)).type_of == "stderr"@,
        error_finding(error_text(stderr)).file == "N/A"@,
        error_finding(error_text(stderr)).line == 0,
        valid_utf8(stderr) ==> error_finding(error_text(stderr)).message == decode_utf8(stderr),
{
}

/// The reason why the tool did not start, put in place of its output beside
/// an empty error stream, is never reported as a finding: with a manifest that
/// can be numbered it is handed to the parser, as it was written.
pub proof fn lemma_launch_failure_is_parsed(manifest: Seq<char>, reason: Seq<char>)
    ensures
        run_before_parsing(manifest, encode_utf8(reason), Seq::<u8>::empty()) == if lines(
            manifest,
        ).len() > u32::MAX {
            Some(Err::<Seq<MuseResponseView>, RunError>(RunError::TooManyLines))
        } else {
            None
        },
        decode_utf8(encode_utf8(reason)) == reason,
{
    vstd::utf8::encode_utf8_valid_utf8(reason);
    vstd::utf8::encode_utf8_decode_utf8(reason);
}

/// The findings of one run: on the manifest's text, on what the tool wrote to
/// its two streams, and with `parse` to read the tool's report.
///
/// Whatever the error stream holds is reported as the one finding, and
/// neither the manifest nor the output stream is then looked at, nor is
/// `parse` called. With an empty error stream the manifest is scanned, the
/// output stream is decoded and handed to `parse`, and each dependency of the
/// report becomes a finding.
pub fn run<P: FnOnce(String) -> Option<Outdated>>(
    manifest: &str,
    stdout: &Vec<u8>,
    stderr: &Vec<u8>,
    parse: P,
) -> (outcome: Result<Vec<MuseResponse>, RunError>)
    requires
        run_before_parsing(manifest@, stdout@, stderr@) is None ==> forall|text: String|
            text@ == decode_utf8(stdout@) ==> call_requires(parse, (text,)),
    ensures
        match run_before_parsing(manifest@, stdout@, stderr@) {
            Some(settled) => outcome_view(outcome) == settled,
            None => exists|text: String, parsed: Option<Outdated>|
                text@ == decode_utf8(stdout@) && call_ensures(parse, (text,), parsed)
                    && outcome_view(outcome) == concluded(parsed, manifest_packages(manifest@)),
        },
{
    broadcast use vstd::utf8::encode_utf8_decode_utf8;

    if stderr.len() > 0 {
        let responses = vec![error_report(stderr)];
        assert(response_views(responses@) =~= seq![error_finding(error_text(stderr@))]);
        return Ok(responses);
    }
    let packages = match get_packages(manifest) {
        Ok(packages) => packages,
        Err(_) => {
            return Err(RunError::TooManyLines);
        },
    };
    match text_of(stdout.as_slice()) {
        Some(text) => {
            let text = String::from_str(text);
            let parsed = parse(text);
            conclude(parsed, packages)
        },
        None => Err(RunError::UnreadableOutput),
    }
}

} // verus!
