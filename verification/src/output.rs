//! What a finished generation run leaves behind, and the verdict drawn
//! from it.

use crate::message::{
    contains_text, lemma_tool_failure_holds_both_streams, success_message, success_text,
    tool_failure_message, tool_failure_text,
};
use vstd::prelude::*;
use vstd::utf8::*;

verus! {

/// The text that std's lossy UTF-8 decoding makes of a run of bytes: valid
/// parts decode as they are, and each invalid part is replaced by U+FFFD.
pub uninterp spec fn lossy_text(bytes: Seq<u8>) -> Seq<char>;

/// How a generation run ended: whether its exit status reports success, and
/// the bytes it wrote to its two streams.
#[derive(Debug, PartialEq, Eq)]
pub struct ProcessOutput {
    pub success: bool,
    pub stdout: Vec<u8>,
    pub stderr: Vec<u8>,
}

/// [`ProcessOutput`] as the contracts see it.
pub struct ProcessOutputView {
    pub success: bool,
    pub stdout: Seq<u8>,
    pub stderr: Seq<u8>,
}

impl View for ProcessOutput {
    type V = ProcessOutputView;

    open spec fn view(&self) -> ProcessOutputView {
        ProcessOutputView { success: self.success, stdout: self.stdout@, stderr: self.stderr@ }
    }
}

/// A verdict as the contracts see it: the reported text on either side.
pub open spec fn verdict_view(verdict: Result<String, String>) -> Result<Seq<char>, Seq<char>> {
    match verdict {
        Ok(text) => Ok(text@),
        Err(text) => Err(text@),
    }
}

/// The verdict on a generation run, from its exit status and its two
/// streams as text: success names the output path, failure quotes both
/// streams.
pub open spec fn verdict_text(
    output_path: Seq<char>,
    success: bool,
    stderr: Seq<char>,
    stdout: Seq<char>,
) -> Result<Seq<char>, Seq<char>> {
    if success {
        Ok(success_text(output_path))
    } else {
        Err(tool_failure_text(stderr, stdout))
    }
}

/// The verdict on a generation run, from what it left behind.
pub open spec fn verdict_of(output_path: Seq<char>, output: ProcessOutputView) -> Result<
    Seq<char>,
    Seq<char>,
> {
    verdict_text(
        output_path,
        output.success,
        lossy_text(output.stderr),
        lossy_text(output.stdout),
    )
}

/// Trusted: std's `String::from_utf8_lossy`. The result is the lossy
/// decoding of `bytes`; where `bytes` is valid UTF-8, that is the text it
/// encodes, with nothing replaced.
#[verifier::external_body]
pub(crate) fn decode_lossy(bytes: &[u8]) -> (text: String)
    ensures
        text@ == lossy_text(bytes@),
        valid_utf8(bytes@) ==> text@ == decode_utf8(bytes@),
{
    String::from_utf8_lossy(bytes).into_owned()
}

/// Draws the verdict from the exit status and the two streams, already
/// decoded.
pub fn verdict_from_text(output_path: &str, success: bool, stderr: &str, stdout: &str) -> (verdict:
    Result<String, String>)
    ensures
        verdict_view(verdict) == verdict_text(output_path@, success, stderr@, stdout@),
{
    if success {
        Ok(success_message(output_path))
    } else {
        Err(tool_failure_message(stderr, stdout))
    }
}

/// Draws the verdict from what a generation run left behind. A stream that
/// is valid UTF-8 is quoted in a failure exactly as the run wrote it.
pub fn verdict_from_output(output_path: &str, output: &ProcessOutput) -> (verdict: Result<
    String,
    String,
>)
    ensures
        verdict_view(verdict) == verdict_of(output_path@, output@),
        !output.success && valid_utf8(output.stderr@) ==> verdict is Err && contains_text(
            verdict->Err_0@,
            decode_utf8(output.stderr@),
        ),
        !output.success && valid_utf8(output.stdout@) ==> verdict is Err && contains_text(
            verdict->Err_0@,
            decode_utf8(output.stdout@),
        ),
{
    let stderr = decode_lossy(output.stderr.as_slice());
    let stdout = decode_lossy(output.stdout.as_slice());
    proof {
        lemma_tool_failure_holds_both_streams(stderr@, stdout@);
    }
    verdict_from_text(output_path, output.success, stderr.as_str(), stdout.as_str())
}

} // verus!
