//! The texts that the command reports to its caller.
//!
//! Each text has a spec function that says what it is, character for
//! character, and an executable builder that is proved to produce it.

use vstd::prelude::*;
use vstd::string::*;

verus! {

/// The report of a failed write of the input file: a fixed lead and the
/// cause as the system worded it.
pub open spec fn write_failure_text(cause: Seq<char>) -> Seq<char> {
    "Failed to write temp file: "@ + cause
}

/// The report of a Perl that cannot be started at all.
pub open spec fn interpreter_missing_text() -> Seq<char> {
    "Perl is not installed or not in PATH. Please install Perl to generate PDFs."@
}

/// The report of an input file whose path has no textual form.
pub open spec fn invalid_input_path_text() -> Seq<char> {
    "Invalid temp file path"@
}

/// The report of a generation run that could not be started: a fixed lead
/// and the cause as the system worded it.
pub open spec fn spawn_failure_text(cause: Seq<char>) -> Seq<char> {
    "Failed to execute chordpro: "@ + cause
}

/// The report of a generation run that ended in failure: what the run wrote
/// to its error stream, then what it wrote to its output stream, each under
/// its own heading.
pub open spec fn tool_failure_text(stderr: Seq<char>, stdout: Seq<char>) -> Seq<char> {
    "ChordPro error:\nStderr: "@ + stderr + "\nStdout: "@ + stdout
}

/// The report of a PDF that was generated: a fixed lead and the path it was
/// written to.
pub open spec fn success_text(output_path: Seq<char>) -> Seq<char> {
    "PDF generated successfully at: "@ + output_path
}

/// `needle` occurs in `text` as one unbroken run of characters.
pub open spec fn contains_text(text: Seq<char>, needle: Seq<char>) -> bool {
    exists|at: int|
        0 <= at && at + needle.len() <= text.len() && #[trigger] text.subrange(
            at,
            at + needle.len(),
        ) == needle
}

/// Builds the report of a failed write of the input file.
pub fn write_failure_message(cause: &str) -> (text: String)
    ensures
        text@ == write_failure_text(cause@),
{
    let mut text = String::from_str("Failed to write temp file: ");
    text.append(cause);
    text
}

/// Builds the report of a Perl that cannot be started.
pub fn interpreter_missing_message() -> (text: String)
    ensures
        text@ == interpreter_missing_text(),
{
    String::from_str("Perl is not installed or not in PATH. Please install Perl to generate PDFs.")
}

/// Builds the report of an input file whose path has no textual form.
pub fn invalid_input_path_message() -> (text: String)
    ensures
        text@ == invalid_input_path_text(),
{
    String::from_str("Invalid temp file path")
}

/// Builds the report of a generation run that could not be started.
pub fn spawn_failure_message(cause: &str) -> (text: String)
    ensures
        text@ == spawn_failure_text(cause@),
{
    let mut text = String::from_str("Failed to execute chordpro: ");
    text.append(cause);
    text
}

/// Builds the report of a generation run that ended in failure, from its
/// two streams as text.
pub fn tool_failure_message(stderr: &str, stdout: &str) -> (text: String)
    ensures
        text@ == tool_failure_text(stderr@, stdout@),
{
    let mut text = String::from_str("ChordPro error:\nStderr: ");
    text.append(stderr);
    text.append("\nStdout: ");
    text.append(stdout);
    text
}

/// Builds the report of a PDF that was generated at `output_path`.
pub fn success_message(output_path: &str) -> (text: String)
    ensures
        text@ == success_text(output_path@),
{
    let mut text = String::from_str("PDF generated successfully at: ");
    text.append(output_path);
    text
}

/// A text occurs in any text built by putting something before it and
/// something after it.
pub proof fn lemma_contains_middle(before: Seq<char>, needle: Seq<char>, after: Seq<char>)
    ensures
        contains_text(before + needle + after, needle),
{
    let text = before + needle + after;
    let at = before.len() as int;
    assert(text.subrange(at, at + needle.len()) =~= needle);
}

/// The report of a failed generation run holds, unaltered, both what the
/// run wrote to its error stream and what it wrote to its output stream.
pub proof fn lemma_tool_failure_holds_both_streams(stderr: Seq<char>, stdout: Seq<char>)
    ensures
        contains_text(tool_failure_text(stderr, stdout), stderr),
        contains_text(tool_failure_text(stderr, stdout), stdout),
{
    let lead = "ChordPro error:\nStderr: "@;
    let middle = "\nStdout: "@;
    let text = tool_failure_text(stderr, stdout);
    lemma_contains_middle(lead, stderr, middle + stdout);
    assert(text =~= lead + stderr + (middle + stdout));
    lemma_contains_middle(lead + stderr + middle, stdout, Seq::empty());
    assert(text =~= lead + stderr + middle + stdout + Seq::<char>::empty());
}

/// The report of a generated PDF holds the output path, unaltered.
pub proof fn lemma_success_holds_output_path(output_path: Seq<char>)
    ensures
        contains_text(success_text(output_path), output_path),
{
    let lead = "PDF generated successfully at: "@;
    lemma_contains_middle(lead, output_path, Seq::empty());
    assert(success_text(output_path) =~= lead + output_path + Seq::<char>::empty());
}

} // verus!
