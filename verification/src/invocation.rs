//! The two runs of Perl that the command asks for: the probe that shows
//! whether Perl can be started, and the generation run itself.

use vstd::prelude::*;
use vstd::string::*;

verus! {

/// The program that both runs start.
pub open spec fn interpreter_text() -> Seq<char> {
    "perl"@
}

/// Where the `chordpro` script lies. The place is fixed; nothing looks
/// whether the script is there.
pub open spec fn script_path_text() -> Seq<char> {
    "D:\\VS Code Projects\\chordpro\\script\\chordpro.pl"@
}

/// The name of the input file inside the system's directory for temporary
/// files.
pub open spec fn input_file_name_text() -> Seq<char> {
    "chordpro_input.cho"@
}

/// A program to start and the arguments to start it with, in order.
#[derive(Debug, PartialEq, Eq)]
pub struct Invocation {
    pub program: String,
    pub args: Vec<String>,
}

/// [`Invocation`] as the contracts see it.
pub struct InvocationView {
    pub program: Seq<char>,
    pub args: Seq<Seq<char>>,
}

impl View for Invocation {
    type V = InvocationView;

    open spec fn view(&self) -> InvocationView {
        InvocationView { program: self.program@, args: self.args.deep_view() }
    }
}

/// The probe: Perl, asked for its version.
pub open spec fn probe_invocation() -> InvocationView {
    InvocationView { program: interpreter_text(), args: seq!["--version"@] }
}

/// The generation run: Perl on the script, told where to write the PDF,
/// then given the input file.
pub open spec fn generation_invocation(
    output_path: Seq<char>,
    input_path: Seq<char>,
) -> InvocationView {
    InvocationView {
        program: interpreter_text(),
        args: seq![script_path_text(), "--output"@, output_path, input_path],
    }
}

/// The name under which the song text is staged.
pub fn input_file_name() -> (name: String)
    ensures
        name@ == input_file_name_text(),
{
    String::from_str("chordpro_input.cho")
}

impl Invocation {
    /// Builds the probe.
    pub fn probe() -> (invocation: Invocation)
        ensures
            invocation@ == probe_invocation(),
    {
        let mut args: Vec<String> = Vec::new();
        args.push(String::from_str("--version"));
        let invocation = Invocation { program: String::from_str("perl"), args };
        assert(invocation.args.deep_view() =~= seq!["--version"@]);
        invocation
    }

    /// Builds the generation run that writes to `output_path` from the
    /// input file at `input_path`.
    pub fn generation(output_path: String, input_path: String) -> (invocation: Invocation)
        ensures
            invocation@ == generation_invocation(output_path@, input_path@),
    {
        let mut args: Vec<String> = Vec::new();
        args.push(String::from_str("D:\\VS Code Projects\\chordpro\\script\\chordpro.pl"));
        args.push(String::from_str("--output"));
        args.push(output_path);
        args.push(input_path);
        let invocation = Invocation { program: String::from_str("perl"), args };
        assert(invocation.args.deep_view() =~= seq![
            script_path_text(),
            "--output"@,
            output_path@,
            input_path@,
        ]);
        invocation
    }
}

} // verus!
