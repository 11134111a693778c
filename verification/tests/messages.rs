use chordpro_desktop::invocation::{input_file_name, Invocation};
use chordpro_desktop::message::{
    interpreter_missing_message, invalid_input_path_message, spawn_failure_message,
    success_message, tool_failure_message, write_failure_message,
};
use chordpro_desktop::output::{verdict_from_output, verdict_from_text, ProcessOutput};

#[test]
fn write_failure_quotes_the_cause() {
    assert_eq!(
        write_failure_message("Permission denied (os error 13)"),
        "Failed to write temp file: Permission denied (os error 13)"
    );
    assert_eq!(write_failure_message(""), "Failed to write temp file: ");
}

#[test]
fn interpreter_missing_names_perl() {
    let text = interpreter_missing_message();
    assert_eq!(
        text,
        "Perl is not installed or not in PATH. Please install Perl to generate PDFs."
    );
    assert!(text.contains("not installed"));
}

#[test]
fn invalid_input_path_is_fixed() {
    assert_eq!(invalid_input_path_message(), "Invalid temp file path");
}

#[test]
fn spawn_failure_quotes_the_cause() {
    assert_eq!(
        spawn_failure_message("No such file or directory (os error 2)"),
        "Failed to execute chordpro: No such file or directory (os error 2)"
    );
}

#[test]
fn tool_failure_quotes_both_streams() {
    assert_eq!(
        tool_failure_message("bad chord", "page 1"),
        "ChordPro error:\nStderr: bad chord\nStdout: page 1"
    );
    assert_eq!(tool_failure_message("", ""), "ChordPro error:\nStderr: \nStdout: ");
}

#[test]
fn tool_failure_keeps_line_breaks_of_the_streams() {
    let text = tool_failure_message("line 1\nline 2\n", "out\r\n");
    assert_eq!(text, "ChordPro error:\nStderr: line 1\nline 2\n\nStdout: out\r\n");
    assert!(text.contains("line 1\nline 2\n"));
    assert!(text.contains("out\r\n"));
}

#[test]
fn success_names_the_output_path() {
    assert_eq!(success_message("/tmp/out.pdf"), "PDF generated successfully at: /tmp/out.pdf");
    assert_eq!(success_message(""), "PDF generated successfully at: ");
}

#[test]
fn input_file_has_its_fixed_name() {
    assert_eq!(input_file_name(), "chordpro_input.cho");
}

#[test]
fn probe_asks_perl_for_its_version() {
    let probe = Invocation::probe();
    assert_eq!(probe.program, "perl");
    assert_eq!(probe.args, vec!["--version".to_string()]);
}

#[test]
fn generation_runs_the_script_on_the_input() {
    let run = Invocation::generation("/tmp/out.pdf".to_string(), "/tmp/in.cho".to_string());
    assert_eq!(run.program, "perl");
    assert_eq!(
        run.args,
        vec![
            "D:\\VS Code Projects\\chordpro\\script\\chordpro.pl".to_string(),
            "--output".to_string(),
            "/tmp/out.pdf".to_string(),
            "/tmp/in.cho".to_string(),
        ]
    );
}

#[test]
fn generation_takes_paths_as_they_are() {
    let run = Invocation::generation(String::new(), "dir with space/in.cho".to_string());
    assert_eq!(run.args.len(), 4);
    assert_eq!(run.args[2], "");
    assert_eq!(run.args[3], "dir with space/in.cho");
}

#[test]
fn verdict_from_text_follows_the_status() {
    assert_eq!(
        verdict_from_text("/tmp/out.pdf", true, "warning", "done"),
        Ok("PDF generated successfully at: /tmp/out.pdf".to_string())
    );
    assert_eq!(
        verdict_from_text("/tmp/out.pdf", false, "warning", "done"),
        Err("ChordPro error:\nStderr: warning\nStdout: done".to_string())
    );
}

#[test]
fn verdict_from_output_decodes_valid_streams_as_they_are() {
    let output = ProcessOutput {
        success: false,
        stdout: "caf\u{e9} \u{266b}".as_bytes().to_vec(),
        stderr: b"Unknown chord: H".to_vec(),
    };
    assert_eq!(
        verdict_from_output("/tmp/out.pdf", &output),
        Err("ChordPro error:\nStderr: Unknown chord: H\nStdout: caf\u{e9} \u{266b}".to_string())
    );
}

#[test]
fn verdict_from_output_replaces_invalid_bytes() {
    let output = ProcessOutput {
        success: false,
        stdout: vec![0x80],
        stderr: vec![0x66, 0xff, 0x6f],
    };
    assert_eq!(
        verdict_from_output("/tmp/out.pdf", &output),
        Err("ChordPro error:\nStderr: f\u{fffd}o\nStdout: \u{fffd}".to_string())
    );
}

#[test]
fn verdict_from_output_passes_over_streams_on_success() {
    let output = ProcessOutput { success: true, stdout: vec![0xff], stderr: b"noise".to_vec() };
    assert_eq!(
        verdict_from_output("out.pdf", &output),
        Ok("PDF generated successfully at: out.pdf".to_string())
    );
}
