//! Decision logic of a desktop command that turns ChordPro song text into a
//! PDF by running the `chordpro` Perl script.
//!
//! The command writes the song text to a file, probes for Perl, runs the
//! script on the file, removes the file and reports what came of it. This
//! crate holds every decision of that course and none of its effects:
//!
//! - [`session`] is the course itself, one decision per event;
//! - [`invocation`] says what is run, and with which arguments;
//! - [`output`] draws the verdict from what the script left behind;
//! - [`message`] holds the texts that are reported;
//! - [`trace`] proves what holds of every run.

pub mod invocation;
pub mod message;
pub mod output;
pub mod session;
pub mod trace;
