//! Messages from a streamed external command.
use vstd::prelude::*;

verus! {

/// A line of output, or the exit code once the command has finished.
pub enum AppEvent {
    OutputLine(String),
    CommandFinished(i32),
}

} // verus!
