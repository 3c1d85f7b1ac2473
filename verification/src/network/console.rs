//! A channel that ends on the console.
use vstd::prelude::*;
use vstd::string::StringExecFns;

verus! {

/// The text that `String::from_utf8_lossy` makes of bytes: the text that the
/// bytes encode in UTF-8, with U+FFFD in the place of whatever encodes
/// nothing.
pub uninterp spec fn utf8_lossy(bytes: Seq<u8>) -> Seq<char>;

/// Reads bytes as text, by `String::from_utf8_lossy`. The result is a
/// function of the bytes alone; the contract gives it its name and says no
/// more of it.
#[verifier::external_body]
fn lossy_text(data: &[u8]) -> (text: String)
    ensures
        text@ == utf8_lossy(data@),
{
    String::from_utf8_lossy(data).into_owned()
}

/// A communicator that shows what it is given on the console, one line for
/// each message. It is meant for trying things out without a network.
#[derive(Debug, Clone, Copy, PartialEq, Eq, Structural)]
pub struct ConsoleCommunicator;

/// A message as the console shows it.
pub open spec fn console_line(text: Seq<char>) -> Seq<char> {
    "[CONSOLE] "@ + text
}

impl ConsoleCommunicator {
    /// A console communicator.
    pub fn new() -> (console: Self)
        ensures
            console == ConsoleCommunicator,
    {
        ConsoleCommunicator
    }

    /// The line that shows a message given as text.
    pub fn line_of(text: &str) -> (line: String)
        ensures
            line@ == console_line(text@),
    {
        let mut line = String::from_str("[CONSOLE] ");
        line.append(text);
        line
    }

    /// The line that shows a message given as bytes.
    pub fn line(data: &[u8]) -> (line: String)
        ensures
            line@ == console_line(utf8_lossy(data@)),
    {
        let text = lossy_text(data);
        Self::line_of(text.as_str())
    }
}

} // verus!
