use vstd::prelude::*;
use crate::frame::ShellDataFrame;
use crate::frame::visible_payload;

verus! {

#[verifier::external_type_specification]
#[verifier::external_body]
pub struct ExStdin(std::io::Stdin);

/// The local console: a handle on the process's standard input, from which
/// the relay reads one line at a time. Standard input and output are
/// process-wide; no teardown is needed.
pub struct MavConsole {
    stdin: std::io::Stdin,
}

impl MavConsole {
    /// Relies on std::io::stdin for the process's standard input handle.
    #[verifier::external_body]
    pub fn new() -> (r: Self) {
        MavConsole { stdin: std::io::stdin() }
    }

    /// Relies on std::io::Stdin::read_line to append one line of input to
    /// the buffer: it reads up to and including the first newline, or to the
    /// end of the stream, so a newline can only be the line's last character.
    /// Which line comes back depends on what is typed, so no more is
    /// promised of its content; `None` reports a read failure.
    #[verifier::external_body]
    fn read_console_line(&self) -> (r: Option<String>)
        ensures
            r matches Some(line) ==> forall|i: int|
                0 <= i < line@.len() - 1 ==> line@[i] != '\n',
    {
        let mut buf = String::new();
        match self.stdin.read_line(&mut buf) {
            Ok(_) => Some(buf),
            Err(_) => None,
        }
    }

    /// Reads one line from the console: everything up to and including the
    /// next newline, which is absent only at the end of the stream, so any
    /// newline in the returned line is its last character. `None` reports a
    /// read failure, which the caller must treat as fatal; the relay has no
    /// recovery path for a dead console.
    pub fn readline(&self) -> (r: Option<String>)
        ensures
            r matches Some(line) ==> forall|i: int|
                0 <= i < line@.len() - 1 ==> line@[i] != '\n',
    {
        self.read_console_line()
    }

    /// The bytes an inbound frame puts on the console: exactly the first
    /// `count` bytes of its payload, never the trailing buffer bytes.
    pub fn handle_data(&self, data: &ShellDataFrame) -> (r: Vec<u8>)
        requires
            data.wf(),
        ensures
            r@ == data.visible(),
            r@.len() == data.count as int,
    {
        visible_payload(data)
    }
}

} // verus!
