pub mod frame;
pub mod negotiate;
pub mod relay;
pub mod console;

use vstd::prelude::*;

verus! {

/// Command-line options for the shell tool: the serial port to use and an
/// optional explicit baud rate. When no rate is given, negotiation tries a
/// fixed candidate list instead.
pub struct Options {
    pub port: String,
    pub baudrate: Option<u32>,
}

} // verus!
