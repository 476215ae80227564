//! Debugger commands: what the interactive command stream can ask of the
//! emulator thread. The stream itself is the host's; the emulator only
//! consumes the parsed commands.

use vstd::prelude::*;

verus! {

#[allow(non_camel_case_types)]
#[derive(Copy, Clone, Debug, PartialEq, Eq, Structural)]
pub enum DebuggerCommand {
    RUN,
    HALT,
    STEP,
}

} // verus!
