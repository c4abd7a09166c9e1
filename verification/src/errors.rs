//! Domain errors surfaced by the outer driver around the emulator core.

use vstd::prelude::*;

verus! {

/// What can go wrong before emulation starts: the errors never arise inside
/// the interpreter core itself.
#[derive(Debug, PartialEq, Eq)]
pub enum EmulatorError {
    /// No ROM path was given on the command line.
    FilePathNotGiven,
    /// The ROM path does not exist.
    FilePathNotFound(String),
    /// The ROM file could not be opened or read.
    FileCantOpen(String),
    /// The ROM image exceeds the 65 536 bytes of addressable memory.
    RomTooLarge,
}

/// A short descriptive message for each error.
pub fn get_err_msg(err: &EmulatorError) -> (msg: String)
    ensures
        (match err {
            EmulatorError::FilePathNotGiven => msg@ == "File path was not given!"@,
            EmulatorError::FilePathNotFound(s) => msg@ == "File path '"@ + s@
                + "' was not valid!"@,
            EmulatorError::FileCantOpen(s) => msg@ == "Couldn't open file '"@ + s@ + "'!"@,
            EmulatorError::RomTooLarge => msg@ == "ROM image is larger than 65536 bytes!"@,
        }),
{
    match err {
        EmulatorError::FilePathNotGiven => String::from_str("File path was not given!"),
        EmulatorError::FilePathNotFound(s) => {
            let mut msg = String::from_str("File path '");
            msg.append(s.as_str());
            msg.append("' was not valid!");
            msg
        },
        EmulatorError::FileCantOpen(s) => {
            let mut msg = String::from_str("Couldn't open file '");
            msg.append(s.as_str());
            msg.append("'!");
            msg
        },
        EmulatorError::RomTooLarge => String::from_str("ROM image is larger than 65536 bytes!"),
    }
}

} // verus!
