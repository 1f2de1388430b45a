//! Decoder for the btrfs send stream: a little-endian binary protocol that
//! carries an ordered sequence of filesystem mutation commands, each framed as
//! a header plus a tag-length-value attribute body.

pub mod commands;
pub mod definitions;
pub mod laws;
pub mod reader;
pub mod tlv;

pub use reader::{BtrfsReader, Command, CommandHeader, CommandPrintOptions};
pub use tlv::{TLVData, TLVEntry, Timespec, Uuid, UUID_SIZE};

use vstd::prelude::*;

verus! {

/// The ways a decode can fail.  `Unknown` opcodes are not an error; every
/// variant here is terminal for the call that produced it.
#[derive(Clone, Copy, Debug, PartialEq, Eq, Structural)]
pub enum Error {
    /// The stream does not begin with the magic signature.
    FormatError,
    /// The stream version is not the one supported value.
    UnsupportedVersion,
    /// The stream ended in the middle of a header, a body, or the magic.
    TruncatedStream,
    /// The TLV entries disagree with the declared body length.
    FramingError,
    /// A mandatory attribute (named by its key) is absent for a known opcode.
    MissingAttribute(u16),
    /// An attribute value is shorter than its type requires, or is not UTF-8.
    DecodeError,
}

} // verus!
