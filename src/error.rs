use vstd::prelude::*;

verus! {

/// Why an event could not be rendered.
#[derive(Debug, Clone, Copy, PartialEq, Eq, Structural)]
pub enum FormatError {
    /// The sink rejected or failed a write.
    WriteFailed,
    /// The timestamp could not be rendered in its fixed pattern.
    TimestampFormatFailed,
}

} // verus!
