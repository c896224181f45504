use vstd::prelude::*;

verus! {

/// Construction-time contract violations and table-scan failures.
///
/// Every failing operation in this crate reports which precondition of the
/// wire specification was violated; nothing is clamped or truncated
/// silently.
#[derive(Clone, Copy, Debug, PartialEq, Eq, Structural)]
pub enum Error {
    /// An encoding symbol id does not fit in its 24-bit wire field.
    SymbolIdTooLarge,
    /// A transfer length exceeds the 40-bit wire ceiling.
    TransferLengthTooLarge,
    /// A symbol size is not a multiple of the symbol alignment.
    SymbolSizeNotAligned,
    /// A maximum packet size is smaller than the symbol alignment.
    PacketSizeTooSmall,
    /// No row of the systematic table satisfies the per-block memory
    /// bound for the requested sub-blocking.
    NoFittingRow,
    /// The derived number of source blocks does not fit in its 8-bit
    /// wire field.
    TooManySourceBlocks,
    /// A supplied constants table violates the shape the specification
    /// demands of it.
    MalformedConstants,
}

} // verus!
