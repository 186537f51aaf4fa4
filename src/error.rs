use vstd::prelude::*;

verus! {

/// Why an analysis step could not be completed.
#[derive(Clone, Copy, Debug, PartialEq, Eq, Structural)]
pub enum VmError {
    /// The two instructions at the call site are not `push imm32; call rel32`.
    BadEntrySite,
    /// The VM entry does not yield four distinct 64-bit registers for the four roles.
    AmbiguousAllocation,
    /// Neither `add vip, 4` nor `sub vip, 4` occurs in the VM entry.
    DirectionUnknown,
    /// The decoder produced no valid instruction.
    Unreadable,
    /// An address or a byte range lies outside the mapped image.
    OutOfImage,
    /// A handler grew past the instruction bound.
    HandlerTooLong,
    /// The VIP update pattern of a handler matches no class.
    UnknownClass,
    /// An instruction that the analysis anchors on is absent from the handler.
    PatternNotFound,
    /// A transform of one width was met while emulating a value of another width.
    WidthMismatch,
}

} // verus!
