use vstd::prelude::*;

verus! {

/// The failures this translation layer can surface to its caller.
///
/// Every failure aborts translation of the current frame; none is
/// silently swallowed.
#[derive(Clone, Copy, Debug, PartialEq, Eq, Structural)]
pub enum RenderError {
    /// A pixel buffer whose length does not match its declared
    /// dimensions and channel format, or non-positive dimensions.
    InvalidImageData,
    /// A texture handle that was never registered, or was released.
    UnknownHandle,
    /// A draw command whose index range does not lie within the draw
    /// list's index buffer.
    IndexRangeOutOfBounds,
    /// A recognized draw command kind that this backend does not
    /// implement yet; surfaced loudly rather than skipped.
    UnsupportedCommand,
}

} // verus!
