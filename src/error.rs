use vstd::prelude::*;

verus! {

/// Every failure that the verified core reports. Runtime and GPU failures
/// are reported by the host with the collaborator's own error text.
#[derive(Clone, Copy, Debug, PartialEq, Eq, Structural)]
pub enum OverlayError {
    /// An overlay handle given by the host was negative.
    NegativeHandle,
    /// An overlay handle from the runtime does not fit in an `i64`.
    HandleOutOfRange,
    /// `width * height * 4` does not fit in `usize`.
    FrameTooLarge,
    /// `width * 4` does not fit in `usize`.
    RowPitchTooLarge,
    /// A pixel buffer does not hold exactly `width * height * 4` bytes.
    BufferSizeMismatch { expected: usize, actual: usize },
    /// `height * row_pitch` does not fit in `usize`.
    SourceSizeOverflow,
    /// A pixel buffer is shorter than `height * row_pitch`.
    SourceBufferTooSmall { required: usize, actual: usize },
    /// A source row pitch is shorter than one row of pixels.
    RowPitchTooSmall,
    /// The staging or output surfaces have not been created.
    TexturesNotReady,
    /// The shader pipeline has not been built.
    ShadersNotReady,
    /// The mapped staging surface has a row pitch below the source's.
    MappedPitchTooSmall,
    /// The mapped staging surface is shorter than its rows.
    MappedRegionTooSmall,
    /// Controller input was used before its action handles were looked up.
    InputNotInitialized,
    /// A tracked-device index is not below the runtime's device count.
    InvalidDeviceIndex,
    /// A matrix did not hold sixteen elements.
    MatrixLength { len: usize },
    /// A vector did not hold three elements.
    VectorLength { len: usize },
    /// Text handed to the runtime holds a NUL byte.
    ContainsNul,
}

} // verus!
