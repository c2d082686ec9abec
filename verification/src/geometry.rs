use vstd::prelude::*;

verus! {

/// Largest width or height the drawing library's GPU backend accepts:
/// render-target dimensions are handed to it as signed 32-bit values.
pub const MAX_GPU_DIMENSION: u32 = 0x7fff_ffff;

/// A window size in physical (device) pixels, as the host window reports it.
#[derive(Clone, Copy, PartialEq, Eq, Structural, Debug)]
pub struct PhysicalSize {
    pub width: u32,
    pub height: u32,
}

impl PhysicalSize {
    /// Both dimensions fit the signed 32-bit width the GPU backend expects.
    pub open spec fn fits_gpu(self) -> bool {
        self.width <= MAX_GPU_DIMENSION && self.height <= MAX_GPU_DIMENSION
    }

    pub fn new(width: u32, height: u32) -> (s: PhysicalSize)
        ensures
            s == (PhysicalSize { width, height }),
    {
        PhysicalSize { width, height }
    }
}

/// The host window's DPI scale factor, held in millionths so that the
/// selection and lifecycle logic stays in integer arithmetic:
/// 1_000_000 stands for a scale of one physical pixel per logical pixel,
/// 2_000_000 for two. The embedder converts the host's floating-point
/// report at the boundary.
#[derive(Clone, Copy, PartialEq, Eq, Structural, Debug)]
pub struct ScaleFactor {
    pub millionths: u64,
}

impl ScaleFactor {
    /// The identity scale: logical and physical pixels coincide.
    pub fn one() -> (s: ScaleFactor)
        ensures
            s.millionths == 1_000_000,
    {
        ScaleFactor { millionths: 1_000_000 }
    }

    pub fn from_millionths(millionths: u64) -> (s: ScaleFactor)
        ensures
            s.millionths == millionths,
    {
        ScaleFactor { millionths }
    }
}

/// Why a queried size or framebuffer value cannot be handed to the GPU
/// backend: the numeric conversion the backend's API forces would not be
/// value-preserving. Surfaced to the caller instead of terminating.
#[derive(Clone, Copy, PartialEq, Eq, Structural, Debug)]
pub enum GlSetupError {
    /// A window dimension exceeds the backend's signed 32-bit range.
    DimensionTooLarge(u32),
    /// The framebuffer binding query returned a negative identifier.
    NegativeFramebufferId(i32),
}

/// A physical dimension in the form the GPU backend takes it: values over
/// `MAX_GPU_DIMENSION` are rejected rather than wrapped.
pub fn gpu_dimension(v: u32) -> (r: Result<i32, GlSetupError>)
    ensures
        v <= MAX_GPU_DIMENSION ==> r == Ok::<i32, GlSetupError>(v as i32),
        v > MAX_GPU_DIMENSION ==> r == Err::<i32, GlSetupError>(GlSetupError::DimensionTooLarge(v)),
{
    if v <= MAX_GPU_DIMENSION {
        Ok(v as i32)
    } else {
        Err(GlSetupError::DimensionTooLarge(v))
    }
}

/// The currently bound framebuffer's identifier in the form the drawing
/// library takes it: the raw signed query result must be non-negative.
pub fn framebuffer_id(raw: i32) -> (r: Result<u32, GlSetupError>)
    ensures
        raw >= 0 ==> r == Ok::<u32, GlSetupError>(raw as u32),
        raw < 0 ==> r == Err::<u32, GlSetupError>(GlSetupError::NegativeFramebufferId(raw)),
{
    if raw >= 0 {
        Ok(raw as u32)
    } else {
        Err(GlSetupError::NegativeFramebufferId(raw))
    }
}

} // verus!
