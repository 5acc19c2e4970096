use vstd::prelude::*;

use crate::error::OverlayError;

verus! {

/// The reference pixel written for the channel-order probe: pure red, in
/// the source convention that stores blue first (B, G, R, A).
pub const PROBE_REFERENCE_PIXEL: [u8; 4] = [0, 0, 255, 255];

/// The channel-order decision for one read-back pixel (R, G, B, A order of
/// the output format): the source order must be swapped when the rendered
/// blue channel is brighter than the rendered red one.
pub open spec fn probe_decision(readback: Seq<u8>) -> bool {
    readback[2] > readback[0]
}

/// What `ensure_resources` must do to reach the requested size.
#[derive(Clone, Copy, Debug, PartialEq, Eq, Structural)]
pub enum ResourcePlan {
    /// The surfaces already exist at this size: nothing is reallocated.
    Keep,
    /// Zero width or height: release the surfaces and allocate nothing.
    Release,
    /// Release the old surfaces and allocate new ones at this size.
    Rebuild,
}

/// Which pixel program the conversion draw uses.
#[derive(Clone, Copy, Debug, PartialEq, Eq, Structural)]
pub enum PixelProgram {
    /// Copies each texel as it is.
    Passthrough,
    /// Swaps the red and blue channels of each texel.
    Swizzle,
}

/// The bookkeeping of a texture converter: which GPU objects exist, at which
/// size, and what the channel-order probe found. The GPU objects themselves
/// are owned by the host beside this state and follow its transitions.
#[derive(Clone, Copy, Debug, PartialEq, Eq, Structural)]
pub struct ConverterState {
    /// Staging surface, output surface and their two views all exist.
    pub textures_ready: bool,
    pub texture_width: u32,
    pub texture_height: u32,
    /// Vertex program, both pixel programs and the sampler all exist.
    pub shaders_ready: bool,
    pub channel_probe_done: bool,
    pub swap_rb_required: bool,
}

impl ConverterState {
    /// No partial texture set: surfaces exist exactly when a non-zero size
    /// is recorded; without them both dimensions are zero. A probe result
    /// exists only for a built pipeline.
    pub open spec fn wf(&self) -> bool {
        &&& self.textures_ready ==> self.texture_width > 0 && self.texture_height > 0
        &&& !self.textures_ready ==> self.texture_width == 0 && self.texture_height == 0
        &&& self.channel_probe_done ==> self.shaders_ready
    }

    /// The plan that `ensure_resources(width, height)` follows from this state.
    pub open spec fn spec_plan(&self, width: u32, height: u32) -> ResourcePlan {
        if self.textures_ready && self.texture_width == width && self.texture_height == height {
            ResourcePlan::Keep
        } else if width == 0 || height == 0 {
            ResourcePlan::Release
        } else {
            ResourcePlan::Rebuild
        }
    }

    /// The state once the texture set was released.
    pub open spec fn without_textures(self) -> ConverterState {
        ConverterState { textures_ready: false, texture_width: 0, texture_height: 0, ..self }
    }

    /// The state once a complete texture set exists at this size.
    pub open spec fn with_textures(self, width: u32, height: u32) -> ConverterState {
        ConverterState {
            textures_ready: true,
            texture_width: width,
            texture_height: height,
            ..self
        }
    }

    /// The state once a new pipeline was built, before its probe.
    pub open spec fn with_new_shaders(self) -> ConverterState {
        ConverterState { shaders_ready: true, channel_probe_done: false, ..self }
    }

    /// The state once the probe of the current pipeline read `readback`.
    pub open spec fn probed(self, readback: Seq<u8>) -> ConverterState {
        ConverterState {
            channel_probe_done: true,
            swap_rb_required: probe_decision(readback),
            ..self
        }
    }

    /// The state after `ensure_resources(width, height)` succeeded.
    pub open spec fn ensured(self, width: u32, height: u32) -> ConverterState {
        match self.spec_plan(width, height) {
            ResourcePlan::Keep => self,
            ResourcePlan::Release => self.without_textures(),
            ResourcePlan::Rebuild => self.with_textures(width, height),
        }
    }

    /// A converter with no GPU objects yet.
    pub fn new() -> (r: ConverterState)
        ensures
            r.wf(),
            !r.textures_ready,
            !r.shaders_ready,
            !r.channel_probe_done,
            !r.swap_rb_required,
    {
        ConverterState {
            textures_ready: false,
            texture_width: 0,
            texture_height: 0,
            shaders_ready: false,
            channel_probe_done: false,
            swap_rb_required: false,
        }
    }

    /// Forgets the texture set: all surfaces and views are released together.
    pub fn reset_texture(&mut self)
        ensures
            *final(self) == old(self).without_textures(),
            old(self).wf() ==> final(self).wf(),
    {
        self.textures_ready = false;
        self.texture_width = 0;
        self.texture_height = 0;
    }

    /// Decides how to bring the surfaces to `width` x `height`. Matching
    /// surfaces are kept; a zero dimension is a request to deallocate; any
    /// other change rebuilds the whole set.
    pub fn plan_resources(&self, width: u32, height: u32) -> (r: ResourcePlan)
        ensures
            r == self.spec_plan(width, height),
    {
        if self.textures_ready && self.texture_width == width && self.texture_height == height {
            ResourcePlan::Keep
        } else if width == 0 || height == 0 {
            ResourcePlan::Release
        } else {
            ResourcePlan::Rebuild
        }
    }

    /// Records that a complete set of surfaces now exists at this size.
    pub fn textures_created(&mut self, width: u32, height: u32)
        requires
            width > 0,
            height > 0,
        ensures
            *final(self) == old(self).with_textures(width, height),
            old(self).wf() ==> final(self).wf(),
    {
        self.textures_ready = true;
        self.texture_width = width;
        self.texture_height = height;
    }

    pub open spec fn shaders_need_build_spec(&self) -> bool {
        !(self.shaders_ready && self.channel_probe_done)
    }

    /// Whether the pipeline must be (re)built before use: it is built and
    /// probed once, then reused.
    pub fn shaders_need_build(&self) -> (r: bool)
        ensures
            r == self.shaders_need_build_spec(),
    {
        !(self.shaders_ready && self.channel_probe_done)
    }

    /// Records a freshly built pipeline. Its channel order is not known
    /// until the probe of this build is recorded.
    pub fn shaders_created(&mut self)
        ensures
            *final(self) == old(self).with_new_shaders(),
            old(self).wf() ==> final(self).wf(),
    {
        self.shaders_ready = true;
        self.channel_probe_done = false;
    }

    /// Records the probe of the current pipeline from the read-back pixel.
    pub fn record_probe(&mut self, readback: [u8; 4])
        requires
            old(self).shaders_ready,
        ensures
            *final(self) == old(self).probed(readback@),
            old(self).wf() ==> final(self).wf(),
    {
        self.swap_rb_required = probe_requires_swap(&readback);
        self.channel_probe_done = true;
    }

    /// The pixel program for a conversion draw, or the missing precondition.
    pub fn convert_program(&self) -> (r: Result<PixelProgram, OverlayError>)
        ensures
            !self.textures_ready ==> r == Err::<PixelProgram, OverlayError>(
                OverlayError::TexturesNotReady,
            ),
            self.textures_ready && !self.shaders_ready ==> r == Err::<PixelProgram, OverlayError>(
                OverlayError::ShadersNotReady,
            ),
            self.textures_ready && self.shaders_ready && self.swap_rb_required ==> r == Ok::<
                PixelProgram,
                OverlayError,
            >(PixelProgram::Swizzle),
            self.textures_ready && self.shaders_ready && !self.swap_rb_required ==> r == Ok::<
                PixelProgram,
                OverlayError,
            >(PixelProgram::Passthrough),
    {
        if !self.textures_ready {
            return Err(OverlayError::TexturesNotReady);
        }
        if !self.shaders_ready {
            return Err(OverlayError::ShadersNotReady);
        }
        if self.swap_rb_required {
            Ok(PixelProgram::Swizzle)
        } else {
            Ok(PixelProgram::Passthrough)
        }
    }
}

/// Reads the probe's answer off the rendered pixel (R, G, B, A order).
pub fn probe_requires_swap(readback: &[u8; 4]) -> (r: bool)
    ensures
        r == probe_decision(readback@),
{
    readback[2] > readback[0]
}

/// Ensuring the same size twice reallocates nothing the second time:
/// the surfaces are kept (or, for a zero size, stay released). Ensuring
/// any other non-zero size afterwards always rebuilds them.
pub proof fn lemma_ensure_idempotent(s: ConverterState, width: u32, height: u32, width2: u32, height2: u32)
    requires
        s.wf(),
    ensures
        s.ensured(width, height).wf(),
        s.ensured(width, height).spec_plan(width, height) != ResourcePlan::Rebuild,
        width > 0 && height > 0 ==> s.ensured(width, height).spec_plan(width, height)
            == ResourcePlan::Keep,
        s.ensured(width, height).ensured(width, height) == s.ensured(width, height),
        (width2 != width || height2 != height) && width2 > 0 && height2 > 0 ==> s.ensured(
            width,
            height,
        ).spec_plan(width2, height2) == ResourcePlan::Rebuild,
{
}

/// The channel-order fact is a function of the read-back pixel alone, and
/// once probed it stays fixed for the life of the pipeline: no texture
/// resizing changes it, and the pipeline is not rebuilt or re-probed.
pub proof fn lemma_probe_stable(
    s: ConverterState,
    t: ConverterState,
    readback: Seq<u8>,
    width: u32,
    height: u32,
)
    requires
        s.shaders_ready,
        t.shaders_ready,
    ensures
        s.probed(readback).swap_rb_required == t.probed(readback).swap_rb_required,
        s.probed(readback).swap_rb_required == probe_decision(readback),
        !s.probed(readback).ensured(width, height).shaders_need_build_spec(),
        s.probed(readback).ensured(width, height).swap_rb_required == probe_decision(readback),
{
}

} // verus!
