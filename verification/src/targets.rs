//! Render targets, occlusion queries and the device's per-stage sampler
//! and texture slots: the requests XNA accepts, how the runtime's answers
//! are read back, the query's `Begin`/`End` protocol, and the slot caches.

#![allow(non_snake_case)]

use vstd::prelude::*;

use crate::error::{CnaError, InputError, Unsupported};
use crate::kinds::{CubeMapFace, DepthFormat, NativeEnumValue, RenderTargetUsage, SurfaceFormat};
use crate::resource::{ResourceKind, ResourceState, ResourceView};

verus! {

/// Checks a 2D render-target request: positive size, non-negative
/// multisampling.
pub fn check_render_target_2d(width: i32, height: i32, multi_sample_count: i32) -> (r: Result<(), CnaError>)
    ensures
        (width <= 0 || height <= 0 || multi_sample_count < 0) ==> r == Err::<(), CnaError>(
            CnaError::InvalidInput(InputError::RenderTargetRequestInvalid),
        ),
        !(width <= 0 || height <= 0 || multi_sample_count < 0) ==> r is Ok,
{
    if width <= 0 || height <= 0 || multi_sample_count < 0 {
        return Err(CnaError::InvalidInput(InputError::RenderTargetRequestInvalid));
    }
    Ok(())
}

/// Checks a cube render-target request: positive size, non-negative
/// multisampling.
pub fn check_render_target_cube(size: i32, multi_sample_count: i32) -> (r: Result<(), CnaError>)
    ensures
        (size <= 0 || multi_sample_count < 0) ==> r == Err::<(), CnaError>(
            CnaError::InvalidInput(InputError::RenderTargetCubeRequestInvalid),
        ),
        !(size <= 0 || multi_sample_count < 0) ==> r is Ok,
{
    if size <= 0 || multi_sample_count < 0 {
        return Err(CnaError::InvalidInput(InputError::RenderTargetCubeRequestInvalid));
    }
    Ok(())
}

/// What the runtime reports of a render target.
#[derive(Clone, Copy, Debug, PartialEq, Eq, Structural)]
pub struct NativeRenderTargetInfo {
    pub kind: u32,
    pub width: u32,
    pub height: u32,
    pub level_count: u32,
    pub format: u32,
    pub depth_format: u32,
    pub multi_sample_count: i32,
    pub usage: u32,
    pub is_content_lost: u8,
    pub renderer_available: u8,
}

/// A render target's description, read back.
#[derive(Clone, Copy, Debug, PartialEq, Eq, Structural)]
pub struct RenderTargetInfo {
    pub width: i32,
    pub height: i32,
    pub level_count: i32,
    pub format: SurfaceFormat,
    pub depth_format: DepthFormat,
    pub multi_sample_count: i32,
    pub usage: RenderTargetUsage,
    pub is_content_lost: bool,
    pub renderer_available: bool,
}

/// The surface format of a render target the runtime reported.
pub fn surface_format(value: u32) -> (r: Result<SurfaceFormat, CnaError>)
    ensures
        r == match SurfaceFormat::spec_from_native(value) {
            Some(f) => Ok::<SurfaceFormat, CnaError>(f),
            None => Err(CnaError::InvalidInput(InputError::RenderTargetFormatUnknown)),
        },
{
    match SurfaceFormat::from_native_value(value) {
        Some(format) => Ok(format),
        None => Err(CnaError::InvalidInput(InputError::RenderTargetFormatUnknown)),
    }
}

/// The depth format of a render target the runtime reported.
pub fn depth_format(value: u32) -> (r: Result<DepthFormat, CnaError>)
    ensures
        r == match DepthFormat::spec_from_native(value) {
            Some(f) => Ok::<DepthFormat, CnaError>(f),
            None => Err(CnaError::InvalidInput(InputError::RenderTargetDepthFormatUnknown)),
        },
{
    match DepthFormat::from_native_value(value) {
        Some(format) => Ok(format),
        None => Err(CnaError::InvalidInput(InputError::RenderTargetDepthFormatUnknown)),
    }
}

/// The usage of a render target the runtime reported.
pub fn render_target_usage(value: u32) -> (r: Result<RenderTargetUsage, CnaError>)
    ensures
        r == match RenderTargetUsage::spec_from_native(value) {
            Some(u) => Ok::<RenderTargetUsage, CnaError>(u),
            None => Err(CnaError::InvalidInput(InputError::RenderTargetUsageUnknown)),
        },
{
    match RenderTargetUsage::from_native_value(value) {
        Some(usage) => Ok(usage),
        None => Err(CnaError::InvalidInput(InputError::RenderTargetUsageUnknown)),
    }
}

/// Reads back what the runtime reported of a render target: it must be of
/// the expected kind with a non-empty size, and every number must name a
/// member, checked in the order format, depth format, usage.
pub fn target_info(info: NativeRenderTargetInfo, expected_kind: u32) -> (r: Result<RenderTargetInfo, CnaError>)
    ensures
        (info.kind != expected_kind || info.width == 0 || info.height == 0) ==> r == Err::<RenderTargetInfo, CnaError>(
            CnaError::InvalidInput(InputError::RenderTargetIdentityInvalid),
        ),
        !(info.kind != expected_kind || info.width == 0 || info.height == 0) ==> match (
            SurfaceFormat::spec_from_native(info.format),
            DepthFormat::spec_from_native(info.depth_format),
            RenderTargetUsage::spec_from_native(info.usage),
        ) {
            (None, _, _) => r == Err::<RenderTargetInfo, CnaError>(CnaError::InvalidInput(InputError::RenderTargetFormatUnknown)),
            (Some(_), None, _) => r == Err::<RenderTargetInfo, CnaError>(
                CnaError::InvalidInput(InputError::RenderTargetDepthFormatUnknown),
            ),
            (Some(_), Some(_), None) => r == Err::<RenderTargetInfo, CnaError>(
                CnaError::InvalidInput(InputError::RenderTargetUsageUnknown),
            ),
            (Some(f), Some(d), Some(u)) => r == Ok::<RenderTargetInfo, CnaError>(RenderTargetInfo {
                width: info.width as i32,
                height: info.height as i32,
                level_count: info.level_count as i32,
                format: f,
                depth_format: d,
                multi_sample_count: info.multi_sample_count,
                usage: u,
                is_content_lost: info.is_content_lost != 0,
                renderer_available: info.renderer_available != 0,
            }),
        },
{
    if info.kind != expected_kind || info.width == 0 || info.height == 0 {
        return Err(CnaError::InvalidInput(InputError::RenderTargetIdentityInvalid));
    }
    let format = surface_format(info.format)?;
    let depth = depth_format(info.depth_format)?;
    let usage = render_target_usage(info.usage)?;
    Ok(RenderTargetInfo {
        width: info.width as i32,
        height: info.height as i32,
        level_count: info.level_count as i32,
        format,
        depth_format: depth,
        multi_sample_count: info.multi_sample_count,
        usage,
        is_content_lost: info.is_content_lost != 0,
        renderer_available: info.renderer_available != 0,
    })
}

/// Whether two render-target bindings are equal: the same target handle,
/// as each answers it, and the same cube face.
pub fn bindings_equal(a_handle: Option<u64>, a_face: CubeMapFace, b_handle: Option<u64>, b_face: CubeMapFace) -> (r: bool)
    ensures
        r == (a_handle == b_handle && a_face == b_face),
{
    a_handle == b_handle && a_face == b_face
}

/// Owned native XNA occlusion query.
pub struct OcclusionQuery {
    state: ResourceState,
}

impl View for OcclusionQuery {
    type V = ResourceView;

    closed spec fn view(&self) -> ResourceView {
        self.state@
    }
}

impl OcclusionQuery {
    /// A query for a freshly created native query, not begun.
    pub fn new(handle: u64) -> (r: Self)
        ensures
            r@.handle == handle,
            r@.kind == ResourceKind::OcclusionQuery,
            !r@.active,
    {
        OcclusionQuery { state: ResourceState::new(handle, ResourceKind::OcclusionQuery, false) }
    }

    /// The check before `Begin`: a query begins once.
    pub fn begin_check(&self) -> (r: Result<(), CnaError>)
        ensures
            self@.active ==> r == Err::<(), CnaError>(CnaError::InvalidInput(InputError::QueryBegunTwice)),
            !self@.active ==> r is Ok,
    {
        if self.state.is_active() {
            return Err(CnaError::InvalidInput(InputError::QueryBegunTwice));
        }
        Ok(())
    }

    /// Records the runtime's answer to `Begin`.
    pub fn finish_begin(&mut self, native: Result<(), CnaError>) -> (r: Result<(), CnaError>)
        ensures
            r == native,
            final(self)@ == (ResourceView { active: old(self)@.active || native is Ok, ..old(self)@ }),
    {
        if native.is_ok() {
            self.state.set_active(true);
        }
        native
    }

    /// The check before `End`: only a begun query ends.
    pub fn end_check(&self) -> (r: Result<(), CnaError>)
        ensures
            !self@.active ==> r == Err::<(), CnaError>(CnaError::InvalidInput(InputError::QueryNotBegun)),
            self@.active ==> r is Ok,
    {
        if !self.state.is_active() {
            return Err(CnaError::InvalidInput(InputError::QueryNotBegun));
        }
        Ok(())
    }

    /// Records the runtime's answer to `End`.
    pub fn finish_end(&mut self, native: Result<(), CnaError>) -> (r: Result<(), CnaError>)
        ensures
            r == native,
            final(self)@ == (ResourceView { active: old(self)@.active && native is Err, ..old(self)@ }),
    {
        if native.is_ok() {
            self.state.set_active(false);
        }
        native
    }

    /// XNA `OcclusionQuery.IsComplete`: a query still begun is not
    /// complete; otherwise the runtime answers (`None` asks the caller to
    /// ask it).
    pub fn IsComplete(&self) -> (r: Option<bool>)
        ensures
            self@.active ==> r == Some(false),
            !self@.active ==> r is None,
    {
        if self.state.is_active() {
            return Some(false);
        }
        None
    }

    /// The check before reading `PixelCount`: a begun query has none yet.
    pub fn pixel_count_check(&self) -> (r: Result<(), CnaError>)
        ensures
            self@.active ==> r == Err::<(), CnaError>(CnaError::InvalidInput(InputError::QueryPixelCountActive)),
            !self@.active ==> r is Ok,
    {
        if self.state.is_active() {
            return Err(CnaError::InvalidInput(InputError::QueryPixelCountActive));
        }
        Ok(())
    }
}

/// The two shader stages a device has slots for.
#[derive(Clone, Copy, Debug, PartialEq, Eq, Structural)]
pub enum ShaderStage {
    Pixel,
    Vertex,
}

impl ShaderStage {
    /// Whether this is the vertex stage.
    pub fn is_vertex(self) -> (r: bool)
        ensures
            r == (self == ShaderStage::Vertex),
    {
        match self {
            ShaderStage::Vertex => true,
            ShaderStage::Pixel => false,
        }
    }
}

/// The kinds of slot collection, which differ only in the range error.
#[derive(Clone, Copy, Debug, PartialEq, Eq, Structural)]
pub enum SlotKind {
    Sampler,
    Texture,
}

/// The checked slot index of a collection of `limit` slots, and the same
/// index in the runtime's numbering.
pub fn checked_index(value: i32, limit: u32, kind: SlotKind) -> (r: Result<(usize, u32), CnaError>)
    ensures
        value < 0 ==> r == Err::<(usize, u32), CnaError>(CnaError::InvalidInput(InputError::SlotIndexNegative)),
        0 <= value && value >= limit ==> r == Err::<(usize, u32), CnaError>(CnaError::InvalidInput(
            match kind {
                SlotKind::Sampler => InputError::SamplerIndexOutside,
                SlotKind::Texture => InputError::TextureIndexOutside,
            },
        )),
        0 <= value < limit ==> r == Ok::<(usize, u32), CnaError>((value as usize, value as u32)),
{
    if value < 0 {
        return Err(CnaError::InvalidInput(InputError::SlotIndexNegative));
    }
    if value as u32 >= limit {
        return Err(CnaError::InvalidInput(
            match kind {
                SlotKind::Sampler => InputError::SamplerIndexOutside,
                SlotKind::Texture => InputError::TextureIndexOutside,
            },
        ));
    }
    Ok((value as usize, value as u32))
}

/// The sampler states a device stage holds, as far as they were read or
/// set: one place per slot.
pub struct SamplerSlotCache<T> {
    cached: Vec<Option<T>>,
}

impl<T> View for SamplerSlotCache<T> {
    type V = Seq<Option<T>>;

    closed spec fn view(&self) -> Seq<Option<T>> {
        self.cached@
    }
}

impl<T: Clone> SamplerSlotCache<T> {
    /// A cache of `limit` empty slots.
    pub fn new(limit: u32) -> (r: Self)
        ensures
            r@ == Seq::new(limit as nat, |i: int| None::<T>),
    {
        let mut cached: Vec<Option<T>> = Vec::new();
        let mut i: u32 = 0;
        while i < limit
            invariant
                i <= limit,
                cached@ == Seq::new(i as nat, |j: int| None::<T>),
            decreases limit - i,
        {
            cached.push(None);
            i = i + 1;
            assert(cached@ =~= Seq::new(i as nat, |j: int| None::<T>));
        }
        SamplerSlotCache { cached }
    }

    /// The state cached in a slot, cloned; `None` asks the caller to read it
    /// from the runtime and `keep` it.
    pub fn cached(&self, index: usize) -> (r: Option<T>)
        requires
            index < self@.len(),
        ensures
            r is Some <==> self@[index as int] is Some,
            r matches Some(v) ==> cloned(self@[index as int]->0, v),
    {
        match &self.cached[index] {
            Some(value) => Some(value.clone()),
            None => None,
        }
    }

    /// Keeps a state read from the runtime, unless the slot was filled in
    /// the meantime; answers what the slot holds, cloned.
    pub fn keep(&mut self, index: usize, value: T) -> (r: T)
        requires
            index < old(self)@.len(),
        ensures
            old(self)@[index as int] is Some ==> final(self)@ == old(self)@ && cloned(old(self)@[index as int]->0, r),
            old(self)@[index as int] is None ==> final(self)@ == old(self)@.update(index as int, Some(value)) && cloned(value, r),
    {
        match &self.cached[index] {
            Some(existing) => existing.clone(),
            None => {
                let copy = value.clone();
                self.cached.set(index, Some(value));
                copy
            },
        }
    }

    /// Records a state the runtime accepted for a slot.
    pub fn set(&mut self, index: usize, value: T)
        requires
            index < old(self)@.len(),
        ensures
            final(self)@ == old(self)@.update(index as int, Some(value)),
    {
        self.cached.set(index, Some(value));
    }
}

/// A texture slot's state as the runtime reports it.
#[derive(Clone, Copy, Debug, PartialEq, Eq, Structural)]
pub struct NativeTextureSlot {
    pub bound: bool,
    pub texture: u64,
}

/// The texture a slot reads as: none when unbound; a bound slot must name
/// a handle, and a texture the device recorded for it.
pub fn texture_slot_outcome<T>(slot: NativeTextureSlot, cached: Option<T>) -> (r: Result<Option<T>, CnaError>)
    ensures
        !slot.bound ==> r == Ok::<Option<T>, CnaError>(None),
        slot.bound && slot.texture == 0 ==> r == Err::<Option<T>, CnaError>(
            CnaError::UnsupportedRuntime(Unsupported::TextureWithoutHandle),
        ),
        slot.bound && slot.texture != 0 && cached is None ==> r == Err::<Option<T>, CnaError>(
            CnaError::UnsupportedRuntime(Unsupported::TextureNotReconstructible),
        ),
        slot.bound && slot.texture != 0 && cached is Some ==> r == Ok::<Option<T>, CnaError>(cached),
{
    if !slot.bound {
        return Ok(None);
    }
    if slot.texture == 0 {
        return Err(CnaError::UnsupportedRuntime(Unsupported::TextureWithoutHandle));
    }
    match cached {
        Some(value) => Ok(Some(value)),
        None => Err(CnaError::UnsupportedRuntime(Unsupported::TextureNotReconstructible)),
    }
}

} // verus!
