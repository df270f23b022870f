//! What a device decides when buffers and render targets are bound and read
//! back: the checks on a new binding, and the cross-check of the runtime's
//! report against the bindings the device recorded.

use vstd::prelude::*;

use crate::error::{CnaError, InputError, NativeFault};
use crate::kinds::{CubeMapFace, NativeEnumValue};
use crate::resource::INVALID_HANDLE;

verus! {

/// The verdict on reading back the bound index buffer: the buffer the
/// device recorded, with its own answer for its handle, against the handle
/// the runtime reports. The recorded buffer is answered when its handle is
/// the runtime's; no buffer when neither has one; anything else means the
/// binding changed behind the device's back.
pub open spec fn spec_index_binding<B>(recorded: Option<(B, Result<u64, CnaError>)>, native_handle: u64) -> Result<
    Option<B>,
    CnaError,
> {
    match recorded {
        Some((buffer, Err(e))) => Err(e),
        Some((buffer, Ok(handle))) => if handle == native_handle {
            Ok(Some(buffer))
        } else {
            Err(CnaError::Native(NativeFault::IndexBindingChangedOutside))
        },
        None => if native_handle == INVALID_HANDLE {
            Ok(None)
        } else {
            Err(CnaError::Native(NativeFault::IndexBindingChangedOutside))
        },
    }
}

/// XNA `GraphicsDevice.Indices`, after the runtime reported its handle.
pub fn index_binding<B>(recorded: Option<(B, Result<u64, CnaError>)>, native_handle: u64) -> (r: Result<Option<B>, CnaError>)
    ensures
        r == spec_index_binding(recorded, native_handle),
{
    match recorded {
        Some((buffer, Err(e))) => Err(e),
        Some((buffer, Ok(handle))) => {
            if handle == native_handle {
                Ok(Some(buffer))
            } else {
                Err(CnaError::Native(NativeFault::IndexBindingChangedOutside))
            }
        },
        None => {
            if native_handle == INVALID_HANDLE {
                Ok(None)
            } else {
                Err(CnaError::Native(NativeFault::IndexBindingChangedOutside))
            }
        },
    }
}

/// The handle XNA `GraphicsDevice.Indices` assignment hands the runtime: the
/// invalid handle to unbind, or the buffer's handle when it belongs to the
/// device (`buffer` holds that answer and the buffer's own answer for its
/// handle).
pub fn index_handle_to_bind(buffer: Option<(bool, Result<u64, CnaError>)>) -> (r: Result<u64, CnaError>)
    ensures
        buffer is None ==> r == Ok::<u64, CnaError>(INVALID_HANDLE),
        buffer matches Some((same_device, handle)) ==> r == if !same_device {
            Err::<u64, CnaError>(CnaError::InvalidInput(InputError::IndexBufferOtherDevice))
        } else {
            handle
        },
{
    match buffer {
        None => Ok(INVALID_HANDLE),
        Some((same_device, handle)) => {
            if !same_device {
                return Err(CnaError::InvalidInput(InputError::IndexBufferOtherDevice));
            }
            handle
        },
    }
}

/// What the device knows of one vertex buffer before binding it: whether it
/// belongs to the device, and the buffer's own answer for its handle.
#[derive(Clone, Copy, Debug)]
pub struct VertexBindingFacts {
    pub same_device: bool,
    pub handle: Result<u64, CnaError>,
}

/// The verdict on binding the first `n` vertex buffers, and their handles.
pub open spec fn spec_vertex_bindings(facts: Seq<VertexBindingFacts>, n: nat) -> Result<Seq<u64>, CnaError>
    decreases n,
{
    if n == 0 {
        Ok(Seq::empty())
    } else {
        match spec_vertex_bindings(facts, (n - 1) as nat) {
            Err(e) => Err(e),
            Ok(handles) => if !facts[n - 1].same_device {
                Err(CnaError::InvalidInput(InputError::VertexBufferOtherDevice))
            } else {
                match facts[n - 1].handle {
                    Err(e) => Err(e),
                    Ok(handle) => Ok(handles.push(handle)),
                }
            },
        }
    }
}

/// XNA `GraphicsDevice.SetVertexBuffers`, before the runtime is asked: every
/// buffer must belong to the device and hold a handle; answers the handles
/// in binding order, or the first failure.
pub fn vertex_handles_to_bind(facts: &Vec<VertexBindingFacts>) -> (r: Result<Vec<u64>, CnaError>)
    ensures
        r is Ok <==> spec_vertex_bindings(facts@, facts@.len()) is Ok,
        r matches Err(e) ==> spec_vertex_bindings(facts@, facts@.len()) == Err::<Seq<u64>, CnaError>(e),
        r matches Ok(handles) ==> spec_vertex_bindings(facts@, facts@.len()) == Ok::<Seq<u64>, CnaError>(handles@),
{
    let mut handles: Vec<u64> = Vec::new();
    let mut i: usize = 0;
    while i < facts.len()
        invariant
            i <= facts@.len(),
            spec_vertex_bindings(facts@, i as nat) == Ok::<Seq<u64>, CnaError>(handles@),
        decreases facts@.len() - i,
    {
        let fact = facts[i];
        let verdict: Result<u64, CnaError> = if !fact.same_device {
            Err(CnaError::InvalidInput(InputError::VertexBufferOtherDevice))
        } else {
            fact.handle
        };
        match verdict {
            Err(e) => {
                proof {
                    lemma_vertex_bindings_settle(facts@, i as nat + 1, facts@.len());
                }
                return Err(e);
            },
            Ok(handle) => handles.push(handle),
        }
        i = i + 1;
    }
    Ok(handles)
}

/// Once a prefix of the vertex bindings fails, every longer prefix fails the
/// same way.
proof fn lemma_vertex_bindings_settle(facts: Seq<VertexBindingFacts>, n: nat, m: nat)
    requires
        n <= m,
        spec_vertex_bindings(facts, n) is Err,
    ensures
        spec_vertex_bindings(facts, m) == spec_vertex_bindings(facts, n),
    decreases m,
{
    if m > n {
        lemma_vertex_bindings_settle(facts, n, (m - 1) as nat);
    }
}

/// What the device knows of one render target before binding it: whether
/// it belongs to the device, its own answer for its handle, and its width,
/// height and multisample count (a cube's size is both its width and its
/// height).
#[derive(Clone, Copy, Debug)]
pub struct RenderTargetFacts {
    pub same_device: bool,
    pub handle: Result<u64, CnaError>,
    pub width: i32,
    pub height: i32,
    pub multi_sample_count: i32,
}

/// The width, height and multisample count of a target.
pub open spec fn target_shape(fact: RenderTargetFacts) -> (i32, i32, i32) {
    (fact.width, fact.height, fact.multi_sample_count)
}

/// The verdict on binding the first `n` render targets, and their handles:
/// each must belong to the device, hold a handle no earlier target holds,
/// and share the first target's shape.
pub open spec fn spec_render_target_bindings(facts: Seq<RenderTargetFacts>, n: nat) -> Result<Seq<u64>, CnaError>
    decreases n,
{
    if n == 0 {
        Ok(Seq::empty())
    } else {
        match spec_render_target_bindings(facts, (n - 1) as nat) {
            Err(e) => Err(e),
            Ok(handles) => if !facts[n - 1].same_device {
                Err(CnaError::InvalidInput(InputError::RenderTargetOtherDevice))
            } else {
                match facts[n - 1].handle {
                    Err(e) => Err(e),
                    Ok(handle) => if handles.contains(handle) {
                        Err(CnaError::InvalidInput(InputError::RenderTargetBoundTwice))
                    } else if n >= 2 && target_shape(facts[n - 1]) != target_shape(facts[0]) {
                        Err(CnaError::InvalidInput(InputError::RenderTargetShapeMismatch))
                    } else {
                        Ok(handles.push(handle))
                    },
                }
            },
        }
    }
}

/// Once a prefix of the render-target bindings fails, every longer prefix
/// fails the same way.
proof fn lemma_render_target_bindings_settle(facts: Seq<RenderTargetFacts>, n: nat, m: nat)
    requires
        n <= m,
        spec_render_target_bindings(facts, n) is Err,
    ensures
        spec_render_target_bindings(facts, m) == spec_render_target_bindings(facts, n),
    decreases m,
{
    if m > n {
        lemma_render_target_bindings_settle(facts, n, (m - 1) as nat);
    }
}

/// Whether `handle` is among `handles`.
fn holds_handle(handles: &Vec<u64>, handle: u64) -> (r: bool)
    ensures
        r == handles@.contains(handle),
{
    let mut i: usize = 0;
    while i < handles.len()
        invariant
            i <= handles@.len(),
            forall|j: int| 0 <= j < i ==> handles@[j] != handle,
        decreases handles@.len() - i,
    {
        if handles[i] == handle {
            return true;
        }
        i = i + 1;
    }
    false
}

/// XNA `GraphicsDevice.SetRenderTargets`, before the runtime is asked:
/// answers the targets' handles in slot order, or the first failure.
pub fn render_target_handles_to_bind(facts: &Vec<RenderTargetFacts>) -> (r: Result<Vec<u64>, CnaError>)
    ensures
        r is Ok <==> spec_render_target_bindings(facts@, facts@.len()) is Ok,
        r matches Err(e) ==> spec_render_target_bindings(facts@, facts@.len()) == Err::<Seq<u64>, CnaError>(e),
        r matches Ok(handles) ==> spec_render_target_bindings(facts@, facts@.len()) == Ok::<Seq<u64>, CnaError>(handles@),
{
    let mut handles: Vec<u64> = Vec::new();
    let mut i: usize = 0;
    while i < facts.len()
        invariant
            i <= facts@.len(),
            spec_render_target_bindings(facts@, i as nat) == Ok::<Seq<u64>, CnaError>(handles@),
        decreases facts@.len() - i,
    {
        let fact = facts[i];
        let verdict: Result<u64, CnaError> = if !fact.same_device {
            Err(CnaError::InvalidInput(InputError::RenderTargetOtherDevice))
        } else {
            match fact.handle {
                Err(e) => Err(e),
                Ok(handle) => {
                    if holds_handle(&handles, handle) {
                        Err(CnaError::InvalidInput(InputError::RenderTargetBoundTwice))
                    } else if i >= 1 && (fact.width != facts[0].width || fact.height != facts[0].height
                        || fact.multi_sample_count != facts[0].multi_sample_count) {
                        Err(CnaError::InvalidInput(InputError::RenderTargetShapeMismatch))
                    } else {
                        Ok(handle)
                    }
                },
            }
        };
        match verdict {
            Err(e) => {
                proof {
                    lemma_render_target_bindings_settle(facts@, i as nat + 1, facts@.len());
                }
                return Err(e);
            },
            Ok(handle) => handles.push(handle),
        }
        i = i + 1;
    }
    Ok(handles)
}

/// One render-target binding as the runtime reports it.
#[derive(Clone, Copy, Debug, PartialEq, Eq, Structural)]
pub struct NativeRenderTargetBinding {
    pub render_target: u64,
    pub array_slice: u32,
    pub cube_map_face: u32,
}

/// One render-target binding as the device recorded it: the target's own
/// answer for its handle, and the face.
#[derive(Clone, Copy, Debug)]
pub struct RecordedRenderTargetBinding {
    pub handle: Result<u64, CnaError>,
    pub face: CubeMapFace,
}

/// Whether a recorded binding is the one the runtime reports.
pub open spec fn binding_agrees(recorded: RecordedRenderTargetBinding, observed: NativeRenderTargetBinding) -> bool {
    &&& recorded.handle == Ok::<u64, CnaError>(observed.render_target)
    &&& recorded.face.spec_native() == observed.cube_map_face
    &&& observed.array_slice == 0
}

/// XNA `GraphicsDevice.GetRenderTargets`, after the runtime reported its
/// bindings: the device answers its record only when the record and the
/// report agree binding for binding.
pub fn check_render_target_readback(
    recorded: &Vec<RecordedRenderTargetBinding>,
    observed: &Vec<NativeRenderTargetBinding>,
) -> (r: Result<(), CnaError>)
    ensures
        (recorded@.len() == observed@.len() && forall|i: int|
            0 <= i < recorded@.len() ==> binding_agrees(#[trigger] recorded@[i], observed@[i])) ==> r is Ok,
        !(recorded@.len() == observed@.len() && forall|i: int|
            0 <= i < recorded@.len() ==> binding_agrees(#[trigger] recorded@[i], observed@[i])) ==> r == Err::<(), CnaError>(
            CnaError::Native(NativeFault::RenderTargetBindingsChangedOutside),
        ),
{
    if recorded.len() != observed.len() {
        return Err(CnaError::Native(NativeFault::RenderTargetBindingsChangedOutside));
    }
    let mut i: usize = 0;
    while i < recorded.len()
        invariant
            i <= recorded@.len(),
            recorded@.len() == observed@.len(),
            forall|j: int| 0 <= j < i ==> binding_agrees(#[trigger] recorded@[j], observed@[j]),
        decreases recorded@.len() - i,
    {
        let logical = recorded[i];
        let seen = observed[i];
        let same_handle: bool = match logical.handle {
            Ok(handle) => handle == seen.render_target,
            Err(_) => false,
        };
        if !same_handle || logical.face.native_value() != seen.cube_map_face || seen.array_slice != 0 {
            return Err(CnaError::Native(NativeFault::RenderTargetBindingsChangedOutside));
        }
        i = i + 1;
    }
    Ok(())
}

/// The number of render-target bindings the runtime reports, as a length.
pub fn render_target_count(count: u64) -> (r: Result<usize, CnaError>)
    ensures
        count <= usize::MAX ==> r == Ok::<usize, CnaError>(count as usize),
        count > usize::MAX ==> r == Err::<usize, CnaError>(CnaError::InvalidInput(InputError::RenderTargetCountTooLarge)),
{
    if count > usize::MAX as u64 {
        return Err(CnaError::InvalidInput(InputError::RenderTargetCountTooLarge));
    }
    Ok(count as usize)
}

/// Bound render targets occupy one slot each and share one shape: when a
/// binding is accepted, its handles are pairwise distinct, one per target,
/// and every target has the first target's shape.
pub proof fn law_bound_render_targets_are_distinct_and_alike(facts: Seq<RenderTargetFacts>, n: nat)
    requires
        n <= facts.len(),
        spec_render_target_bindings(facts, n) is Ok,
    ensures
        spec_render_target_bindings(facts, n)->Ok_0.len() == n,
        forall|a: int, b: int|
            0 <= a < b < n ==> #[trigger] spec_render_target_bindings(facts, n)->Ok_0[a]
                != #[trigger] spec_render_target_bindings(facts, n)->Ok_0[b],
        forall|k: int| 0 <= k < n ==> target_shape(#[trigger] facts[k]) == target_shape(facts[0]),
    decreases n,
{
    if n > 0 {
        law_bound_render_targets_are_distinct_and_alike(facts, (n - 1) as nat);
        let earlier = spec_render_target_bindings(facts, (n - 1) as nat)->Ok_0;
        let now = spec_render_target_bindings(facts, n)->Ok_0;
        assert forall|a: int, b: int| 0 <= a < b < n implies #[trigger] now[a] != #[trigger] now[b] by {
            if b == n - 1 {
                assert(now[a] == earlier[a]);
                assert(earlier.contains(earlier[a]));
            } else {
                assert(now[a] == earlier[a] && now[b] == earlier[b]);
            }
        }
    }
}

} // verus!
