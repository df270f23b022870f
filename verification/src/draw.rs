//! The graphics device's own bookkeeping and checks: the handle a call may
//! use, which buffers and targets are bound, how many elements a draw
//! reads, the range checks of every draw and of back-buffer readback, and
//! the consistency of the runtime's vertex bindings with the device's.

use vstd::prelude::*;

use crate::error::{CnaError, InputError, NativeFault};
use crate::kinds::PrimitiveType;
use crate::resource::{ResourceKind, INVALID_HANDLE};
use crate::value::Rectangle;

verus! {

/// The handle a device call may use: the device must be alive and inside a
/// game callback, which is when it holds a borrowed native handle.
pub fn device_handle(alive: bool, handle: u64) -> (r: Result<u64, CnaError>)
    ensures
        !alive ==> r == Err::<u64, CnaError>(CnaError::InvalidInput(InputError::GraphicsDeviceDisposed)),
        alive && handle == INVALID_HANDLE ==> r == Err::<u64, CnaError>(CnaError::InvalidInput(InputError::NoActiveCallback)),
        alive && handle != INVALID_HANDLE ==> r == Ok::<u64, CnaError>(handle),
{
    if !alive {
        return Err(CnaError::InvalidInput(InputError::GraphicsDeviceDisposed));
    }
    if handle == INVALID_HANDLE {
        Err(CnaError::InvalidInput(InputError::NoActiveCallback))
    } else {
        Ok(handle)
    }
}

/// The first error among results taken in order, or `Ok` when none failed.
pub open spec fn spec_first_error(results: Seq<Result<(), CnaError>>) -> Result<(), CnaError>
    decreases results.len(),
{
    if results.len() == 0 {
        Ok(())
    } else if results[0] is Err {
        results[0]
    } else {
        spec_first_error(results.drop_first())
    }
}

/// Reports the first failure of a sequence of resource disposals, which
/// all ran.
pub fn first_error(results: &Vec<Result<(), CnaError>>) -> (r: Result<(), CnaError>)
    ensures
        r == spec_first_error(results@),
{
    let mut i: usize = 0;
    assert(results@.skip(0) == results@);
    while i < results.len()
        invariant
            i <= results@.len(),
            spec_first_error(results@) == spec_first_error(results@.skip(i as int)),
        decreases results@.len() - i,
    {
        assert(results@.skip(i as int).drop_first() == results@.skip(i as int + 1));
        if results[i].is_err() {
            return results[i];
        }
        i = i + 1;
    }
    Ok(())
}

/// The native handles of what is bound to a device: its vertex buffers, its
/// index buffer (the invalid handle for none) and its render targets.
pub struct BindingRegistry {
    vertex_handles: Vec<u64>,
    index_handle: u64,
    render_target_handles: Vec<u64>,
}

/// What the binding registry holds.
pub struct BindingRegistryView {
    pub vertex_handles: Seq<u64>,
    pub index_handle: u64,
    pub render_target_handles: Seq<u64>,
}

impl View for BindingRegistry {
    type V = BindingRegistryView;

    closed spec fn view(&self) -> BindingRegistryView {
        BindingRegistryView {
            vertex_handles: self.vertex_handles@,
            index_handle: self.index_handle,
            render_target_handles: self.render_target_handles@,
        }
    }
}

/// Whether a resource of `kind` with `handle` is bound: only buffers and
/// render targets can be.
pub open spec fn spec_is_bound(view: BindingRegistryView, kind: ResourceKind, handle: u64) -> bool {
    match kind {
        ResourceKind::VertexBuffer => view.vertex_handles.contains(handle),
        ResourceKind::IndexBuffer => view.index_handle == handle,
        ResourceKind::RenderTarget2D | ResourceKind::RenderTargetCube => view.render_target_handles.contains(handle),
        _ => false,
    }
}

fn contains_handle(handles: &Vec<u64>, handle: u64) -> (r: bool)
    ensures
        r == handles@.contains(handle),
{
    let mut i: usize = 0;
    while i < handles.len()
        invariant
            i <= handles@.len(),
            forall|j: int| 0 <= j < i ==> handles@[j] != handle,
        decreases handles@.len() - i,
    {
        if handles[i] == handle {
            return true;
        }
        i = i + 1;
    }
    false
}

impl BindingRegistry {
    /// Nothing bound.
    pub fn new() -> (r: Self)
        ensures
            r@.vertex_handles.len() == 0,
            r@.index_handle == INVALID_HANDLE,
            r@.render_target_handles.len() == 0,
    {
        BindingRegistry { vertex_handles: Vec::new(), index_handle: INVALID_HANDLE, render_target_handles: Vec::new() }
    }

    /// Whether a resource of `kind` with `handle` is bound.
    pub fn is_resource_bound(&self, kind: ResourceKind, handle: u64) -> (r: bool)
        ensures
            r == spec_is_bound(self@, kind, handle),
    {
        match kind {
            ResourceKind::VertexBuffer => contains_handle(&self.vertex_handles, handle),
            ResourceKind::IndexBuffer => self.index_handle == handle,
            ResourceKind::RenderTarget2D | ResourceKind::RenderTargetCube => contains_handle(&self.render_target_handles, handle),
            _ => false,
        }
    }

    /// Whether any of the given vertex handles is bound, or the bound index
    /// handle is among the given index handles.
    pub fn has_bound_buffer_handle(&self, vertex_handles: &Vec<u64>, index_handles: &Vec<u64>) -> (r: bool)
        ensures
            r == ((exists|i: int| 0 <= i < self@.vertex_handles.len() && vertex_handles@.contains(#[trigger] self@.vertex_handles[i]))
                || index_handles@.contains(self@.index_handle)),
    {
        let mut i: usize = 0;
        while i < self.vertex_handles.len()
            invariant
                i <= self.vertex_handles@.len(),
                forall|j: int| 0 <= j < i ==> !vertex_handles@.contains(#[trigger] self.vertex_handles@[j]),
            decreases self.vertex_handles@.len() - i,
        {
            if contains_handle(vertex_handles, self.vertex_handles[i]) {
                assert(vertex_handles@.contains(self@.vertex_handles[i as int]));
                return true;
            }
            i = i + 1;
        }
        contains_handle(index_handles, self.index_handle)
    }

    /// Records the vertex buffers the runtime accepted, replacing the old.
    pub fn set_vertex_handles(&mut self, handles: Vec<u64>)
        ensures
            final(self)@ == (BindingRegistryView { vertex_handles: handles@, ..old(self)@ }),
    {
        self.vertex_handles = handles;
    }

    /// Records the index buffer the runtime accepted.
    pub fn set_index_handle(&mut self, handle: u64)
        ensures
            final(self)@ == (BindingRegistryView { index_handle: handle, ..old(self)@ }),
    {
        self.index_handle = handle;
    }

    /// Records the render targets the runtime accepted, replacing the old.
    pub fn set_render_target_handles(&mut self, handles: Vec<u64>)
        ensures
            final(self)@ == (BindingRegistryView { render_target_handles: handles@, ..old(self)@ }),
    {
        self.render_target_handles = handles;
    }

    /// Records that the runtime unbound every buffer.
    pub fn clear_buffers(&mut self)
        ensures
            final(self)@ == (BindingRegistryView {
                vertex_handles: Seq::empty(),
                index_handle: INVALID_HANDLE,
                ..old(self)@
            }),
    {
        self.vertex_handles = Vec::new();
        self.index_handle = INVALID_HANDLE;
    }

    /// Records that the runtime unbound every render target.
    pub fn clear_render_targets(&mut self)
        ensures
            final(self)@ == (BindingRegistryView { render_target_handles: Seq::empty(), ..old(self)@ }),
    {
        self.render_target_handles = Vec::new();
    }
}

/// After every buffer is unbound, no live buffer counts as bound, so each
/// may be disposed.
pub proof fn law_unbound_buffers_are_not_bound(view: BindingRegistryView, kind: ResourceKind, handle: u64)
    requires
        handle != INVALID_HANDLE,
        kind == ResourceKind::VertexBuffer || kind == ResourceKind::IndexBuffer,
    ensures
        !spec_is_bound(
            BindingRegistryView { vertex_handles: Seq::empty(), index_handle: INVALID_HANDLE, ..view },
            kind,
            handle,
        ),
{
}

/// How many vertices or indices a draw of `primitive_count` primitives
/// reads, or why it cannot: the count must be positive and the total must
/// fit a `usize`.
pub open spec fn spec_primitive_element_count(primitive_type: PrimitiveType, primitive_count: i32) -> Result<usize, CnaError> {
    if primitive_count <= 0 {
        Err(CnaError::InvalidInput(InputError::PrimitiveCountNotPositive))
    } else {
        let n: int = match primitive_type {
            PrimitiveType::TriangleList => primitive_count * 3,
            PrimitiveType::TriangleStrip => primitive_count + 2,
            PrimitiveType::LineList => primitive_count * 2,
            PrimitiveType::LineStrip => primitive_count + 1,
        };
        if n > usize::MAX {
            Err(CnaError::InvalidInput(InputError::PrimitiveElementCountOverflows))
        } else {
            Ok(n as usize)
        }
    }
}

/// How many vertices or indices a draw reads.
pub fn primitive_element_count(primitive_type: PrimitiveType, primitive_count: i32) -> (r: Result<usize, CnaError>)
    ensures
        r == spec_primitive_element_count(primitive_type, primitive_count),
{
    if primitive_count <= 0 {
        return Err(CnaError::InvalidInput(InputError::PrimitiveCountNotPositive));
    }
    let count: usize = primitive_count as usize;
    let total: Option<usize> = match primitive_type {
        PrimitiveType::TriangleList => count.checked_mul(3),
        PrimitiveType::TriangleStrip => count.checked_add(2),
        PrimitiveType::LineList => count.checked_mul(2),
        PrimitiveType::LineStrip => count.checked_add(1),
    };
    match total {
        Some(n) => Ok(n),
        None => Err(CnaError::InvalidInput(InputError::PrimitiveElementCountOverflows)),
    }
}

/// The first bound vertex buffer, as a draw sees it: the buffer's own answer
/// for its handle, the binding's offset and the buffer's vertex count.
#[derive(Clone, Copy, Debug)]
pub struct BoundVertexBuffer {
    pub handle: Result<u64, CnaError>,
    pub vertex_offset: i32,
    pub vertex_count: i32,
}

/// The bound index buffer, as a draw sees it.
#[derive(Clone, Copy, Debug)]
pub struct BoundIndexBuffer {
    pub handle: Result<u64, CnaError>,
    pub index_count: i32,
}

/// How many vertices or indices `primitive_count` primitives of a type
/// read: three per triangle of a list, two more than the triangles of a
/// strip, two per line of a list, one more than the lines of a strip.
pub open spec fn elements_read(primitive_type: PrimitiveType, primitive_count: int) -> int {
    match primitive_type {
        PrimitiveType::TriangleList => 3 * primitive_count,
        PrimitiveType::TriangleStrip => primitive_count + 2,
        PrimitiveType::LineList => 2 * primitive_count,
        PrimitiveType::LineStrip => primitive_count + 1,
    }
}

/// A positive primitive count reads `elements_read` elements, when that
/// fits a `usize`; anything else is refused.
pub proof fn law_primitive_element_counts(primitive_type: PrimitiveType, primitive_count: i32)
    ensures
        spec_primitive_element_count(primitive_type, primitive_count) is Ok <==> (primitive_count > 0
            && elements_read(primitive_type, primitive_count as int) <= usize::MAX),
        spec_primitive_element_count(primitive_type, primitive_count) matches Ok(n) ==> n == elements_read(
            primitive_type,
            primitive_count as int,
        ),
{
}

/// What an accepted `DrawPrimitives` guarantees: a live vertex buffer is
/// bound, the primitive count is positive, and the vertices the draw reads,
/// from the start vertex shifted by the binding offset, lie inside it.
pub open spec fn draw_primitives_fits(
    primitive_type: PrimitiveType,
    start_vertex: i32,
    primitive_count: i32,
    binding: Option<BoundVertexBuffer>,
) -> bool {
    &&& primitive_count > 0
    &&& start_vertex >= 0
    &&& binding matches Some(b) && b.handle is Ok
        && start_vertex + b.vertex_offset + elements_read(primitive_type, primitive_count as int) <= b.vertex_count
}

/// What an accepted indexed draw guarantees: live vertex and index buffers
/// are bound, the counts are in range, the vertex window shifted by the
/// base vertex and the binding offset lies inside the vertex buffer, and
/// the indices the draw reads lie inside the index buffer.
pub open spec fn indexed_draw_fits(
    primitive_type: PrimitiveType,
    base_vertex: i32,
    min_vertex_index: i32,
    num_vertices: i32,
    start_index: i32,
    primitive_count: i32,
    vertex: Option<BoundVertexBuffer>,
    index: Option<BoundIndexBuffer>,
) -> bool {
    &&& primitive_count > 0
    &&& min_vertex_index >= 0 && num_vertices > 0 && start_index >= 0
    &&& vertex matches Some(v) && v.handle is Ok
        && 0 <= base_vertex + min_vertex_index + v.vertex_offset
        && base_vertex + min_vertex_index + v.vertex_offset + num_vertices <= v.vertex_count
        && min_vertex_index + num_vertices <= v.vertex_count
    &&& index matches Some(i) && i.handle is Ok
        && start_index + elements_read(primitive_type, primitive_count as int) <= i.index_count
}

/// Every `DrawPrimitives` that is accepted reads only vertices of the bound
/// buffer.
pub proof fn law_accepted_draw_fits(
    primitive_type: PrimitiveType,
    start_vertex: i32,
    primitive_count: i32,
    binding: Option<BoundVertexBuffer>,
)
    ensures
        spec_draw_primitives(primitive_type, start_vertex, primitive_count, binding) is Ok
            ==> draw_primitives_fits(primitive_type, start_vertex, primitive_count, binding),
{
}

/// Every indexed draw that is accepted reads only indices of the bound
/// index buffer and vertices of the bound vertex buffer.
pub proof fn law_accepted_indexed_draw_fits(
    primitive_type: PrimitiveType,
    base_vertex: i32,
    min_vertex_index: i32,
    num_vertices: i32,
    start_index: i32,
    primitive_count: i32,
    vertex: Option<BoundVertexBuffer>,
    index: Option<BoundIndexBuffer>,
)
    ensures
        spec_indexed_draw(primitive_type, base_vertex, min_vertex_index, num_vertices, start_index, primitive_count, vertex, index)
            is Ok ==> indexed_draw_fits(
            primitive_type,
            base_vertex,
            min_vertex_index,
            num_vertices,
            start_index,
            primitive_count,
            vertex,
            index,
        ),
{
}

/// The verdict on `DrawPrimitives`.
pub open spec fn spec_draw_primitives(
    primitive_type: PrimitiveType,
    start_vertex: i32,
    primitive_count: i32,
    binding: Option<BoundVertexBuffer>,
) -> Result<(), CnaError> {
    match spec_primitive_element_count(primitive_type, primitive_count) {
        Err(e) => Err(e),
        Ok(required) => if start_vertex < 0 {
            Err(CnaError::InvalidInput(InputError::StartVertexNegative))
        } else {
            match binding {
                None => Err(CnaError::InvalidInput(InputError::DrawRequiresVertexBuffer)),
                Some(b) => match b.handle {
                    Err(e) => Err(e),
                    Ok(_) => if start_vertex + b.vertex_offset + required > usize::MAX {
                        Err(CnaError::InvalidInput(InputError::VertexDrawRangeOverflows))
                    } else if start_vertex + b.vertex_offset + required > b.vertex_count {
                        Err(CnaError::InvalidInput(InputError::VertexDrawRangeExceedsBuffer))
                    } else {
                        Ok(())
                    },
                },
            }
        },
    }
}

/// Checks `DrawPrimitives` against the first bound vertex buffer.
pub fn validate_draw_primitives(
    primitive_type: PrimitiveType,
    start_vertex: i32,
    primitive_count: i32,
    binding: Option<BoundVertexBuffer>,
) -> (r: Result<(), CnaError>)
    requires
        binding matches Some(b) ==> b.vertex_offset >= 0 && b.vertex_count >= 0,
    ensures
        r == spec_draw_primitives(primitive_type, start_vertex, primitive_count, binding),
        r is Ok ==> draw_primitives_fits(primitive_type, start_vertex, primitive_count, binding),
{
    let required = primitive_element_count(primitive_type, primitive_count)?;
    if start_vertex < 0 {
        return Err(CnaError::InvalidInput(InputError::StartVertexNegative));
    }
    let start: usize = start_vertex as usize;
    let bound = match binding {
        Some(b) => b,
        None => return Err(CnaError::InvalidInput(InputError::DrawRequiresVertexBuffer)),
    };
    bound.handle?;
    let begin = match start.checked_add(bound.vertex_offset as usize) {
        Some(v) => v,
        None => return Err(CnaError::InvalidInput(InputError::VertexDrawRangeOverflows)),
    };
    let end = match begin.checked_add(required) {
        Some(v) => v,
        None => return Err(CnaError::InvalidInput(InputError::VertexDrawRangeOverflows)),
    };
    if end > bound.vertex_count as usize {
        return Err(CnaError::InvalidInput(InputError::VertexDrawRangeExceedsBuffer));
    }
    Ok(())
}

/// The verdict on an indexed draw, after the primitive count is known to
/// read `elements` indices.
pub open spec fn spec_indexed_ranges(
    elements: usize,
    base_vertex: i32,
    min_vertex_index: i32,
    num_vertices: i32,
    start_index: i32,
    vertex: Option<BoundVertexBuffer>,
    index: Option<BoundIndexBuffer>,
) -> Result<(), CnaError> {
    if min_vertex_index < 0 {
        Err(CnaError::InvalidInput(InputError::MinVertexIndexNegative))
    } else if num_vertices < 0 {
        Err(CnaError::InvalidInput(InputError::NegativeVertexCount))
    } else if start_index < 0 {
        Err(CnaError::InvalidInput(InputError::NegativeStartIndex))
    } else if num_vertices == 0 {
        Err(CnaError::InvalidInput(InputError::IndexedDrawNeedsVertex))
    } else {
        match vertex {
            None => Err(CnaError::InvalidInput(InputError::IndexedDrawNeedsVertexBuffer)),
            Some(v) => match v.handle {
                Err(e) => Err(e),
                Ok(_) => {
                    let first = base_vertex + min_vertex_index + v.vertex_offset;
                    if first < 0 || first + num_vertices > v.vertex_count {
                        Err(CnaError::InvalidInput(InputError::IndexedVertexRangeExceedsBuffer))
                    } else {
                        match index {
                            None => Err(CnaError::InvalidInput(InputError::IndexedDrawNeedsIndexBuffer)),
                            Some(i) => match i.handle {
                                Err(e) => Err(e),
                                Ok(_) => if start_index + elements > usize::MAX {
                                    Err(CnaError::InvalidInput(InputError::IndexedDrawRangeOverflows))
                                } else if start_index + elements > i.index_count || min_vertex_index + num_vertices
                                    > v.vertex_count {
                                    Err(CnaError::InvalidInput(InputError::IndexedDrawRangeExceedsBuffer))
                                } else {
                                    Ok(())
                                },
                            },
                        }
                    }
                },
            },
        }
    }
}

/// The verdict on `DrawIndexedPrimitives`.
pub open spec fn spec_indexed_draw(
    primitive_type: PrimitiveType,
    base_vertex: i32,
    min_vertex_index: i32,
    num_vertices: i32,
    start_index: i32,
    primitive_count: i32,
    vertex: Option<BoundVertexBuffer>,
    index: Option<BoundIndexBuffer>,
) -> Result<(), CnaError> {
    match spec_primitive_element_count(primitive_type, primitive_count) {
        Err(e) => Err(e),
        Ok(elements) => spec_indexed_ranges(elements, base_vertex, min_vertex_index, num_vertices, start_index, vertex, index),
    }
}

/// Checks an indexed draw against the bound vertex and index buffers: the
/// vertex window, shifted by the base vertex and the binding offset, must
/// lie inside the vertex buffer, and the index window inside the index
/// buffer.
pub fn validate_indexed_draw(
    primitive_type: PrimitiveType,
    base_vertex: i32,
    min_vertex_index: i32,
    num_vertices: i32,
    start_index: i32,
    primitive_count: i32,
    vertex: Option<BoundVertexBuffer>,
    index: Option<BoundIndexBuffer>,
) -> (r: Result<(), CnaError>)
    requires
        vertex matches Some(v) ==> v.vertex_offset >= 0 && v.vertex_count >= 0,
        index matches Some(i) ==> i.index_count >= 0,
    ensures
        r == spec_indexed_draw(primitive_type, base_vertex, min_vertex_index, num_vertices, start_index, primitive_count, vertex, index),
        r is Ok ==> indexed_draw_fits(primitive_type, base_vertex, min_vertex_index, num_vertices, start_index, primitive_count, vertex, index),
{
    let elements = primitive_element_count(primitive_type, primitive_count)?;
    if min_vertex_index < 0 {
        return Err(CnaError::InvalidInput(InputError::MinVertexIndexNegative));
    }
    if num_vertices < 0 {
        return Err(CnaError::InvalidInput(InputError::NegativeVertexCount));
    }
    if start_index < 0 {
        return Err(CnaError::InvalidInput(InputError::NegativeStartIndex));
    }
    if num_vertices == 0 {
        return Err(CnaError::InvalidInput(InputError::IndexedDrawNeedsVertex));
    }
    let bound_vertex = match vertex {
        Some(v) => v,
        None => return Err(CnaError::InvalidInput(InputError::IndexedDrawNeedsVertexBuffer)),
    };
    bound_vertex.handle?;
    let first: i64 = base_vertex as i64 + min_vertex_index as i64 + bound_vertex.vertex_offset as i64;
    let end: i64 = first + num_vertices as i64;
    if first < 0 || end > bound_vertex.vertex_count as i64 {
        return Err(CnaError::InvalidInput(InputError::IndexedVertexRangeExceedsBuffer));
    }
    let bound_index = match index {
        Some(i) => i,
        None => return Err(CnaError::InvalidInput(InputError::IndexedDrawNeedsIndexBuffer)),
    };
    bound_index.handle?;
    let index_start: usize = start_index as usize;
    let index_end = match index_start.checked_add(elements) {
        Some(v) => v,
        None => return Err(CnaError::InvalidInput(InputError::IndexedDrawRangeOverflows)),
    };
    if index_end > bound_index.index_count as usize {
        return Err(CnaError::InvalidInput(InputError::IndexedDrawRangeExceedsBuffer));
    }
    let vertex_end: i64 = min_vertex_index as i64 + num_vertices as i64;
    if vertex_end > bound_vertex.vertex_count as i64 {
        return Err(CnaError::InvalidInput(InputError::IndexedDrawRangeExceedsBuffer));
    }
    Ok(())
}

/// Checks `DrawInstancedPrimitives`: the indexed draw, then a positive
/// instance count.
pub fn validate_instanced_draw(
    primitive_type: PrimitiveType,
    base_vertex: i32,
    min_vertex_index: i32,
    num_vertices: i32,
    start_index: i32,
    primitive_count: i32,
    instance_count: i32,
    vertex: Option<BoundVertexBuffer>,
    index: Option<BoundIndexBuffer>,
) -> (r: Result<(), CnaError>)
    requires
        vertex matches Some(v) ==> v.vertex_offset >= 0 && v.vertex_count >= 0,
        index matches Some(i) ==> i.index_count >= 0,
    ensures
        spec_indexed_draw(primitive_type, base_vertex, min_vertex_index, num_vertices, start_index, primitive_count, vertex, index)
            is Err ==> r == spec_indexed_draw(
            primitive_type,
            base_vertex,
            min_vertex_index,
            num_vertices,
            start_index,
            primitive_count,
            vertex,
            index,
        ),
        spec_indexed_draw(primitive_type, base_vertex, min_vertex_index, num_vertices, start_index, primitive_count, vertex, index)
            is Ok ==> r == if instance_count <= 0 {
            Err::<(), CnaError>(CnaError::InvalidInput(InputError::InstanceCountNotPositive))
        } else {
            Ok(())
        },
        r is Ok ==> instance_count > 0
            && indexed_draw_fits(primitive_type, base_vertex, min_vertex_index, num_vertices, start_index, primitive_count, vertex, index),
{
    validate_indexed_draw(primitive_type, base_vertex, min_vertex_index, num_vertices, start_index, primitive_count, vertex, index)?;
    if instance_count <= 0 {
        return Err(CnaError::InvalidInput(InputError::InstanceCountNotPositive));
    }
    Ok(())
}

/// The verdict on a user-memory draw of `data_length` vertices.
pub open spec fn spec_user_primitives(
    primitive_type: PrimitiveType,
    data_length: usize,
    vertex_offset: i32,
    primitive_count: i32,
    declaration: Result<bool, CnaError>,
) -> Result<(), CnaError> {
    match spec_primitive_element_count(primitive_type, primitive_count) {
        Err(e) => Err(e),
        Ok(required) => if vertex_offset < 0 {
            Err(CnaError::InvalidInput(InputError::VertexOffsetNegative))
        } else if vertex_offset + required > usize::MAX {
            Err(CnaError::InvalidInput(InputError::UserVertexRangeOverflows))
        } else if vertex_offset + required > data_length {
            Err(CnaError::InvalidInput(InputError::UserVertexRangeExceedsSlice))
        } else {
            match declaration {
                Err(e) => Err(e),
                Ok(true) => Ok(()),
                Ok(false) => Err(CnaError::InvalidInput(InputError::UserDeclarationMismatch)),
            }
        },
    }
}

/// Checks `DrawUserPrimitives`: the primitives must lie inside the
/// supplied vertices, and the declaration must be open and describe the
/// vertex type's own encoding (`declaration` is that check's answer).
pub fn validate_user_primitives(
    primitive_type: PrimitiveType,
    data_length: usize,
    vertex_offset: i32,
    primitive_count: i32,
    declaration: Result<bool, CnaError>,
) -> (r: Result<(), CnaError>)
    ensures
        r == spec_user_primitives(primitive_type, data_length, vertex_offset, primitive_count, declaration),
{
    let required = primitive_element_count(primitive_type, primitive_count)?;
    if vertex_offset < 0 {
        return Err(CnaError::InvalidInput(InputError::VertexOffsetNegative));
    }
    let offset: usize = vertex_offset as usize;
    let end = match offset.checked_add(required) {
        Some(v) => v,
        None => return Err(CnaError::InvalidInput(InputError::UserVertexRangeOverflows)),
    };
    if end > data_length {
        return Err(CnaError::InvalidInput(InputError::UserVertexRangeExceedsSlice));
    }
    match declaration {
        Err(e) => Err(e),
        Ok(true) => Ok(()),
        Ok(false) => Err(CnaError::InvalidInput(InputError::UserDeclarationMismatch)),
    }
}

/// An index type a user-memory indexed draw takes.
pub trait UserIndexData: Copy {
    /// The index's value.
    spec fn spec_value(self) -> int;

    /// The index's value, widened.
    fn value(self) -> (r: i64)
        ensures
            r == self.spec_value(),
    ;
}

impl UserIndexData for i16 {
    open spec fn spec_value(self) -> int {
        self as int
    }

    fn value(self) -> (r: i64) {
        self as i64
    }
}

impl UserIndexData for i32 {
    open spec fn spec_value(self) -> int {
        self as int
    }

    fn value(self) -> (r: i64) {
        self as i64
    }
}

/// Whether every index in `indices[start..end]` names one of the first
/// `vertex_count` vertices.
pub open spec fn indices_within<I: UserIndexData>(indices: Seq<I>, start: int, end: int, vertex_count: int) -> bool {
    forall|k: int| start <= k < end ==> 0 <= (#[trigger] indices[k]).spec_value() < vertex_count
}

/// The verdict on a user-memory indexed draw.
pub open spec fn spec_user_indexed<I: UserIndexData>(
    primitive_type: PrimitiveType,
    vertex_length: usize,
    vertex_offset: i32,
    num_vertices: i32,
    indices: Seq<I>,
    index_offset: i32,
    primitive_count: i32,
    declaration: Result<bool, CnaError>,
) -> Result<(), CnaError> {
    match spec_primitive_element_count(primitive_type, primitive_count) {
        Err(e) => Err(e),
        Ok(required) => if vertex_offset < 0 {
            Err(CnaError::InvalidInput(InputError::VertexOffsetNegative))
        } else if num_vertices < 0 {
            Err(CnaError::InvalidInput(InputError::NegativeVertexCount))
        } else if index_offset < 0 {
            Err(CnaError::InvalidInput(InputError::IndexOffsetNegative))
        } else if num_vertices == 0 {
            Err(CnaError::InvalidInput(InputError::UserVertexRangeExceedsSlice))
        } else if vertex_offset + num_vertices > usize::MAX {
            Err(CnaError::InvalidInput(InputError::UserVertexRangeOverflows))
        } else if vertex_offset + num_vertices > vertex_length {
            Err(CnaError::InvalidInput(InputError::UserVertexRangeExceedsSlice))
        } else if index_offset + required > usize::MAX {
            Err(CnaError::InvalidInput(InputError::UserIndexRangeOverflows))
        } else if index_offset + required > indices.len() {
            Err(CnaError::InvalidInput(InputError::UserIndexRangeExceedsSlice))
        } else if !indices_within(indices, index_offset as int, index_offset + required, num_vertices as int) {
            Err(CnaError::InvalidInput(InputError::UserIndexOutOfVertices))
        } else {
            match declaration {
                Err(e) => Err(e),
                Ok(true) => Ok(()),
                Ok(false) => Err(CnaError::InvalidInput(InputError::UserDeclarationMismatch)),
            }
        },
    }
}

/// Checks `DrawUserIndexedPrimitives`: the vertex window must lie inside the
/// supplied vertices, the index window inside the supplied indices, every
/// index in the window must name one of `num_vertices` vertices, and the
/// declaration must pass its check.
#[verifier::loop_isolation(false)]
pub fn validate_user_indexed<I: UserIndexData>(
    primitive_type: PrimitiveType,
    vertex_length: usize,
    vertex_offset: i32,
    num_vertices: i32,
    indices: &Vec<I>,
    index_offset: i32,
    primitive_count: i32,
    declaration: Result<bool, CnaError>,
) -> (r: Result<(), CnaError>)
    ensures
        r == spec_user_indexed(primitive_type, vertex_length, vertex_offset, num_vertices, indices@, index_offset, primitive_count, declaration),
{
    let required = primitive_element_count(primitive_type, primitive_count)?;
    if vertex_offset < 0 {
        return Err(CnaError::InvalidInput(InputError::VertexOffsetNegative));
    }
    if num_vertices < 0 {
        return Err(CnaError::InvalidInput(InputError::NegativeVertexCount));
    }
    if index_offset < 0 {
        return Err(CnaError::InvalidInput(InputError::IndexOffsetNegative));
    }
    let vertex_count: usize = num_vertices as usize;
    if vertex_count == 0 {
        return Err(CnaError::InvalidInput(InputError::UserVertexRangeExceedsSlice));
    }
    let vertex_end = match (vertex_offset as usize).checked_add(vertex_count) {
        Some(v) => v,
        None => return Err(CnaError::InvalidInput(InputError::UserVertexRangeOverflows)),
    };
    if vertex_end > vertex_length {
        return Err(CnaError::InvalidInput(InputError::UserVertexRangeExceedsSlice));
    }
    let start: usize = index_offset as usize;
    let end = match start.checked_add(required) {
        Some(v) => v,
        None => return Err(CnaError::InvalidInput(InputError::UserIndexRangeOverflows)),
    };
    if end > indices.len() {
        return Err(CnaError::InvalidInput(InputError::UserIndexRangeExceedsSlice));
    }
    let mut k: usize = start;
    while k < end
        invariant
            start <= k <= end <= indices@.len(),
            vertex_count == num_vertices,
            indices_within(indices@, start as int, k as int, vertex_count as int),
        decreases end - k,
    {
        let value = indices[k].value();
        if value < 0 || value >= vertex_count as i64 {
            assert(!(0 <= indices@[k as int].spec_value() < vertex_count as int));
            return Err(CnaError::InvalidInput(InputError::UserIndexOutOfVertices));
        }
        k = k + 1;
    }
    match declaration {
        Err(e) => Err(e),
        Ok(true) => Ok(()),
        Ok(false) => Err(CnaError::InvalidInput(InputError::UserDeclarationMismatch)),
    }
}

/// The verdict on a back-buffer readback into `data_length` places: the
/// window must lie inside the destination and a source rectangle, if any,
/// must be non-negative and inside the back buffer (`back_buffer` is the
/// device's answer for its size). Answers the window's bounds.
pub open spec fn spec_back_buffer_readback(
    rect: Option<Rectangle>,
    data_length: usize,
    start_index: i32,
    element_count: i32,
    back_buffer: Result<(i32, i32), CnaError>,
) -> Result<(usize, usize), CnaError> {
    if start_index < 0 {
        Err(CnaError::InvalidInput(InputError::NegativeStartIndex))
    } else if element_count < 0 {
        Err(CnaError::InvalidInput(InputError::NegativeElementCount))
    } else if start_index + element_count > usize::MAX {
        Err(CnaError::InvalidInput(InputError::BackBufferWindowOverflows))
    } else if start_index + element_count > data_length {
        Err(CnaError::InvalidInput(InputError::BackBufferWindowExceedsSlice))
    } else {
        match rect {
            None => Ok((start_index as usize, (start_index + element_count) as usize)),
            Some(source) => if source.X < 0 || source.Y < 0 || source.Width < 0 || source.Height < 0 {
                Err(CnaError::InvalidInput(InputError::BackBufferRectangleNegative))
            } else {
                match back_buffer {
                    Err(e) => Err(e),
                    Ok((width, height)) => if source.X + source.Width > i32::MAX || source.Y + source.Height > i32::MAX {
                        Err(CnaError::InvalidInput(InputError::BackBufferRectangleOverflows))
                    } else if source.X + source.Width > width || source.Y + source.Height > height {
                        Err(CnaError::InvalidInput(InputError::BackBufferRectangleExceeds))
                    } else {
                        Ok((start_index as usize, (start_index + element_count) as usize))
                    },
                }
            },
        }
    }
}

/// Checks a back-buffer readback and answers the destination window.
pub fn validate_back_buffer_readback(
    rect: Option<Rectangle>,
    data_length: usize,
    start_index: i32,
    element_count: i32,
    back_buffer: Result<(i32, i32), CnaError>,
) -> (r: Result<(usize, usize), CnaError>)
    ensures
        r == spec_back_buffer_readback(rect, data_length, start_index, element_count, back_buffer),
{
    if start_index < 0 {
        return Err(CnaError::InvalidInput(InputError::NegativeStartIndex));
    }
    if element_count < 0 {
        return Err(CnaError::InvalidInput(InputError::NegativeElementCount));
    }
    let start: usize = start_index as usize;
    let count: usize = element_count as usize;
    let end = match start.checked_add(count) {
        Some(v) => v,
        None => return Err(CnaError::InvalidInput(InputError::BackBufferWindowOverflows)),
    };
    if end > data_length {
        return Err(CnaError::InvalidInput(InputError::BackBufferWindowExceedsSlice));
    }
    match rect {
        None => Ok((start, end)),
        Some(source) => {
            if source.X < 0 || source.Y < 0 || source.Width < 0 || source.Height < 0 {
                return Err(CnaError::InvalidInput(InputError::BackBufferRectangleNegative));
            }
            let (width, height) = back_buffer?;
            let right = match source.X.checked_add(source.Width) {
                Some(v) => v,
                None => return Err(CnaError::InvalidInput(InputError::BackBufferRectangleOverflows)),
            };
            let bottom = match source.Y.checked_add(source.Height) {
                Some(v) => v,
                None => return Err(CnaError::InvalidInput(InputError::BackBufferRectangleOverflows)),
            };
            if right > width || bottom > height {
                return Err(CnaError::InvalidInput(InputError::BackBufferRectangleExceeds));
            }
            Ok((start, end))
        },
    }
}

/// The element count of a whole destination, which must fit an `i32`.
pub fn back_buffer_element_count(data_length: usize) -> (r: Result<i32, CnaError>)
    ensures
        data_length <= i32::MAX ==> r == Ok::<i32, CnaError>(data_length as i32),
        data_length > i32::MAX ==> r == Err::<i32, CnaError>(CnaError::InvalidInput(InputError::BackBufferDestinationTooLarge)),
{
    if data_length > 0x7fff_ffff {
        return Err(CnaError::InvalidInput(InputError::BackBufferDestinationTooLarge));
    }
    Ok(data_length as i32)
}

/// The buffer a native binding count needs.
pub fn binding_capacity(count: u64, error: InputError) -> (r: Result<usize, CnaError>)
    ensures
        count <= usize::MAX ==> r == Ok::<usize, CnaError>(count as usize),
        count > usize::MAX ==> r == Err::<usize, CnaError>(CnaError::InvalidInput(error)),
{
    if count > usize::MAX as u64 {
        return Err(CnaError::InvalidInput(error));
    }
    Ok(count as usize)
}

/// One vertex binding as the runtime reports it.
#[derive(Clone, Copy, Debug, PartialEq, Eq, Structural)]
pub struct NativeVertexBinding {
    pub vertex_buffer: u64,
    pub vertex_offset: i32,
    pub instance_frequency: i32,
}

/// One vertex binding as the device recorded it: the buffer's own answer
/// for its handle, the offset and the instance frequency.
#[derive(Clone, Copy, Debug)]
pub struct RecordedVertexBinding {
    pub handle: Result<u64, CnaError>,
    pub vertex_offset: i32,
    pub instance_frequency: i32,
}

/// The first disagreement between the recorded bindings and the runtime's,
/// from position `i` on.
pub open spec fn spec_bindings_agree_from(recorded: Seq<RecordedVertexBinding>, native: Seq<NativeVertexBinding>, i: int) -> Result<(), CnaError>
    decreases recorded.len() - i,
{
    if i >= recorded.len() || i < 0 {
        Ok(())
    } else {
        match recorded[i].handle {
            Err(e) => Err(e),
            Ok(handle) => if handle != native[i].vertex_buffer || recorded[i].vertex_offset != native[i].vertex_offset
                || recorded[i].instance_frequency != native[i].instance_frequency {
                Err(CnaError::Native(NativeFault::VertexBindingIdentityDiffers))
            } else {
                spec_bindings_agree_from(recorded, native, i + 1)
            },
        }
    }
}

/// The verdict on the runtime's answer to `GetVertexBuffers`: the count it
/// reported, how many it copied, the first buffer it reported, the copied
/// bindings, and the bindings the device recorded.
pub open spec fn spec_check_vertex_bindings(
    count: u64,
    copied: u64,
    first: u64,
    native: Seq<NativeVertexBinding>,
    recorded: Seq<RecordedVertexBinding>,
) -> Result<(), CnaError> {
    if copied != count {
        Err(CnaError::Native(NativeFault::InconsistentVertexBindingCount))
    } else if first != (if native.len() == 0 { INVALID_HANDLE } else { native[0].vertex_buffer }) {
        Err(CnaError::Native(NativeFault::InconsistentFirstVertexBuffer))
    } else if recorded.len() != native.len() {
        Err(CnaError::Native(NativeFault::VertexBindingsChangedOutside))
    } else {
        spec_bindings_agree_from(recorded, native, 0)
    }
}

/// Checks the runtime's vertex bindings against the device's record; the
/// device answers its record only when they agree.
#[verifier::loop_isolation(false)]
pub fn check_vertex_bindings(
    count: u64,
    copied: u64,
    first: u64,
    native: &Vec<NativeVertexBinding>,
    recorded: &Vec<RecordedVertexBinding>,
) -> (r: Result<(), CnaError>)
    ensures
        r == spec_check_vertex_bindings(count, copied, first, native@, recorded@),
{
    if copied != count {
        return Err(CnaError::Native(NativeFault::InconsistentVertexBindingCount));
    }
    let expected_first: u64 = if native.len() == 0 {
        INVALID_HANDLE
    } else {
        native[0].vertex_buffer
    };
    if first != expected_first {
        return Err(CnaError::Native(NativeFault::InconsistentFirstVertexBuffer));
    }
    if recorded.len() != native.len() {
        return Err(CnaError::Native(NativeFault::VertexBindingsChangedOutside));
    }
    let mut i: usize = 0;
    while i < recorded.len()
        invariant
            i <= recorded@.len(),
            recorded@.len() == native@.len(),
            spec_bindings_agree_from(recorded@, native@, 0) == spec_bindings_agree_from(recorded@, native@, i as int),
        decreases recorded@.len() - i,
    {
        let logical = recorded[i];
        let handle = match logical.handle {
            Ok(handle) => handle,
            Err(e) => {
                assert(spec_bindings_agree_from(recorded@, native@, i as int) == Err::<(), CnaError>(e));
                return Err(e);
            },
        };
        if handle != native[i].vertex_buffer || logical.vertex_offset != native[i].vertex_offset
            || logical.instance_frequency != native[i].instance_frequency {
            return Err(CnaError::Native(NativeFault::VertexBindingIdentityDiffers));
        }
        i = i + 1;
    }
    Ok(())
}

} // verus!
