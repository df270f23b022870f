//! Vertex and index buffers: what a buffer is, and every check and transfer
//! plan that stands between a caller's slice and the native buffer.
//!
//! The native runtime owns the storage. This module decides, from plain
//! values, whether a creation, an upload or a readback is legal and exactly
//! which window of the caller's data crosses the boundary.

#![allow(non_snake_case)]

use vstd::prelude::*;

use crate::error::{CnaError, InputError, NativeFault};
use crate::kinds::{BufferUsage, IndexElementSize, NativeEnumValue, SetDataOptions};

verus! {

/// The native word of the one buffer-usage flag the runtime knows.
pub const BUFFER_USAGE_WRITE_ONLY: u32 = 1;

/// The native word of `SetDataOptions.Discard`.
pub const SET_DATA_DISCARD: u32 = 1;

/// The native word of `SetDataOptions.NoOverwrite`.
pub const SET_DATA_NO_OVERWRITE: u32 = 2;

/// A half-open window `start..end` into a caller's slice.
#[derive(Clone, Copy, Debug, PartialEq, Eq, Structural)]
pub struct TransferRange {
    pub start: usize,
    pub end: usize,
}

impl TransferRange {
    pub open spec fn spec_len(self) -> int {
        self.end - self.start
    }

    /// The number of elements in the window.
    pub fn len(&self) -> (r: usize)
        requires
            self.start <= self.end,
        ensures
            r == self.spec_len(),
    {
        self.end - self.start
    }
}

/// Whether a usage word names only flags the runtime knows.
pub open spec fn usage_is_known(usage: BufferUsage) -> bool {
    usage@ as u32 & !BUFFER_USAGE_WRITE_ONLY == 0
}

/// Refuses a buffer usage that carries an unknown flag.
pub fn validate_usage(usage: BufferUsage) -> (r: Result<(), CnaError>)
    ensures
        r is Ok <==> usage_is_known(usage),
        r is Err ==> r == Err::<(), CnaError>(CnaError::InvalidInput(InputError::UnknownBufferUsage)),
{
    if usage.bits() & !BUFFER_USAGE_WRITE_ONLY == 0 {
        Ok(())
    } else {
        Err(CnaError::InvalidInput(InputError::UnknownBufferUsage))
    }
}

/// The verdict on a set of upload options for a buffer.
pub open spec fn options_outcome(options: SetDataOptions, dynamic: bool) -> Result<(), CnaError> {
    let bits = options@ as u32;
    if bits > SET_DATA_NO_OVERWRITE || bits == (SET_DATA_DISCARD | SET_DATA_NO_OVERWRITE) {
        Err(CnaError::InvalidInput(InputError::InvalidSetDataOptions))
    } else if !dynamic && bits != 0 {
        Err(CnaError::InvalidInput(InputError::OptionsRequireDynamicBuffer))
    } else {
        Ok(())
    }
}

/// Refuses an invalid option combination, and `Discard` or `NoOverwrite` on a
/// buffer that is not dynamic.
pub fn validate_options(options: SetDataOptions, dynamic: bool) -> (r: Result<(), CnaError>)
    ensures
        r == options_outcome(options, dynamic),
{
    let bits: u32 = options.bits();
    if bits > SET_DATA_NO_OVERWRITE || bits == (SET_DATA_DISCARD | SET_DATA_NO_OVERWRITE) {
        return Err(CnaError::InvalidInput(InputError::InvalidSetDataOptions));
    }
    if !dynamic && bits != 0 {
        return Err(CnaError::InvalidInput(InputError::OptionsRequireDynamicBuffer));
    }
    Ok(())
}

/// A slice length as the `i32` count XNA's overloads take.
pub fn count_i32(length: usize, too_large: InputError) -> (r: Result<i32, CnaError>)
    ensures
        length <= i32::MAX ==> r == Ok::<i32, CnaError>(length as i32),
        length > i32::MAX ==> r == Err::<i32, CnaError>(CnaError::InvalidInput(too_large)),
{
    if length <= i32::MAX as usize {
        Ok(length as i32)
    } else {
        Err(CnaError::InvalidInput(too_large))
    }
}

/// The window `start..start + count` of a slice of `length` elements.
pub open spec fn window_outcome(length: usize, start: i32, count: i32) -> Result<TransferRange, CnaError> {
    if start < 0 {
        Err(CnaError::InvalidInput(InputError::NegativeStartIndex))
    } else if count < 0 {
        Err(CnaError::InvalidInput(InputError::NegativeElementCount))
    } else if start + count > usize::MAX {
        Err(CnaError::InvalidInput(InputError::WindowOverflow))
    } else if start + count > length {
        Err(CnaError::InvalidInput(InputError::WindowExceedsSlice))
    } else {
        Ok(TransferRange { start: start as usize, end: (start + count) as usize })
    }
}

/// Checks that a caller's window lies inside its slice.
pub fn checked_range(length: usize, start: i32, count: i32) -> (r: Result<TransferRange, CnaError>)
    ensures
        r == window_outcome(length, start, count),
        r matches Ok(w) ==> w.start <= w.end <= length,
{
    if start < 0 {
        return Err(CnaError::InvalidInput(InputError::NegativeStartIndex));
    }
    if count < 0 {
        return Err(CnaError::InvalidInput(InputError::NegativeElementCount));
    }
    let s: usize = start as usize;
    let c: usize = count as usize;
    let end: usize = match s.checked_add(c) {
        Some(value) => value,
        None => return Err(CnaError::InvalidInput(InputError::WindowOverflow)),
    };
    if end > length {
        Err(CnaError::InvalidInput(InputError::WindowExceedsSlice))
    } else {
        Ok(TransferRange { start: s, end })
    }
}

/// A vertex buffer as the library models it: the native handle, the stride
/// of its declaration, and what it was created with.
#[derive(Clone, Copy, Debug)]
pub struct VertexBuffer {
    handle: u64,
    vertex_stride: i32,
    vertex_count: i32,
    usage: BufferUsage,
    dynamic: bool,
}

/// What the runtime reports, or was asked for, about a vertex buffer.
#[derive(Clone, Copy, Debug, PartialEq, Eq, Structural)]
pub struct VertexBufferMetadata {
    pub vertex_count: i32,
    pub vertex_stride: i32,
    pub buffer_usage: u32,
    pub dynamic: bool,
}

/// An index buffer as the library models it.
#[derive(Clone, Copy, Debug)]
pub struct IndexBuffer {
    handle: u64,
    index_count: i32,
    element_size: IndexElementSize,
    usage: BufferUsage,
    dynamic: bool,
}

/// What the runtime reports, or was asked for, about an index buffer.
#[derive(Clone, Copy, Debug, PartialEq, Eq, Structural)]
pub struct IndexBufferMetadata {
    pub index_count: i32,
    pub index_element_size: u32,
    pub buffer_usage: u32,
    pub dynamic: bool,
}

/// The verdict on a request to create a buffer of `count` elements.
pub open spec fn create_outcome(usage: BufferUsage, count: i32, negative: InputError) -> Result<(), CnaError> {
    if !usage_is_known(usage) {
        Err(CnaError::InvalidInput(InputError::UnknownBufferUsage))
    } else if count < 0 {
        Err(CnaError::InvalidInput(negative))
    } else {
        Ok(())
    }
}

impl VertexBuffer {
    pub closed spec fn spec_handle(&self) -> u64 {
        self.handle
    }

    pub closed spec fn spec_vertex_stride(&self) -> i32 {
        self.vertex_stride
    }

    pub closed spec fn spec_vertex_count(&self) -> i32 {
        self.vertex_count
    }

    pub closed spec fn spec_usage(&self) -> BufferUsage {
        self.usage
    }

    pub closed spec fn spec_dynamic(&self) -> bool {
        self.dynamic
    }

    /// A buffer never holds a negative vertex count.
    pub closed spec fn wf(&self) -> bool {
        self.vertex_count >= 0
    }

    /// Checks a creation request before anything native is made.
    pub fn validate_create(usage: BufferUsage, vertex_count: i32) -> (r: Result<(), CnaError>)
        ensures
            r == create_outcome(usage, vertex_count, InputError::NegativeVertexCount),
    {
        validate_usage(usage)?;
        if vertex_count < 0 {
            return Err(CnaError::InvalidInput(InputError::NegativeVertexCount));
        }
        Ok(())
    }

    /// What a creation request asks the runtime for.
    pub open spec fn requested_metadata(stride: i32, vertex_count: i32, usage: BufferUsage, dynamic: bool) -> VertexBufferMetadata {
        VertexBufferMetadata {
            vertex_count,
            vertex_stride: stride,
            buffer_usage: usage@ as u32,
            dynamic,
        }
    }

    /// Adopts a freshly created native buffer once the runtime's report of it
    /// matches the request; a mismatch is an internal fault, and the caller
    /// must then destroy the native buffer.
    pub fn adopt_created(
        handle: u64,
        stride: i32,
        vertex_count: i32,
        usage: BufferUsage,
        dynamic: bool,
        reported: VertexBufferMetadata,
    ) -> (r: Result<VertexBuffer, CnaError>)
        requires
            vertex_count >= 0,
        ensures
            reported == Self::requested_metadata(stride, vertex_count, usage, dynamic) ==> (r matches Ok(b) && b.wf()
                && b.spec_handle() == handle && b.spec_vertex_stride() == stride
                && b.spec_vertex_count() == vertex_count && b.spec_usage() == usage
                && b.spec_dynamic() == dynamic),
            reported != Self::requested_metadata(stride, vertex_count, usage, dynamic) ==> r == Err::<VertexBuffer, CnaError>(
                CnaError::Native(NativeFault::InconsistentVertexBufferMetadata),
            ),
    {
        if reported.vertex_count != vertex_count || reported.vertex_stride != stride
            || reported.buffer_usage != usage.bits() || reported.dynamic != dynamic
        {
            return Err(CnaError::Native(NativeFault::InconsistentVertexBufferMetadata));
        }
        Ok(VertexBuffer { handle, vertex_stride: stride, vertex_count, usage, dynamic })
    }

    /// The native handle of the buffer.
    pub fn handle(&self) -> (r: u64)
        ensures
            r == self.spec_handle(),
    {
        self.handle
    }

    /// The stride of the buffer's vertex declaration.
    pub fn VertexStride(&self) -> (r: i32)
        ensures
            r == self.spec_vertex_stride(),
    {
        self.vertex_stride
    }

    /// XNA `VertexBuffer.VertexCount`.
    pub fn VertexCount(&self) -> (r: i32)
        ensures
            r == self.spec_vertex_count(),
    {
        self.vertex_count
    }

    /// XNA `VertexBuffer.BufferUsage`.
    pub fn BufferUsage(&self) -> (r: BufferUsage)
        ensures
            r == self.spec_usage(),
    {
        self.usage
    }

    /// Whether the buffer was created dynamic.
    pub fn is_dynamic(&self) -> (r: bool)
        ensures
            r == self.spec_dynamic(),
    {
        self.dynamic
    }

    /// The verdict on a vertex transfer window.
    pub open spec fn transfer_outcome(
        &self,
        offset: i32,
        length: usize,
        start: i32,
        count: i32,
        stride: i32,
        data_stride: i32,
        declarations_match: bool,
    ) -> Result<TransferRange, CnaError> {
        if offset < 0 {
            Err(CnaError::InvalidInput(InputError::NegativeBufferOffset))
        } else if stride <= 0 || stride != self.spec_vertex_stride() || stride != data_stride
            || !declarations_match {
            Err(CnaError::InvalidInput(InputError::VertexDeclarationMismatch))
        } else {
            match window_outcome(length, start, count) {
                Err(e) => Err(e),
                Ok(w) => {
                    let bytes = w.spec_len() * stride;
                    let capacity = self.spec_vertex_count() * self.spec_vertex_stride();
                    if bytes > usize::MAX {
                        Err(CnaError::InvalidInput(InputError::VertexTransferSizeOverflow))
                    } else if offset + bytes > usize::MAX {
                        Err(CnaError::InvalidInput(InputError::VertexTransferRangeOverflow))
                    } else if capacity > usize::MAX {
                        Err(CnaError::InvalidInput(InputError::VertexCapacityOverflow))
                    } else if offset % stride != 0 || offset + bytes > capacity {
                        Err(CnaError::InvalidInput(InputError::VertexTransferExceedsCapacity))
                    } else {
                        Ok(w)
                    }
                },
            }
        }
    }

    /// Checks a vertex transfer: a non-negative, stride-aligned byte offset,
    /// a stride and declaration equal to the buffer's, a window inside the
    /// caller's slice, and bytes that fit the buffer.
    ///
    /// `data_stride` and `declarations_match` describe the element type of
    /// the caller's data against the buffer's declaration.
    pub fn validate_transfer(
        &self,
        offset: i32,
        length: usize,
        start: i32,
        count: i32,
        stride: i32,
        data_stride: i32,
        declarations_match: bool,
    ) -> (r: Result<TransferRange, CnaError>)
        requires
            self.wf(),
        ensures
            r == self.transfer_outcome(offset, length, start, count, stride, data_stride, declarations_match),
            r matches Ok(w) ==> w.start <= w.end <= length,
            r matches Ok(w) ==> vertex_transfer_fits(*self, offset, length, start, count, stride, data_stride, declarations_match, w),
    {
        if offset < 0 {
            return Err(CnaError::InvalidInput(InputError::NegativeBufferOffset));
        }
        if stride <= 0 || stride != self.vertex_stride || stride != data_stride || !declarations_match {
            return Err(CnaError::InvalidInput(InputError::VertexDeclarationMismatch));
        }
        let range = checked_range(length, start, count)?;
        let n: usize = range.len();
        let bytes: usize = match n.checked_mul(stride as usize) {
            Some(value) => value,
            None => return Err(CnaError::InvalidInput(InputError::VertexTransferSizeOverflow)),
        };
        let end: usize = match (offset as usize).checked_add(bytes) {
            Some(value) => value,
            None => return Err(CnaError::InvalidInput(InputError::VertexTransferRangeOverflow)),
        };
        let capacity: usize = match (self.vertex_count as usize).checked_mul(self.vertex_stride as usize) {
            Some(value) => value,
            None => return Err(CnaError::InvalidInput(InputError::VertexCapacityOverflow)),
        };
        if offset as usize % stride as usize != 0 || end > capacity {
            return Err(CnaError::InvalidInput(InputError::VertexTransferExceedsCapacity));
        }
        Ok(range)
    }

    /// The verdict on an upload, and the route it takes.
    pub open spec fn set_data_outcome(
        &self,
        offset: i32,
        length: usize,
        start: i32,
        count: i32,
        stride: i32,
        data_stride: i32,
        declarations_match: bool,
        options: SetDataOptions,
        native_vertex_type: Option<u32>,
    ) -> Result<VertexUpload, CnaError> {
        match self.transfer_outcome(offset, length, start, count, stride, data_stride, declarations_match) {
            Err(e) => Err(e),
            Ok(w) => match options_outcome(options, self.spec_dynamic()) {
                Err(e) => Err(e),
                Ok(_) => if options@ as u32 != 0 {
                    if offset != 0 {
                        Err(CnaError::InvalidInput(InputError::VertexOffsetWithUploadOptions))
                    } else {
                        match native_vertex_type {
                            None => Err(CnaError::InvalidInput(InputError::UploadOptionsNeedBuiltInVertex)),
                            Some(t) => Ok(VertexUpload::Typed {
                                vertex_type: t,
                                options: options@ as u32,
                                start_index: w.start as u64,
                                element_count: w.spec_len() as u64,
                                window: w,
                            }),
                        }
                    }
                } else {
                    Ok(VertexUpload::Raw {
                        byte_offset: if offset != 0 { Some(offset as u64) } else { None },
                        window: w,
                        vertex_count: count as u64,
                        stride: stride as u32,
                    })
                },
            },
        }
    }

    /// Plans an upload of `data[start..start + count]`.
    ///
    /// `native_vertex_type` names the runtime's built-in layout of the
    /// caller's element type, where it has one: `Discard` and `NoOverwrite`
    /// travel only through that typed route, and only at offset zero.
    pub fn plan_set_data(
        &self,
        offset: i32,
        length: usize,
        start: i32,
        count: i32,
        stride: i32,
        data_stride: i32,
        declarations_match: bool,
        options: SetDataOptions,
        native_vertex_type: Option<u32>,
    ) -> (r: Result<VertexUpload, CnaError>)
        requires
            self.wf(),
        ensures
            r == self.set_data_outcome(
                offset, length, start, count, stride, data_stride, declarations_match, options,
                native_vertex_type,
            ),
    {
        let range = self.validate_transfer(offset, length, start, count, stride, data_stride, declarations_match)?;
        validate_options(options, self.dynamic)?;
        let bits: u32 = options.bits();
        if bits != 0 {
            if offset != 0 {
                return Err(CnaError::InvalidInput(InputError::VertexOffsetWithUploadOptions));
            }
            return match native_vertex_type {
                None => Err(CnaError::InvalidInput(InputError::UploadOptionsNeedBuiltInVertex)),
                Some(t) => {
                    let n: usize = range.len();
                    Ok(VertexUpload::Typed {
                        vertex_type: t,
                        options: bits,
                        start_index: range.start as u64,
                        element_count: n as u64,
                        window: range,
                    })
                },
            };
        }
        let byte_offset: Option<u64> = if offset != 0 { Some(offset as u64) } else { None };
        Ok(VertexUpload::Raw { byte_offset, window: range, vertex_count: count as u64, stride: stride as u32 })
    }

    /// Plans a readback into `data[start..start + count]`: the window, and
    /// the number of bytes the runtime writes.
    pub fn plan_get_data(
        &self,
        offset: i32,
        length: usize,
        start: i32,
        count: i32,
        stride: i32,
        data_stride: i32,
        declarations_match: bool,
    ) -> (r: Result<(TransferRange, usize), CnaError>)
        requires
            self.wf(),
        ensures
            match self.transfer_outcome(offset, length, start, count, stride, data_stride, declarations_match) {
                Err(e) => r == Err::<(TransferRange, usize), CnaError>(e),
                Ok(w) => r == Ok::<(TransferRange, usize), CnaError>((w, (w.spec_len() * stride) as usize)),
            },
    {
        let range = self.validate_transfer(offset, length, start, count, stride, data_stride, declarations_match)?;
        let n: usize = range.len();
        let bytes: usize = match n.checked_mul(stride as usize) {
            Some(value) => value,
            None => return Err(CnaError::InvalidInput(InputError::VertexTransferSizeOverflow)),
        };
        Ok((range, bytes))
    }
}

/// The route an accepted vertex upload takes to the runtime.
#[derive(Clone, Copy, Debug, PartialEq, Eq, Structural)]
pub enum VertexUpload {
    /// The runtime's typed route, for a built-in vertex layout, carrying the
    /// upload options.
    Typed { vertex_type: u32, options: u32, start_index: u64, element_count: u64, window: TransferRange },
    /// The raw byte route: the encoded window, written at an optional byte
    /// offset.
    Raw { byte_offset: Option<u64>, window: TransferRange, vertex_count: u64, stride: u32 },
}

/// XNA's 16-bit and 32-bit index element types, and how each crosses the
/// boundary as a 32-bit word.
pub trait IndexData: Copy + Sized {
    spec fn spec_element_size() -> IndexElementSize;

    spec fn spec_to_bits(self) -> u32;

    spec fn spec_from_bits(value: u32) -> Self;

    /// A value survives the trip through its word.
    proof fn lemma_bits_round_trip(self)
        ensures
            Self::spec_from_bits(self.spec_to_bits()) == self,
    ;

    /// A 16-bit value survives being stored as the low half of its word.
    proof fn lemma_narrow_round_trip(self)
        ensures
            Self::spec_element_size() == IndexElementSize::SixteenBits ==> Self::spec_from_bits(
                (self.spec_to_bits() as u16) as u32,
            ) == self,
    ;

    /// The element size of the type.
    fn ELEMENT_SIZE() -> (r: IndexElementSize)
        ensures
            r == Self::spec_element_size(),
    ;

    /// The value as the word the runtime stores.
    fn to_bits(self) -> (r: u32)
        ensures
            r == self.spec_to_bits(),
    ;

    /// The value a stored word holds.
    fn from_bits(value: u32) -> (r: Self)
        ensures
            r == Self::spec_from_bits(value),
    ;
}

impl IndexData for u16 {
    open spec fn spec_element_size() -> IndexElementSize {
        IndexElementSize::SixteenBits
    }

    open spec fn spec_to_bits(self) -> u32 {
        self as u32
    }

    open spec fn spec_from_bits(value: u32) -> Self {
        value as u16
    }

    proof fn lemma_bits_round_trip(self) {
        let x: u16 = self;
        assert((x as u32) as u16 == x) by (bit_vector);
    }

    proof fn lemma_narrow_round_trip(self) {
        let x: u16 = self;
        assert((((x as u32) as u16) as u32) as u16 == x) by (bit_vector);
    }

    fn ELEMENT_SIZE() -> (r: IndexElementSize) {
        IndexElementSize::SixteenBits
    }

    fn to_bits(self) -> (r: u32) {
        self as u32
    }

    fn from_bits(value: u32) -> (r: Self) {
        value as u16
    }
}

impl IndexData for i16 {
    open spec fn spec_element_size() -> IndexElementSize {
        IndexElementSize::SixteenBits
    }

    open spec fn spec_to_bits(self) -> u32 {
        self as u32
    }

    open spec fn spec_from_bits(value: u32) -> Self {
        value as i16
    }

    proof fn lemma_bits_round_trip(self) {
        let x: i16 = self;
        assert((x as u32) as i16 == x) by (bit_vector);
    }

    proof fn lemma_narrow_round_trip(self) {
        let x: i16 = self;
        assert((((x as u32) as u16) as u32) as i16 == x) by (bit_vector);
    }

    fn ELEMENT_SIZE() -> (r: IndexElementSize) {
        IndexElementSize::SixteenBits
    }

    fn to_bits(self) -> (r: u32) {
        self as u32
    }

    fn from_bits(value: u32) -> (r: Self) {
        value as i16
    }
}

impl IndexData for u32 {
    open spec fn spec_element_size() -> IndexElementSize {
        IndexElementSize::ThirtyTwoBits
    }

    open spec fn spec_to_bits(self) -> u32 {
        self as u32
    }

    open spec fn spec_from_bits(value: u32) -> Self {
        value as u32
    }

    proof fn lemma_bits_round_trip(self) {
        let x: u32 = self;
        assert((x as u32) as u32 == x) by (bit_vector);
    }

    proof fn lemma_narrow_round_trip(self) {
    }

    fn ELEMENT_SIZE() -> (r: IndexElementSize) {
        IndexElementSize::ThirtyTwoBits
    }

    fn to_bits(self) -> (r: u32) {
        self as u32
    }

    fn from_bits(value: u32) -> (r: Self) {
        value as u32
    }
}

impl IndexData for i32 {
    open spec fn spec_element_size() -> IndexElementSize {
        IndexElementSize::ThirtyTwoBits
    }

    open spec fn spec_to_bits(self) -> u32 {
        self as u32
    }

    open spec fn spec_from_bits(value: u32) -> Self {
        value as i32
    }

    proof fn lemma_bits_round_trip(self) {
        let x: i32 = self;
        assert((x as u32) as i32 == x) by (bit_vector);
    }

    proof fn lemma_narrow_round_trip(self) {
    }

    fn ELEMENT_SIZE() -> (r: IndexElementSize) {
        IndexElementSize::ThirtyTwoBits
    }

    fn to_bits(self) -> (r: u32) {
        self as u32
    }

    fn from_bits(value: u32) -> (r: Self) {
        value as i32
    }
}

/// The width in bytes of one index element.
pub open spec fn element_width(size: IndexElementSize) -> int {
    match size {
        IndexElementSize::SixteenBits => 2,
        IndexElementSize::ThirtyTwoBits => 4,
    }
}

/// The index words an upload hands the runtime, in the buffer's width.
#[derive(Clone, Debug)]
pub enum IndexWords {
    Sixteen(Vec<u16>),
    ThirtyTwo(Vec<u32>),
}

/// An accepted index upload: where it lands, with which options, and the
/// words themselves.
#[derive(Clone, Debug)]
pub struct IndexUpload {
    pub byte_offset: Option<u64>,
    pub options: u32,
    pub words: IndexWords,
}

impl IndexBuffer {
    pub closed spec fn spec_handle(&self) -> u64 {
        self.handle
    }

    pub closed spec fn spec_index_count(&self) -> i32 {
        self.index_count
    }

    pub closed spec fn spec_element_size(&self) -> IndexElementSize {
        self.element_size
    }

    pub closed spec fn spec_usage(&self) -> BufferUsage {
        self.usage
    }

    pub closed spec fn spec_dynamic(&self) -> bool {
        self.dynamic
    }

    /// A buffer never holds a negative index count.
    pub closed spec fn wf(&self) -> bool {
        self.index_count >= 0
    }

    /// Checks a creation request before anything native is made.
    pub fn validate_create(usage: BufferUsage, index_count: i32) -> (r: Result<(), CnaError>)
        ensures
            r == create_outcome(usage, index_count, InputError::NegativeIndexCount),
    {
        validate_usage(usage)?;
        if index_count < 0 {
            return Err(CnaError::InvalidInput(InputError::NegativeIndexCount));
        }
        Ok(())
    }

    /// What a creation request asks the runtime for.
    pub open spec fn requested_metadata(
        index_count: i32,
        element_size: IndexElementSize,
        usage: BufferUsage,
        dynamic: bool,
    ) -> IndexBufferMetadata {
        IndexBufferMetadata {
            index_count,
            index_element_size: element_size.spec_native(),
            buffer_usage: usage@ as u32,
            dynamic,
        }
    }

    /// Adopts a freshly created native buffer once the runtime's report of it
    /// matches the request; a mismatch is an internal fault, and the caller
    /// must then destroy the native buffer.
    pub fn adopt_created(
        handle: u64,
        index_count: i32,
        element_size: IndexElementSize,
        usage: BufferUsage,
        dynamic: bool,
        reported: IndexBufferMetadata,
    ) -> (r: Result<IndexBuffer, CnaError>)
        requires
            index_count >= 0,
        ensures
            reported == Self::requested_metadata(index_count, element_size, usage, dynamic) ==> (r matches Ok(b)
                && b.wf() && b.spec_handle() == handle && b.spec_index_count() == index_count
                && b.spec_element_size() == element_size && b.spec_usage() == usage
                && b.spec_dynamic() == dynamic),
            reported != Self::requested_metadata(index_count, element_size, usage, dynamic) ==> r == Err::<IndexBuffer, CnaError>(
                CnaError::Native(NativeFault::InconsistentIndexBufferMetadata),
            ),
    {
        if reported.index_count != index_count || reported.index_element_size != element_size.native_value()
            || reported.buffer_usage != usage.bits() || reported.dynamic != dynamic
        {
            return Err(CnaError::Native(NativeFault::InconsistentIndexBufferMetadata));
        }
        Ok(IndexBuffer { handle, index_count, element_size, usage, dynamic })
    }

    /// The native handle of the buffer.
    pub fn handle(&self) -> (r: u64)
        ensures
            r == self.spec_handle(),
    {
        self.handle
    }

    /// XNA `IndexBuffer.IndexCount`.
    pub fn IndexCount(&self) -> (r: i32)
        ensures
            r == self.spec_index_count(),
    {
        self.index_count
    }

    /// XNA `IndexBuffer.IndexElementSize`.
    pub fn IndexElementSize(&self) -> (r: IndexElementSize)
        ensures
            r == self.spec_element_size(),
    {
        self.element_size
    }

    /// XNA `IndexBuffer.BufferUsage`.
    pub fn BufferUsage(&self) -> (r: BufferUsage)
        ensures
            r == self.spec_usage(),
    {
        self.usage
    }

    /// Whether the buffer was created dynamic.
    pub fn is_dynamic(&self) -> (r: bool)
        ensures
            r == self.spec_dynamic(),
    {
        self.dynamic
    }

    /// The verdict on an index transfer window.
    pub open spec fn transfer_outcome(
        &self,
        offset: i32,
        length: usize,
        start: i32,
        count: i32,
        element_size: IndexElementSize,
    ) -> Result<TransferRange, CnaError> {
        if element_size != self.spec_element_size() {
            Err(CnaError::InvalidInput(InputError::IndexElementMismatch))
        } else if offset < 0 {
            Err(CnaError::InvalidInput(InputError::NegativeBufferOffset))
        } else {
            match window_outcome(length, start, count) {
                Err(e) => Err(e),
                Ok(w) => {
                    let width = element_width(element_size);
                    let bytes = w.spec_len() * width;
                    let capacity = self.spec_index_count() * width;
                    if bytes > usize::MAX {
                        Err(CnaError::InvalidInput(InputError::IndexTransferSizeOverflow))
                    } else if offset + bytes > usize::MAX {
                        Err(CnaError::InvalidInput(InputError::IndexTransferRangeOverflow))
                    } else if capacity > usize::MAX {
                        Err(CnaError::InvalidInput(InputError::IndexCapacityOverflow))
                    } else if (offset as int) % width != 0 || offset + bytes > capacity {
                        Err(CnaError::InvalidInput(InputError::IndexTransferExceedsCapacity))
                    } else {
                        Ok(w)
                    }
                },
            }
        }
    }

    /// Checks an index transfer: the caller's element width equals the
    /// buffer's, the byte offset is non-negative and element-aligned, the
    /// window lies inside the caller's slice, and the bytes fit the buffer.
    pub fn validate_transfer(
        &self,
        offset: i32,
        length: usize,
        start: i32,
        count: i32,
        element_size: IndexElementSize,
    ) -> (r: Result<TransferRange, CnaError>)
        requires
            self.wf(),
        ensures
            r == self.transfer_outcome(offset, length, start, count, element_size),
            r matches Ok(w) ==> w.start <= w.end <= length,
            r matches Ok(w) ==> index_transfer_fits(*self, offset, length, start, count, element_size, w),
    {
        if element_size != self.element_size {
            return Err(CnaError::InvalidInput(InputError::IndexElementMismatch));
        }
        if offset < 0 {
            return Err(CnaError::InvalidInput(InputError::NegativeBufferOffset));
        }
        let range = checked_range(length, start, count)?;
        let width: usize = match element_size {
            IndexElementSize::SixteenBits => 2,
            IndexElementSize::ThirtyTwoBits => 4,
        };
        let n: usize = range.len();
        let bytes: usize = match n.checked_mul(width) {
            Some(value) => value,
            None => return Err(CnaError::InvalidInput(InputError::IndexTransferSizeOverflow)),
        };
        let end: usize = match (offset as usize).checked_add(bytes) {
            Some(value) => value,
            None => return Err(CnaError::InvalidInput(InputError::IndexTransferRangeOverflow)),
        };
        let capacity: usize = match (self.index_count as usize).checked_mul(width) {
            Some(value) => value,
            None => return Err(CnaError::InvalidInput(InputError::IndexCapacityOverflow)),
        };
        if offset as usize % width != 0 || end > capacity {
            return Err(CnaError::InvalidInput(InputError::IndexTransferExceedsCapacity));
        }
        Ok(range)
    }

    /// The verdict on an index upload, before any word is converted.
    pub open spec fn set_data_outcome<T: IndexData>(
        &self,
        offset: i32,
        length: usize,
        start: i32,
        count: i32,
        options: SetDataOptions,
    ) -> Result<TransferRange, CnaError> {
        match self.transfer_outcome(offset, length, start, count, T::spec_element_size()) {
            Err(e) => Err(e),
            Ok(w) => match options_outcome(options, self.spec_dynamic()) {
                Err(e) => Err(e),
                Ok(_) => if offset != 0 && options@ as u32 != 0 {
                    Err(CnaError::InvalidInput(InputError::IndexOffsetWithUploadOptions))
                } else {
                    Ok(w)
                },
            },
        }
    }

    /// Plans an upload of `data[start..start + count]`: the window's values
    /// as the buffer's words (a 16-bit buffer keeps the low half of each
    /// word), at the byte offset, with the options.
    pub fn plan_set_data<T: IndexData>(
        &self,
        offset: i32,
        data: &[T],
        start: i32,
        count: i32,
        options: SetDataOptions,
    ) -> (r: Result<IndexUpload, CnaError>)
        requires
            self.wf(),
        ensures
            match self.set_data_outcome::<T>(offset, data@.len() as usize, start, count, options) {
                Err(e) => r == Err::<IndexUpload, CnaError>(e),
                Ok(w) => r matches Ok(u) && u.options == options@ as u32
                    && u.byte_offset == (if offset != 0 { Some(offset as u64) } else { None::<u64> })
                    && match u.words {
                        IndexWords::Sixteen(words) => self.spec_element_size() == IndexElementSize::SixteenBits
                            && words@.len() == w.spec_len()
                            && forall|i: int| 0 <= i < words@.len() ==> #[trigger] words@[i]
                                == data@[w.start + i].spec_to_bits() as u16,
                        IndexWords::ThirtyTwo(words) => self.spec_element_size() == IndexElementSize::ThirtyTwoBits
                            && words@.len() == w.spec_len()
                            && forall|i: int| 0 <= i < words@.len() ==> #[trigger] words@[i]
                                == data@[w.start + i].spec_to_bits(),
                    },
            },
    {
        let range = self.validate_transfer(offset, data.len(), start, count, T::ELEMENT_SIZE())?;
        validate_options(options, self.dynamic)?;
        let bits: u32 = options.bits();
        if offset != 0 && bits != 0 {
            return Err(CnaError::InvalidInput(InputError::IndexOffsetWithUploadOptions));
        }
        let byte_offset: Option<u64> = if offset != 0 { Some(offset as u64) } else { None };
        let words = match self.element_size {
            IndexElementSize::SixteenBits => {
                let mut values: Vec<u16> = Vec::new();
                let mut i: usize = range.start;
                while i < range.end
                    invariant
                        range.start <= i <= range.end <= data@.len(),
                        values@.len() == i - range.start,
                        forall|k: int| 0 <= k < values@.len() ==> #[trigger] values@[k]
                            == data@[range.start + k].spec_to_bits() as u16,
                    decreases range.end - i,
                {
                    values.push(data[i].to_bits() as u16);
                    i = i + 1;
                }
                IndexWords::Sixteen(values)
            },
            IndexElementSize::ThirtyTwoBits => {
                let mut values: Vec<u32> = Vec::new();
                let mut i: usize = range.start;
                while i < range.end
                    invariant
                        range.start <= i <= range.end <= data@.len(),
                        values@.len() == i - range.start,
                        forall|k: int| 0 <= k < values@.len() ==> #[trigger] values@[k]
                            == data@[range.start + k].spec_to_bits(),
                    decreases range.end - i,
                {
                    values.push(data[i].to_bits());
                    i = i + 1;
                }
                IndexWords::ThirtyTwo(values)
            },
        };
        Ok(IndexUpload { byte_offset, options: bits, words })
    }

    /// The verdict on an index readback.
    pub open spec fn get_data_outcome<T: IndexData>(&self, offset: i32, length: usize, start: i32, count: i32) -> Result<TransferRange, CnaError> {
        match self.transfer_outcome(offset, length, start, count, T::spec_element_size()) {
            Err(e) => Err(e),
            Ok(w) => if offset != 0 {
                Err(CnaError::InvalidInput(InputError::IndexReadbackWithOffset))
            } else {
                Ok(w)
            },
        }
    }

    /// Plans a readback into `data[start..start + count]`; the runtime reads
    /// only from the start of the buffer.
    pub fn plan_get_data<T: IndexData>(&self, offset: i32, length: usize, start: i32, count: i32) -> (r: Result<TransferRange, CnaError>)
        requires
            self.wf(),
        ensures
            r == self.get_data_outcome::<T>(offset, length, start, count),
            r matches Ok(w) ==> w.start <= w.end <= length,
    {
        let range = self.validate_transfer(offset, length, start, count, T::ELEMENT_SIZE())?;
        if offset != 0 {
            return Err(CnaError::InvalidInput(InputError::IndexReadbackWithOffset));
        }
        Ok(range)
    }

    /// Stores the words the runtime read back into the caller's window, and
    /// then checks that the runtime counted exactly the window's length.
    pub fn finish_get_data<T: IndexData>(
        data: &mut [T],
        window: TransferRange,
        words: &[u32],
        required: u64,
    ) -> (r: Result<(), CnaError>)
        requires
            window.start <= window.end <= old(data)@.len(),
            words@.len() == window.spec_len(),
        ensures
            final(data)@.len() == old(data)@.len(),
            forall|i: int| 0 <= i < old(data)@.len() ==> #[trigger] final(data)@[i] == if window.start <= i < window.end {
                T::spec_from_bits(words@[i - window.start])
            } else {
                old(data)@[i]
            },
            r is Ok <==> required == window.spec_len(),
            r is Err ==> r == Err::<(), CnaError>(CnaError::Native(NativeFault::InconsistentIndexReadbackCount)),
    {
        let mut i: usize = window.start;
        while i < window.end
            invariant
                window.start <= i <= window.end <= data@.len(),
                words@.len() == window.spec_len(),
                data@.len() == old(data)@.len(),
                forall|k: int| 0 <= k < data@.len() ==> #[trigger] data@[k] == if window.start <= k < i {
                    T::spec_from_bits(words@[k - window.start])
                } else {
                    old(data)@[k]
                },
            decreases window.end - i,
        {
            let value: T = T::from_bits(words[i - window.start]);
            data[i] = value;
            i = i + 1;
        }
        if required != (window.end - window.start) as u64 {
            return Err(CnaError::Native(NativeFault::InconsistentIndexReadbackCount));
        }
        Ok(())
    }
}

/// The word a buffer of `size` keeps for a value's word: the low half in a
/// 16-bit buffer, the whole word in a 32-bit one, read back widened.
pub open spec fn stored_word(size: IndexElementSize, word: u32) -> u32 {
    match size {
        IndexElementSize::SixteenBits => (word as u16) as u32,
        IndexElementSize::ThirtyTwoBits => word,
    }
}

/// What a readback gives back of a write: an index uploaded into a buffer
/// of its own element size and read back as the stored word is the same
/// index.
pub proof fn law_index_data_round_trip<T: IndexData>(x: T)
    ensures
        T::spec_from_bits(stored_word(T::spec_element_size(), x.spec_to_bits())) == x,
{
    x.lemma_bits_round_trip();
    x.lemma_narrow_round_trip();
}

/// The element size an index type names, for the constructor that takes a
/// type rather than a size; anything but a 16-bit or 32-bit integer is
/// refused.
pub fn index_element_size_for(is_sixteen_bit: bool, is_thirty_two_bit: bool) -> (r: Result<IndexElementSize, CnaError>)
    ensures
        is_sixteen_bit ==> r == Ok::<IndexElementSize, CnaError>(IndexElementSize::SixteenBits),
        !is_sixteen_bit && is_thirty_two_bit ==> r == Ok::<IndexElementSize, CnaError>(IndexElementSize::ThirtyTwoBits),
        !is_sixteen_bit && !is_thirty_two_bit ==> r == Err::<IndexElementSize, CnaError>(
            CnaError::InvalidInput(InputError::UnsupportedIndexType),
        ),
{
    if is_sixteen_bit {
        Ok(IndexElementSize::SixteenBits)
    } else if is_thirty_two_bit {
        Ok(IndexElementSize::ThirtyTwoBits)
    } else {
        Err(CnaError::InvalidInput(InputError::UnsupportedIndexType))
    }
}

/// XNA `VertexBufferBinding`: a vertex buffer, the vertex it starts at, and
/// its instance frequency.
#[derive(Clone, Copy, Debug)]
pub struct VertexBufferBinding {
    buffer: VertexBuffer,
    vertex_offset: i32,
    instance_frequency: i32,
}

impl VertexBufferBinding {
    pub closed spec fn spec_buffer(&self) -> VertexBuffer {
        self.buffer
    }

    pub closed spec fn spec_vertex_offset(&self) -> i32 {
        self.vertex_offset
    }

    pub closed spec fn spec_instance_frequency(&self) -> i32 {
        self.instance_frequency
    }

    /// A binding starts inside its buffer and never at a negative vertex.
    pub closed spec fn wf(&self) -> bool {
        &&& self.buffer.wf()
        &&& 0 <= self.vertex_offset <= self.buffer.spec_vertex_count()
        &&& self.instance_frequency >= 0
    }

    /// XNA `VertexBufferBinding(buffer, offset, frequency)`: refuses a
    /// negative offset or frequency, and an offset past the buffer's end.
    pub fn from_vertex_buffer_and_vertex_offset_and_instance_frequency(
        vertexBuffer: &VertexBuffer,
        vertexOffset: i32,
        instanceFrequency: i32,
    ) -> (r: Result<Self, CnaError>)
        requires
            vertexBuffer.wf(),
        ensures
            (vertexOffset < 0 || instanceFrequency < 0) ==> r == Err::<Self, CnaError>(
                CnaError::InvalidInput(InputError::NegativeBindingOffsetOrFrequency),
            ),
            (vertexOffset >= 0 && instanceFrequency >= 0 && vertexOffset > vertexBuffer.spec_vertex_count())
                ==> r == Err::<Self, CnaError>(CnaError::InvalidInput(InputError::BindingOffsetExceedsCapacity)),
            (vertexOffset >= 0 && instanceFrequency >= 0 && vertexOffset <= vertexBuffer.spec_vertex_count())
                ==> (r matches Ok(b) && b.wf() && b.spec_buffer() == *vertexBuffer
                    && b.spec_vertex_offset() == vertexOffset && b.spec_instance_frequency() == instanceFrequency),
    {
        if vertexOffset < 0 || instanceFrequency < 0 {
            return Err(CnaError::InvalidInput(InputError::NegativeBindingOffsetOrFrequency));
        }
        if vertexOffset > vertexBuffer.vertex_count {
            return Err(CnaError::InvalidInput(InputError::BindingOffsetExceedsCapacity));
        }
        Ok(VertexBufferBinding { buffer: *vertexBuffer, vertex_offset: vertexOffset, instance_frequency: instanceFrequency })
    }

    /// XNA `VertexBufferBinding(buffer, offset)`, with frequency zero.
    pub fn from_vertex_buffer_and_vertex_offset(vertexBuffer: &VertexBuffer, vertexOffset: i32) -> (r: Result<Self, CnaError>)
        requires
            vertexBuffer.wf(),
        ensures
            vertexOffset < 0 ==> r == Err::<Self, CnaError>(
                CnaError::InvalidInput(InputError::NegativeBindingOffsetOrFrequency),
            ),
            vertexOffset > vertexBuffer.spec_vertex_count() ==> r == Err::<Self, CnaError>(
                CnaError::InvalidInput(InputError::BindingOffsetExceedsCapacity),
            ),
            0 <= vertexOffset <= vertexBuffer.spec_vertex_count() ==> (r matches Ok(b) && b.wf()
                && b.spec_buffer() == *vertexBuffer && b.spec_vertex_offset() == vertexOffset
                && b.spec_instance_frequency() == 0),
    {
        Self::from_vertex_buffer_and_vertex_offset_and_instance_frequency(vertexBuffer, vertexOffset, 0)
    }

    /// XNA `VertexBufferBinding(buffer)`: offset and frequency zero.
    pub fn new(vertexBuffer: &VertexBuffer) -> (r: Self)
        requires
            vertexBuffer.wf(),
        ensures
            r.wf(),
            r.spec_buffer() == *vertexBuffer,
            r.spec_vertex_offset() == 0,
            r.spec_instance_frequency() == 0,
    {
        VertexBufferBinding { buffer: *vertexBuffer, vertex_offset: 0, instance_frequency: 0 }
    }

    /// XNA `VertexBufferBinding.InstanceFrequency`.
    pub fn InstanceFrequency(&self) -> (r: i32)
        ensures
            r == self.spec_instance_frequency(),
    {
        self.instance_frequency
    }

    /// XNA `VertexBufferBinding.VertexOffset`.
    pub fn VertexOffset(&self) -> (r: i32)
        ensures
            r == self.spec_vertex_offset(),
    {
        self.vertex_offset
    }

    /// XNA `VertexBufferBinding.VertexBuffer`.
    pub fn VertexBuffer(&self) -> (r: &VertexBuffer)
        ensures
            *r == self.spec_buffer(),
    {
        &self.buffer
    }

    /// Two bindings are equal when they bind the same native buffer at the
    /// same offset and frequency.
    pub fn same_binding(&self, other: &Self) -> (r: bool)
        ensures
            r == (self.spec_buffer().spec_handle() == other.spec_buffer().spec_handle()
                && self.spec_vertex_offset() == other.spec_vertex_offset()
                && self.spec_instance_frequency() == other.spec_instance_frequency()),
    {
        self.buffer.handle == other.buffer.handle && self.vertex_offset == other.vertex_offset
            && self.instance_frequency == other.instance_frequency
    }
}

/// What a buffer creation does next, once the runtime has answered a step.
#[derive(Debug)]
pub enum CreationStep<B> {
    /// Nothing native is left to clean up; the error is answered.
    Fail(CnaError),
    /// The native buffer `handle` must be destroyed, and the error answered;
    /// a failure of that destroy is not reported.
    DestroyAndFail(u64, CnaError),
    /// The native buffer `handle` exists; its metadata is to be queried.
    Query(u64),
    /// The buffer is made.
    Adopt(B),
}

/// A vertex buffer's creation after the runtime answered `create` and then
/// destroyed the temporary declaration with answer `destroy_declaration`:
/// a failed create is answered ahead of the destroy's failure, with nothing
/// to clean up; a failed declaration destroy after a successful create
/// destroys the new buffer and answers the destroy's error; otherwise the
/// new buffer's metadata is queried.
pub fn after_vertex_buffer_create(
    create: Result<u64, CnaError>,
    destroy_declaration: Result<(), CnaError>,
) -> (r: CreationStep<VertexBuffer>)
    ensures
        create matches Err(e) ==> r == CreationStep::<VertexBuffer>::Fail(e),
        create matches Ok(h) ==> match destroy_declaration {
            Err(e) => r == CreationStep::<VertexBuffer>::DestroyAndFail(h, e),
            Ok(_) => r == CreationStep::<VertexBuffer>::Query(h),
        },
{
    match create {
        Err(error) => CreationStep::Fail(error),
        Ok(handle) => match destroy_declaration {
            Err(error) => CreationStep::DestroyAndFail(handle, error),
            Ok(_) => CreationStep::Query(handle),
        },
    }
}

/// A vertex buffer's creation after the runtime answered the metadata
/// query of the new buffer `handle`: a failed query, or metadata that
/// disagrees with the request, destroys the buffer and answers the error;
/// matching metadata adopts it.
pub fn after_vertex_buffer_query(
    handle: u64,
    stride: i32,
    vertex_count: i32,
    usage: BufferUsage,
    dynamic: bool,
    info: Result<VertexBufferMetadata, CnaError>,
) -> (r: CreationStep<VertexBuffer>)
    requires
        vertex_count >= 0,
    ensures
        info matches Err(e) ==> r == CreationStep::<VertexBuffer>::DestroyAndFail(handle, e),
        info matches Ok(m) && m != VertexBuffer::requested_metadata(stride, vertex_count, usage, dynamic)
            ==> r == CreationStep::<VertexBuffer>::DestroyAndFail(
                handle,
                CnaError::Native(NativeFault::InconsistentVertexBufferMetadata),
            ),
        info matches Ok(m) && m == VertexBuffer::requested_metadata(stride, vertex_count, usage, dynamic)
            ==> (r matches CreationStep::Adopt(b) && b.wf() && b.spec_handle() == handle
                && b.spec_vertex_stride() == stride && b.spec_vertex_count() == vertex_count
                && b.spec_usage() == usage && b.spec_dynamic() == dynamic),
{
    match info {
        Err(error) => CreationStep::DestroyAndFail(handle, error),
        Ok(reported) => match VertexBuffer::adopt_created(handle, stride, vertex_count, usage, dynamic, reported) {
            Ok(buffer) => CreationStep::Adopt(buffer),
            Err(error) => CreationStep::DestroyAndFail(handle, error),
        },
    }
}

/// An index buffer's creation after the runtime answered the metadata
/// query of the new buffer `handle` (a failed create is answered as it
/// stands, with nothing to clean up): a failed query, or metadata that
/// disagrees with the request, destroys the buffer and answers the error;
/// matching metadata adopts it.
pub fn after_index_buffer_query(
    handle: u64,
    index_count: i32,
    element_size: IndexElementSize,
    usage: BufferUsage,
    dynamic: bool,
    info: Result<IndexBufferMetadata, CnaError>,
) -> (r: CreationStep<IndexBuffer>)
    requires
        index_count >= 0,
    ensures
        info matches Err(e) ==> r == CreationStep::<IndexBuffer>::DestroyAndFail(handle, e),
        info matches Ok(m) && m != IndexBuffer::requested_metadata(index_count, element_size, usage, dynamic)
            ==> r == CreationStep::<IndexBuffer>::DestroyAndFail(
                handle,
                CnaError::Native(NativeFault::InconsistentIndexBufferMetadata),
            ),
        info matches Ok(m) && m == IndexBuffer::requested_metadata(index_count, element_size, usage, dynamic)
            ==> (r matches CreationStep::Adopt(b) && b.wf() && b.spec_handle() == handle
                && b.spec_index_count() == index_count && b.spec_element_size() == element_size
                && b.spec_usage() == usage && b.spec_dynamic() == dynamic),
{
    match info {
        Err(error) => CreationStep::DestroyAndFail(handle, error),
        Ok(reported) => match IndexBuffer::adopt_created(handle, index_count, element_size, usage, dynamic, reported) {
            Ok(buffer) => CreationStep::Adopt(buffer),
            Err(error) => CreationStep::DestroyAndFail(handle, error),
        },
    }
}

/// What an accepted vertex transfer guarantees: the caller's element type
/// matches the buffer's declaration and stride, the window is exactly
/// `start..start + count` inside the caller's slice, and the bytes written
/// or read, from the stride-aligned offset on, lie inside the buffer.
pub open spec fn vertex_transfer_fits(
    buffer: VertexBuffer,
    offset: i32,
    length: usize,
    start: i32,
    count: i32,
    stride: i32,
    data_stride: i32,
    declarations_match: bool,
    w: TransferRange,
) -> bool {
    &&& declarations_match
    &&& 0 < stride && stride == buffer.spec_vertex_stride() && stride == data_stride
    &&& 0 <= start && 0 <= count && w.start == start && w.end == start + count && w.end <= length
    &&& 0 <= offset && offset % stride == 0
    &&& offset + (w.end - w.start) * stride <= buffer.spec_vertex_count() * stride
}

/// What an accepted index transfer guarantees: the caller's index width is
/// the buffer's, the window is exactly `start..start + count` inside the
/// caller's slice, and the bytes written or read, from the element-aligned
/// offset on, lie inside the buffer's `index_count` indices.
pub open spec fn index_transfer_fits(
    buffer: IndexBuffer,
    offset: i32,
    length: usize,
    start: i32,
    count: i32,
    element_size: IndexElementSize,
    w: TransferRange,
) -> bool {
    let width: int = if element_size == IndexElementSize::SixteenBits { 2 } else { 4 };
    &&& element_size == buffer.spec_element_size()
    &&& 0 <= start && 0 <= count && w.start == start && w.end == start + count && w.end <= length
    &&& 0 <= offset && (offset as int) % width == 0
    &&& offset + (w.end - w.start) * width <= buffer.spec_index_count() * width
}

/// Every vertex transfer the buffer accepts fits it: nothing is written or
/// read outside the buffer or the caller's slice.
pub proof fn law_accepted_vertex_transfer_fits(
    buffer: VertexBuffer,
    offset: i32,
    length: usize,
    start: i32,
    count: i32,
    stride: i32,
    data_stride: i32,
    declarations_match: bool,
)
    ensures
        buffer.transfer_outcome(offset, length, start, count, stride, data_stride, declarations_match) matches Ok(w)
            ==> vertex_transfer_fits(buffer, offset, length, start, count, stride, data_stride, declarations_match, w),
{
}

/// Every index transfer the buffer accepts fits it: nothing is written or
/// read outside the buffer's indices or the caller's slice.
pub proof fn law_accepted_index_transfer_fits(
    buffer: IndexBuffer,
    offset: i32,
    length: usize,
    start: i32,
    count: i32,
    element_size: IndexElementSize,
)
    ensures
        buffer.transfer_outcome(offset, length, start, count, element_size) matches Ok(w)
            ==> index_transfer_fits(buffer, offset, length, start, count, element_size, w),
{
}

} // verus!
