use cna::buffer::{
    after_index_buffer_query, after_vertex_buffer_create, after_vertex_buffer_query, CreationStep,
    checked_range, count_i32, index_element_size_for, validate_options, validate_usage, IndexBuffer, IndexBufferMetadata,
    IndexWords, TransferRange, VertexBuffer, VertexBufferBinding, VertexBufferMetadata, VertexUpload,
};
use cna::error::{CnaError, InputError, NativeFault};
use cna::kinds::{BufferUsage, IndexElementSize, SetDataOptions};

fn vertex_buffer(count: i32, stride: i32, dynamic: bool) -> VertexBuffer {
    let usage = BufferUsage::NoFlags();
    let reported = VertexBufferMetadata { vertex_count: count, vertex_stride: stride, buffer_usage: 0, dynamic };
    VertexBuffer::adopt_created(5, stride, count, usage, dynamic, reported).expect("matching report")
}

fn index_buffer(count: i32, size: IndexElementSize) -> IndexBuffer {
    let native_size = match size {
        IndexElementSize::SixteenBits => 0,
        IndexElementSize::ThirtyTwoBits => 1,
    };
    let reported = IndexBufferMetadata { index_count: count, index_element_size: native_size, buffer_usage: 0, dynamic: false };
    IndexBuffer::adopt_created(9, count, size, BufferUsage::NoFlags(), false, reported).expect("matching report")
}

#[test]
fn usage_with_unknown_flags_is_refused() {
    assert_eq!(validate_usage(BufferUsage::WriteOnly()), Ok(()));
    assert_eq!(validate_usage(BufferUsage::from_bits(2)), Err(CnaError::InvalidInput(InputError::UnknownBufferUsage)));
    assert_eq!(VertexBuffer::validate_create(BufferUsage::NoFlags(), -1), Err(CnaError::InvalidInput(InputError::NegativeVertexCount)));
    assert_eq!(IndexBuffer::validate_create(BufferUsage::NoFlags(), -1), Err(CnaError::InvalidInput(InputError::NegativeIndexCount)));
}

#[test]
fn upload_options_need_a_dynamic_buffer() {
    assert_eq!(validate_options(SetDataOptions::NoOptions(), false), Ok(()));
    assert_eq!(validate_options(SetDataOptions::Discard(), false), Err(CnaError::InvalidInput(InputError::OptionsRequireDynamicBuffer)));
    assert_eq!(validate_options(SetDataOptions::Discard(), true), Ok(()));
    assert_eq!(validate_options(SetDataOptions::from_bits(3), true), Err(CnaError::InvalidInput(InputError::InvalidSetDataOptions)));
}

#[test]
fn windows_lie_inside_the_slice() {
    assert_eq!(checked_range(10, 2, 3), Ok(TransferRange { start: 2, end: 5 }));
    assert_eq!(checked_range(10, -1, 3), Err(CnaError::InvalidInput(InputError::NegativeStartIndex)));
    assert_eq!(checked_range(10, 1, -3), Err(CnaError::InvalidInput(InputError::NegativeElementCount)));
    assert_eq!(checked_range(10, 8, 3), Err(CnaError::InvalidInput(InputError::WindowExceedsSlice)));
    assert_eq!(count_i32(7, InputError::VertexArrayTooLarge), Ok(7));
}

#[test]
fn a_mismatched_creation_report_is_a_native_fault() {
    let reported = VertexBufferMetadata { vertex_count: 3, vertex_stride: 16, buffer_usage: 0, dynamic: false };
    let adopted = VertexBuffer::adopt_created(1, 16, 4, BufferUsage::NoFlags(), false, reported);
    assert_eq!(adopted.err(), Some(CnaError::Native(NativeFault::InconsistentVertexBufferMetadata)));
}

#[test]
fn vertex_uploads_take_the_raw_or_the_typed_route() {
    let buffer = vertex_buffer(8, 16, true);
    match buffer.plan_set_data(16, 4, 1, 2, 16, 16, true, SetDataOptions::NoOptions(), None) {
        Ok(VertexUpload::Raw { byte_offset, window, vertex_count, stride }) => {
            assert_eq!(byte_offset, Some(16));
            assert_eq!(window, TransferRange { start: 1, end: 3 });
            assert_eq!(vertex_count, 2);
            assert_eq!(stride, 16);
        },
        other => panic!("unexpected plan {:?}", other),
    }
    match buffer.plan_set_data(0, 4, 0, 4, 16, 16, true, SetDataOptions::Discard(), Some(3)) {
        Ok(VertexUpload::Typed { vertex_type, options, start_index, element_count, .. }) => {
            assert_eq!((vertex_type, options, start_index, element_count), (3, 1, 0, 4));
        },
        other => panic!("unexpected plan {:?}", other),
    }
    assert_eq!(
        buffer.plan_set_data(16, 4, 0, 1, 16, 16, true, SetDataOptions::Discard(), Some(3)),
        Err(CnaError::InvalidInput(InputError::VertexOffsetWithUploadOptions))
    );
    assert_eq!(
        buffer.plan_set_data(0, 4, 0, 1, 16, 16, true, SetDataOptions::Discard(), None),
        Err(CnaError::InvalidInput(InputError::UploadOptionsNeedBuiltInVertex))
    );
}

#[test]
fn vertex_transfers_must_fit_and_align() {
    let buffer = vertex_buffer(4, 16, false);
    assert_eq!(buffer.validate_transfer(8, 4, 0, 1, 16, 16, true), Err(CnaError::InvalidInput(InputError::VertexTransferExceedsCapacity)));
    assert_eq!(buffer.validate_transfer(0, 8, 0, 5, 16, 16, true), Err(CnaError::InvalidInput(InputError::VertexTransferExceedsCapacity)));
    assert_eq!(buffer.validate_transfer(0, 4, 0, 4, 12, 12, true), Err(CnaError::InvalidInput(InputError::VertexDeclarationMismatch)));
    assert_eq!(buffer.validate_transfer(-16, 4, 0, 4, 16, 16, true), Err(CnaError::InvalidInput(InputError::NegativeBufferOffset)));
    assert_eq!(buffer.plan_get_data(0, 4, 0, 4, 16, 16, true), Ok((TransferRange { start: 0, end: 4 }, 64)));
}

#[test]
fn index_uploads_narrow_to_the_buffer_width() {
    let buffer = index_buffer(8, IndexElementSize::SixteenBits);
    let data: Vec<i16> = vec![1, 2, -1, 4];
    let upload = buffer.plan_set_data(0, &data[..], 1, 2, SetDataOptions::NoOptions()).expect("accepted");
    match upload.words {
        IndexWords::Sixteen(words) => assert_eq!(words, vec![2, 0xFFFF]),
        IndexWords::ThirtyTwo(_) => panic!("a 16-bit buffer takes 16-bit words"),
    }
    assert_eq!(upload.byte_offset, None);
    let wide: Vec<i32> = vec![1, 2];
    assert_eq!(
        buffer.plan_set_data(0, &wide[..], 0, 2, SetDataOptions::NoOptions()).err(),
        Some(CnaError::InvalidInput(InputError::IndexElementMismatch))
    );
}

#[test]
fn index_data_reads_back_what_was_written() {
    let buffer = index_buffer(4, IndexElementSize::ThirtyTwoBits);
    let written: Vec<i32> = vec![-7, 0, 123_456, i32::MAX];
    let upload = buffer.plan_set_data(0, &written[..], 0, 4, SetDataOptions::NoOptions()).expect("accepted");
    let words = match upload.words {
        IndexWords::ThirtyTwo(words) => words,
        IndexWords::Sixteen(_) => panic!("a 32-bit buffer takes 32-bit words"),
    };
    let mut read = vec![0i32; 4];
    let window = buffer.plan_get_data::<i32>(0, read.len(), 0, 4).expect("accepted");
    assert_eq!(IndexBuffer::finish_get_data(&mut read[..], window, &words[..], 4), Ok(()));
    assert_eq!(read, written);
}

#[test]
fn index_readback_count_must_match_the_window() {
    let mut read = vec![0u16; 2];
    let window = TransferRange { start: 0, end: 2 };
    assert_eq!(
        IndexBuffer::finish_get_data(&mut read[..], window, &[7, 8], 3),
        Err(CnaError::Native(NativeFault::InconsistentIndexReadbackCount))
    );
    assert_eq!(read, vec![7, 8]);
}

#[test]
fn index_readback_refuses_an_offset() {
    let buffer = index_buffer(4, IndexElementSize::SixteenBits);
    assert_eq!(buffer.plan_get_data::<u16>(2, 4, 0, 1), Err(CnaError::InvalidInput(InputError::IndexReadbackWithOffset)));
    assert_eq!(
        buffer.plan_get_data::<u32>(0, 4, 0, 1),
        Err(CnaError::InvalidInput(InputError::IndexElementMismatch))
    );
}

#[test]
fn index_types_name_their_element_size() {
    assert_eq!(index_element_size_for(true, false), Ok(IndexElementSize::SixteenBits));
    assert_eq!(index_element_size_for(false, true), Ok(IndexElementSize::ThirtyTwoBits));
    assert_eq!(index_element_size_for(false, false), Err(CnaError::InvalidInput(InputError::UnsupportedIndexType)));
}

#[test]
fn vertex_bindings_stay_inside_their_buffer() {
    let buffer = vertex_buffer(4, 16, false);
    let binding = VertexBufferBinding::from_vertex_buffer_and_vertex_offset(&buffer, 2).expect("inside");
    assert_eq!(binding.VertexOffset(), 2);
    assert_eq!(binding.InstanceFrequency(), 0);
    assert_eq!(
        VertexBufferBinding::from_vertex_buffer_and_vertex_offset(&buffer, 5).err(),
        Some(CnaError::InvalidInput(InputError::BindingOffsetExceedsCapacity))
    );
    assert_eq!(
        VertexBufferBinding::from_vertex_buffer_and_vertex_offset_and_instance_frequency(&buffer, 0, -1).err(),
        Some(CnaError::InvalidInput(InputError::NegativeBindingOffsetOrFrequency))
    );
    let whole = VertexBufferBinding::new(&buffer);
    assert!(whole.same_binding(&VertexBufferBinding::new(&buffer)));
    assert!(!whole.same_binding(&binding));
}

#[test]
fn a_buffer_creation_cleans_up_after_each_native_failure() {
    let refused = CnaError::InvalidInput(InputError::NegativeVertexCount);
    let other = CnaError::Native(NativeFault::InconsistentVertexBufferMetadata);
    assert!(matches!(after_vertex_buffer_create(Err(refused), Err(other)), CreationStep::Fail(e) if e == refused));
    assert!(matches!(after_vertex_buffer_create(Ok(4), Err(refused)), CreationStep::DestroyAndFail(4, e) if e == refused));
    assert!(matches!(after_vertex_buffer_create(Ok(4), Ok(())), CreationStep::Query(4)));
    let usage = BufferUsage::NoFlags();
    let good = VertexBufferMetadata { vertex_count: 3, vertex_stride: 16, buffer_usage: 0, dynamic: false };
    let bad = VertexBufferMetadata { vertex_count: 2, ..good };
    assert!(matches!(after_vertex_buffer_query(4, 16, 3, usage, false, Err(refused)), CreationStep::DestroyAndFail(4, e) if e == refused));
    assert!(matches!(after_vertex_buffer_query(4, 16, 3, usage, false, Ok(bad)), CreationStep::DestroyAndFail(4, e) if e == other));
    match after_vertex_buffer_query(4, 16, 3, usage, false, Ok(good)) {
        CreationStep::Adopt(buffer) => {
            assert_eq!(buffer.handle(), 4);
            assert_eq!(buffer.VertexCount(), 3);
        },
        _ => panic!("matching metadata adopts the buffer"),
    }
    let index_good = IndexBufferMetadata { index_count: 6, index_element_size: 0, buffer_usage: 0, dynamic: false };
    let index_bad = IndexBufferMetadata { index_element_size: 1, ..index_good };
    let index_fault = CnaError::Native(NativeFault::InconsistentIndexBufferMetadata);
    assert!(matches!(
        after_index_buffer_query(8, 6, IndexElementSize::SixteenBits, usage, false, Ok(index_bad)),
        CreationStep::DestroyAndFail(8, e) if e == index_fault
    ));
    assert!(matches!(
        after_index_buffer_query(8, 6, IndexElementSize::SixteenBits, usage, false, Ok(index_good)),
        CreationStep::Adopt(_)
    ));
}
