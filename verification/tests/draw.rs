use cna::draw::{
    back_buffer_element_count, binding_capacity, check_vertex_bindings, device_handle, first_error, primitive_element_count,
    validate_back_buffer_readback, validate_draw_primitives, validate_indexed_draw, validate_instanced_draw,
    validate_user_indexed, validate_user_primitives, BindingRegistry, BoundIndexBuffer, BoundVertexBuffer, NativeVertexBinding,
    RecordedVertexBinding,
};
use cna::effect::{
    advance_reflection, annotation_data_count, reflection_clone_step, reflection_steps, ReflectionCloneStep, ReflectionStep,
    check_effect_code, check_technique_owner, checked_count, collection_count, current_technique_from_lookup,
    current_technique_handle, effect_array_count, effect_view_handle, verified_cached_lookup, EffectChild, EffectCollection,
    EffectParameterClass, EffectParameterType,
};
use cna::error::{CnaError, InputError, NativeCode, NativeFault, Unsupported};
use cna::guide::{array_count, flag_byte, message_box_choice, native_flag};
use cna::kinds::{decode_native, CubeMapFace, DepthFormat, PrimitiveType, RenderTargetUsage, SurfaceFormat};
use cna::resource::ResourceKind;
use cna::buffer::CreationStep;
use cna::sprite_font::{
    settle_font, char16, characters_from_native, check_built_character_count, check_character_round_trip, check_default_character,
    check_glyph_round_trip, check_readback_counts, default_character_from_native, native_characters, readback_character_count,
    validate_font_tables,
};
use cna::targets::{
    bindings_equal, check_render_target_2d, check_render_target_cube, checked_index, target_info, texture_slot_outcome,
    NativeRenderTargetInfo, NativeTextureSlot, OcclusionQuery, RenderTargetInfo, SamplerSlotCache, ShaderStage, SlotKind,
};
use cna::value::Rectangle;

fn input(e: InputError) -> CnaError {
    CnaError::InvalidInput(e)
}

fn vertex(count: i32, offset: i32) -> Option<BoundVertexBuffer> {
    Some(BoundVertexBuffer { handle: Ok(1), vertex_offset: offset, vertex_count: count })
}

fn index(count: i32) -> Option<BoundIndexBuffer> {
    Some(BoundIndexBuffer { handle: Ok(2), index_count: count })
}

#[test]
fn primitive_counts_read_the_right_number_of_elements() {
    assert_eq!(primitive_element_count(PrimitiveType::TriangleList, 2), Ok(6));
    assert_eq!(primitive_element_count(PrimitiveType::TriangleStrip, 2), Ok(4));
    assert_eq!(primitive_element_count(PrimitiveType::LineList, 2), Ok(4));
    assert_eq!(primitive_element_count(PrimitiveType::LineStrip, 2), Ok(3));
    assert_eq!(primitive_element_count(PrimitiveType::LineStrip, 0), Err(input(InputError::PrimitiveCountNotPositive)));
}

#[test]
fn draw_primitives_must_stay_inside_the_vertex_buffer() {
    assert_eq!(validate_draw_primitives(PrimitiveType::TriangleList, 0, 1, vertex(3, 0)), Ok(()));
    assert_eq!(validate_draw_primitives(PrimitiveType::TriangleList, 1, 1, vertex(3, 0)), Err(input(InputError::VertexDrawRangeExceedsBuffer)));
    assert_eq!(validate_draw_primitives(PrimitiveType::TriangleList, 0, 1, vertex(3, 1)), Err(input(InputError::VertexDrawRangeExceedsBuffer)));
    assert_eq!(validate_draw_primitives(PrimitiveType::TriangleList, -1, 1, vertex(3, 0)), Err(input(InputError::StartVertexNegative)));
    assert_eq!(validate_draw_primitives(PrimitiveType::TriangleList, 0, 1, None), Err(input(InputError::DrawRequiresVertexBuffer)));
    let disposed = Some(BoundVertexBuffer { handle: Err(input(InputError::ResourceDisposed)), vertex_offset: 0, vertex_count: 3 });
    assert_eq!(validate_draw_primitives(PrimitiveType::TriangleList, 0, 1, disposed), Err(input(InputError::ResourceDisposed)));
}

#[test]
fn indexed_draws_check_both_windows() {
    assert_eq!(validate_indexed_draw(PrimitiveType::TriangleList, 0, 0, 4, 0, 2, vertex(4, 0), index(6)), Ok(()));
    assert_eq!(validate_indexed_draw(PrimitiveType::TriangleList, 0, 0, 4, 1, 2, vertex(4, 0), index(6)), Err(input(InputError::IndexedDrawRangeExceedsBuffer)));
    assert_eq!(validate_indexed_draw(PrimitiveType::TriangleList, 1, 0, 4, 0, 2, vertex(4, 0), index(6)), Err(input(InputError::IndexedVertexRangeExceedsBuffer)));
    assert_eq!(validate_indexed_draw(PrimitiveType::TriangleList, 0, -1, 4, 0, 2, vertex(4, 0), index(6)), Err(input(InputError::MinVertexIndexNegative)));
    assert_eq!(validate_indexed_draw(PrimitiveType::TriangleList, 0, 0, 0, 0, 2, vertex(4, 0), index(6)), Err(input(InputError::IndexedDrawNeedsVertex)));
    assert_eq!(validate_indexed_draw(PrimitiveType::TriangleList, 0, 0, 4, 0, 2, vertex(4, 0), None), Err(input(InputError::IndexedDrawNeedsIndexBuffer)));
    assert_eq!(validate_indexed_draw(PrimitiveType::TriangleList, 0, 0, 4, 0, 2, None, index(6)), Err(input(InputError::IndexedDrawNeedsVertexBuffer)));
    assert_eq!(validate_instanced_draw(PrimitiveType::TriangleList, 0, 0, 4, 0, 2, 3, vertex(4, 0), index(6)), Ok(()));
    assert_eq!(validate_instanced_draw(PrimitiveType::TriangleList, 0, 0, 4, 0, 2, 0, vertex(4, 0), index(6)), Err(input(InputError::InstanceCountNotPositive)));
}

#[test]
fn user_memory_draws_check_their_slices_and_indices() {
    assert_eq!(validate_user_primitives(PrimitiveType::LineList, 4, 0, 2, Ok(true)), Ok(()));
    assert_eq!(validate_user_primitives(PrimitiveType::LineList, 4, 1, 2, Ok(true)), Err(input(InputError::UserVertexRangeExceedsSlice)));
    assert_eq!(validate_user_primitives(PrimitiveType::LineList, 4, 0, 2, Ok(false)), Err(input(InputError::UserDeclarationMismatch)));
    assert_eq!(validate_user_primitives(PrimitiveType::LineList, 4, -1, 2, Ok(true)), Err(input(InputError::VertexOffsetNegative)));
    let indices: Vec<i16> = vec![0, 1, 2, 2, 1, 3];
    assert_eq!(validate_user_indexed(PrimitiveType::TriangleList, 4, 0, 4, &indices, 0, 2, Ok(true)), Ok(()));
    assert_eq!(validate_user_indexed(PrimitiveType::TriangleList, 4, 0, 3, &indices, 0, 2, Ok(true)), Err(input(InputError::UserIndexOutOfVertices)));
    assert_eq!(validate_user_indexed(PrimitiveType::TriangleList, 4, 0, 4, &indices, 1, 2, Ok(true)), Err(input(InputError::UserIndexRangeExceedsSlice)));
    assert_eq!(validate_user_indexed(PrimitiveType::TriangleList, 4, 1, 4, &indices, 0, 2, Ok(true)), Err(input(InputError::UserVertexRangeExceedsSlice)));
    let negative: Vec<i32> = vec![0, -1, 2];
    assert_eq!(validate_user_indexed(PrimitiveType::TriangleList, 4, 0, 4, &negative, 0, 1, Ok(true)), Err(input(InputError::UserIndexOutOfVertices)));
}

#[test]
fn back_buffer_readback_windows_and_rectangles_are_checked() {
    assert_eq!(validate_back_buffer_readback(None, 10, 2, 5, Ok((4, 4))), Ok((2, 7)));
    assert_eq!(validate_back_buffer_readback(None, 10, 6, 5, Ok((4, 4))), Err(input(InputError::BackBufferWindowExceedsSlice)));
    let inside = Some(Rectangle::new(1, 1, 3, 3));
    assert_eq!(validate_back_buffer_readback(inside, 10, 0, 9, Ok((4, 4))), Ok((0, 9)));
    let outside = Some(Rectangle::new(2, 2, 3, 3));
    assert_eq!(validate_back_buffer_readback(outside, 10, 0, 9, Ok((4, 4))), Err(input(InputError::BackBufferRectangleExceeds)));
    let negative = Some(Rectangle::new(-1, 0, 1, 1));
    assert_eq!(validate_back_buffer_readback(negative, 10, 0, 1, Ok((4, 4))), Err(input(InputError::BackBufferRectangleNegative)));
    let huge = Some(Rectangle::new(i32::MAX, 0, 1, 1));
    assert_eq!(validate_back_buffer_readback(huge, 10, 0, 1, Ok((4, 4))), Err(input(InputError::BackBufferRectangleOverflows)));
    assert_eq!(back_buffer_element_count(16), Ok(16));
}

#[test]
fn the_binding_registry_knows_what_is_bound() {
    let mut registry = BindingRegistry::new();
    assert!(!registry.is_resource_bound(ResourceKind::IndexBuffer, 5));
    registry.set_vertex_handles(vec![3, 4]);
    registry.set_index_handle(5);
    registry.set_render_target_handles(vec![9]);
    assert!(registry.is_resource_bound(ResourceKind::VertexBuffer, 4));
    assert!(registry.is_resource_bound(ResourceKind::IndexBuffer, 5));
    assert!(registry.is_resource_bound(ResourceKind::RenderTarget2D, 9));
    assert!(!registry.is_resource_bound(ResourceKind::Texture2D, 9));
    assert!(registry.has_bound_buffer_handle(&vec![4], &vec![]));
    assert!(registry.has_bound_buffer_handle(&vec![], &vec![5]));
    assert!(!registry.has_bound_buffer_handle(&vec![7], &vec![8]));
    registry.clear_buffers();
    assert!(!registry.is_resource_bound(ResourceKind::VertexBuffer, 4));
    assert!(registry.is_resource_bound(ResourceKind::RenderTargetCube, 9));
    registry.clear_render_targets();
    assert!(!registry.is_resource_bound(ResourceKind::RenderTarget2D, 9));
}

#[test]
fn vertex_bindings_must_agree_with_the_runtime() {
    let native = vec![NativeVertexBinding { vertex_buffer: 7, vertex_offset: 0, instance_frequency: 0 }];
    let recorded = vec![RecordedVertexBinding { handle: Ok(7), vertex_offset: 0, instance_frequency: 0 }];
    assert_eq!(check_vertex_bindings(1, 1, 7, &native, &recorded), Ok(()));
    assert_eq!(check_vertex_bindings(1, 0, 7, &native, &recorded), Err(CnaError::Native(NativeFault::InconsistentVertexBindingCount)));
    assert_eq!(check_vertex_bindings(1, 1, 8, &native, &recorded), Err(CnaError::Native(NativeFault::InconsistentFirstVertexBuffer)));
    assert_eq!(check_vertex_bindings(1, 1, 7, &native, &vec![]), Err(CnaError::Native(NativeFault::VertexBindingsChangedOutside)));
    let moved = vec![RecordedVertexBinding { handle: Ok(7), vertex_offset: 4, instance_frequency: 0 }];
    assert_eq!(check_vertex_bindings(1, 1, 7, &native, &moved), Err(CnaError::Native(NativeFault::VertexBindingIdentityDiffers)));
    assert_eq!(check_vertex_bindings(0, 0, 0, &vec![], &vec![]), Ok(()));
    assert_eq!(binding_capacity(3, InputError::WindowOverflow), Ok(3));
}

#[test]
fn device_calls_need_a_live_device_inside_a_callback() {
    assert_eq!(device_handle(true, 4), Ok(4));
    assert_eq!(device_handle(true, 0), Err(input(InputError::NoActiveCallback)));
    assert_eq!(device_handle(false, 4), Err(input(InputError::GraphicsDeviceDisposed)));
    assert_eq!(first_error(&vec![Ok(()), Err(input(InputError::ResourceDisposed)), Err(input(InputError::NoActiveCallback))]), Err(input(InputError::ResourceDisposed)));
    assert_eq!(first_error(&vec![Ok(()), Ok(())]), Ok(()));
}

#[test]
fn effect_collections_find_the_first_match_and_check_the_runtime() {
    let items = vec![
        EffectChild { name: "World".to_string(), semantic: "WORLD".to_string(), value: 1u32 },
        EffectChild { name: "View".to_string(), semantic: "VIEW".to_string(), value: 2u32 },
        EffectChild { name: "World".to_string(), semantic: "OTHER".to_string(), value: 3u32 },
    ];
    let collection = EffectCollection::new(items);
    assert_eq!(collection.Item("World", true), Ok(Some(1)));
    assert_eq!(collection.Item("Missing", false), Ok(None));
    assert_eq!(collection.Item("Missing", true), Err(CnaError::Native(NativeFault::EffectLookupDisagrees)));
    assert_eq!(collection.GetParameterBySemantic("VIEW", true), Ok(Some(2)));
    assert_eq!(collection.Count(Ok(9)), Ok(3));
    assert_eq!(collection.Count(Err(input(InputError::EffectViewDisposed))), Err(input(InputError::EffectViewDisposed)));
    assert_eq!(collection.item_at(Ok(9), 2), Ok(3));
    assert_eq!(collection.item_at(Ok(9), 3), Err(input(InputError::EffectIndexOutOfRange)));
    assert_eq!(collection.item_at(Ok(9), -1), Err(input(InputError::EffectIndexNegative)));
    assert_eq!(collection.GetEnumerator(Ok(9)), Ok(vec![1, 2, 3]));
}

#[test]
fn effect_helpers_check_handles_and_counts() {
    assert_eq!(check_effect_code(0), Err(input(InputError::EffectCodeEmpty)));
    assert_eq!(check_effect_code(4), Ok(()));
    assert_eq!(effect_view_handle(Ok(1), 0), Err(input(InputError::EffectViewDisposed)));
    assert_eq!(effect_view_handle(Ok(1), 6), Ok(6));
    assert_eq!(effect_array_count(-2), Err(input(InputError::EffectArrayCountNegative)));
    assert_eq!(effect_array_count(2), Ok(2));
    assert_eq!(collection_count(5), Ok(5));
    assert_eq!(checked_count(0x8000_0000), Err(CnaError::Native(NativeFault::EffectCountExceedsInt32)));
    assert_eq!(verified_cached_lookup(true, Some(3)), Ok(Some(3)));
    assert_eq!(verified_cached_lookup(false, Some(3)), Err(CnaError::Native(NativeFault::EffectLookupDisagrees)));
    assert_eq!(current_technique_handle(0), Err(input(InputError::NoCurrentTechnique)));
    assert_eq!(current_technique_from_lookup::<u8>(Ok(None)), Err(CnaError::Native(NativeFault::CurrentTechniqueMissing)));
    assert_eq!(current_technique_from_lookup(Ok(Some(4u8))), Ok(4));
    assert_eq!(check_technique_owner(false), Err(input(InputError::TechniqueOfOtherEffect)));
    assert_eq!(EffectParameterClass::Matrix.value(), 2);
    assert_eq!(EffectParameterType::TextureCube.value(), 9);
}

#[test]
fn render_targets_are_requested_and_read_back() {
    assert_eq!(check_render_target_2d(0, 4, 0), Err(input(InputError::RenderTargetRequestInvalid)));
    assert_eq!(check_render_target_2d(4, 4, 0), Ok(()));
    assert_eq!(check_render_target_cube(4, -1), Err(input(InputError::RenderTargetCubeRequestInvalid)));
    let info = NativeRenderTargetInfo {
        kind: 2,
        width: 64,
        height: 32,
        level_count: 1,
        format: 0,
        depth_format: 3,
        multi_sample_count: 0,
        usage: 1,
        is_content_lost: 0,
        renderer_available: 1,
    };
    assert_eq!(
        target_info(info, 2),
        Ok(RenderTargetInfo {
            width: 64,
            height: 32,
            level_count: 1,
            format: SurfaceFormat::Color,
            depth_format: DepthFormat::Depth24Stencil8,
            multi_sample_count: 0,
            usage: RenderTargetUsage::PreserveContents,
            is_content_lost: false,
            renderer_available: true,
        })
    );
    assert_eq!(target_info(info, 3), Err(input(InputError::RenderTargetIdentityInvalid)));
    assert_eq!(target_info(NativeRenderTargetInfo { usage: 9, ..info }, 2), Err(input(InputError::RenderTargetUsageUnknown)));
    assert!(bindings_equal(Some(3), CubeMapFace::NegativeZ, Some(3), CubeMapFace::NegativeZ));
    assert!(!bindings_equal(Some(3), CubeMapFace::NegativeZ, Some(3), CubeMapFace::PositiveZ));
}

#[test]
fn an_occlusion_query_alternates_begin_and_end() {
    let mut query = OcclusionQuery::new(3);
    assert_eq!(query.end_check(), Err(input(InputError::QueryNotBegun)));
    assert_eq!(query.IsComplete(), None);
    assert_eq!(query.finish_begin(Ok(())), Ok(()));
    assert_eq!(query.begin_check(), Err(input(InputError::QueryBegunTwice)));
    assert_eq!(query.IsComplete(), Some(false));
    assert_eq!(query.pixel_count_check(), Err(input(InputError::QueryPixelCountActive)));
    assert_eq!(query.finish_end(Ok(())), Ok(()));
    assert_eq!(query.pixel_count_check(), Ok(()));
}

#[test]
fn sampler_and_texture_slots_are_indexed_and_cached() {
    assert_eq!(checked_index(-1, 16, SlotKind::Sampler), Err(input(InputError::SlotIndexNegative)));
    assert_eq!(checked_index(16, 16, SlotKind::Sampler), Err(input(InputError::SamplerIndexOutside)));
    assert_eq!(checked_index(16, 16, SlotKind::Texture), Err(input(InputError::TextureIndexOutside)));
    assert_eq!(checked_index(3, 16, SlotKind::Texture), Ok((3, 3)));
    let mut cache: SamplerSlotCache<u8> = SamplerSlotCache::new(4);
    assert_eq!(cache.cached(1), None);
    assert_eq!(cache.keep(1, 7), 7);
    assert_eq!(cache.keep(1, 8), 7);
    cache.set(1, 9);
    assert_eq!(cache.cached(1), Some(9));
    assert!(ShaderStage::Vertex.is_vertex());
    assert!(!ShaderStage::Pixel.is_vertex());
    assert_eq!(texture_slot_outcome::<u8>(NativeTextureSlot { bound: false, texture: 0 }, None), Ok(None));
    assert_eq!(texture_slot_outcome::<u8>(NativeTextureSlot { bound: true, texture: 0 }, None), Err(CnaError::UnsupportedRuntime(Unsupported::TextureWithoutHandle)));
    assert_eq!(texture_slot_outcome::<u8>(NativeTextureSlot { bound: true, texture: 5 }, None), Err(CnaError::UnsupportedRuntime(Unsupported::TextureNotReconstructible)));
    assert_eq!(texture_slot_outcome(NativeTextureSlot { bound: true, texture: 5 }, Some(2u8)), Ok(Some(2)));
}

#[test]
fn sprite_font_characters_round_trip_through_utf16_units() {
    assert_eq!(char16('A'), Ok(65));
    assert_eq!(char16('\u{1F600}'), Err(input(InputError::FontCharacterNotUtf16)));
    let chars = vec!['a', '\u{e9}', '?'];
    let units = native_characters(&chars).expect("basic plane");
    assert_eq!(units, vec![97, 0xE9, 63]);
    assert_eq!(characters_from_native(&units), Ok(chars.clone()));
    assert_eq!(characters_from_native(&vec![0x41, 0xD800]), Err(input(InputError::FontCharacterNotScalar)));
    assert_eq!(default_character_from_native(true, 0x3F), Ok(Some('?')));
    assert_eq!(default_character_from_native(false, 0xD800), Ok(None));
    assert_eq!(default_character_from_native(true, 0xDFFF), Err(input(InputError::FontDefaultNotScalar)));
}

#[test]
fn sprite_font_tables_must_agree() {
    let chars = vec!['a', 'b'];
    assert_eq!(validate_font_tables(&chars, 2, 2, 2, true, Some('a')), Ok(()));
    assert_eq!(validate_font_tables(&chars, 2, 2, 2, true, Some('z')), Err(input(InputError::DefaultCharacterAbsent)));
    assert_eq!(validate_font_tables(&chars, 1, 2, 2, true, None), Err(input(InputError::FontTablesMismatch)));
    assert_eq!(validate_font_tables(&vec![], 0, 0, 0, true, None), Err(input(InputError::FontTablesMismatch)));
    assert_eq!(validate_font_tables(&chars, 2, 2, 2, false, None), Err(input(InputError::FontValuesNotFinite)));
    assert_eq!(check_default_character(&chars, None), Ok(()));
    assert_eq!(check_built_character_count(2, 3), Err(input(InputError::FontCountDisagrees)));
    assert_eq!(check_character_round_trip(2, 2, &vec![1, 2], &vec![1, 2]), Ok(()));
    assert_eq!(check_character_round_trip(2, 2, &vec![1, 3], &vec![1, 2]), Err(input(InputError::FontCharactersNotRoundTripped)));
    assert_eq!(check_glyph_round_trip(2, 2, false), Err(input(InputError::FontGlyphsNotRoundTripped)));
    assert_eq!(readback_character_count(0), Err(input(InputError::FontHasNoCharacters)));
    assert_eq!(readback_character_count(3), Ok(3));
    assert_eq!(check_readback_counts(3, 3, 3), Ok(()));
    assert_eq!(check_readback_counts(3, 2, 3), Err(input(InputError::FontTablesDisagreeWithCount)));
}

#[test]
fn guide_answers_read_back_plainly() {
    assert_eq!(message_box_choice(0, 2), None);
    assert_eq!(message_box_choice(1, 2), Some(2));
    assert!(native_flag(7));
    assert!(!native_flag(0));
    assert_eq!(flag_byte(true), 1);
    assert_eq!(array_count(5), Ok(5));
}

#[test]
fn native_numbers_decode_to_members_or_the_given_error() {
    assert_eq!(decode_native::<PrimitiveType>(1, InputError::WindowOverflow), Ok(PrimitiveType::TriangleStrip));
    assert_eq!(decode_native::<PrimitiveType>(4, InputError::WindowOverflow), Err(input(InputError::WindowOverflow)));
    assert_eq!(NativeFault::NoDefaultAdapter.code(), NativeCode::InvalidState);
    assert_eq!(NativeFault::EffectCountExceedsInt32.code(), NativeCode::Overflow);
    assert_eq!(NativeFault::UnknownDisplayModeFormat.code(), NativeCode::Internal);
    assert_eq!(InputError::PrimitiveCountNotPositive.message(), "primitive count must be greater than zero");
}

#[test]
fn reflected_effects_are_built_parameter_by_parameter_then_technique_by_technique() {
    let steps = reflection_steps(&vec![1, 0], &vec![2, 1]);
    assert_eq!(
        steps,
        vec![
            ReflectionStep::OpenParameters,
            ReflectionStep::AddParameter { parameter: 0 },
            ReflectionStep::OpenAnnotations { parameter: 0 },
            ReflectionStep::AddAnnotation { parameter: 0, annotation: 0 },
            ReflectionStep::AddParameter { parameter: 1 },
            ReflectionStep::OpenAnnotations { parameter: 1 },
            ReflectionStep::OpenTechniques,
            ReflectionStep::AddTechnique { technique: 0 },
            ReflectionStep::OpenPasses { technique: 0 },
            ReflectionStep::AddPass { technique: 0, pass: 0 },
            ReflectionStep::AddPass { technique: 0, pass: 1 },
            ReflectionStep::MakeCurrent { technique: 0 },
            ReflectionStep::AddTechnique { technique: 1 },
            ReflectionStep::OpenPasses { technique: 1 },
            ReflectionStep::AddPass { technique: 1, pass: 0 },
        ]
    );
    assert_eq!(reflection_steps(&vec![], &vec![]), vec![ReflectionStep::OpenParameters, ReflectionStep::OpenTechniques]);
    assert_eq!(annotation_data_count(16), Ok(16));
}

#[test]
fn a_cloned_reflected_effect_is_rebuilt_kept_or_refused() {
    assert_eq!(reflection_clone_step(0, 1, 3, 2), Ok(ReflectionCloneStep::Rebuild));
    assert_eq!(reflection_clone_step(3, 3, 3, 2), Ok(ReflectionCloneStep::Keep));
    assert_eq!(reflection_clone_step(3, 2, 3, 2), Err(CnaError::Native(NativeFault::ReflectionClonedPartially)));
    assert_eq!(reflection_clone_step(1, 3, 3, 2), Err(CnaError::Native(NativeFault::ReflectionClonedPartially)));
}

#[test]
fn a_reflection_build_stops_at_the_first_refusal() {
    let refused = CnaError::Native(NativeFault::ReflectionClonedPartially);
    assert_eq!(advance_reflection(3, 0, Ok(())), Ok(Some(1)));
    assert_eq!(advance_reflection(3, 2, Ok(())), Ok(None));
    assert_eq!(advance_reflection(3, 1, Err(refused)), Err(refused));
}

#[test]
fn a_font_that_fails_its_checks_is_destroyed() {
    let refused = CnaError::InvalidInput(InputError::FontCountDisagrees);
    assert!(matches!(settle_font::<u8>(12, Err(refused)), CreationStep::DestroyAndFail(12, e) if e == refused));
    assert!(matches!(settle_font::<u8>(12, Ok(7)), CreationStep::Adopt(7)));
}
