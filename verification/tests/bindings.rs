use cna::bindings::{
    check_render_target_readback, index_binding, index_handle_to_bind, render_target_count, render_target_handles_to_bind,
    vertex_handles_to_bind, NativeRenderTargetBinding, RecordedRenderTargetBinding, RenderTargetFacts, VertexBindingFacts,
};
use cna::error::{CnaError, InputError, NativeFault};
use cna::kinds::CubeMapFace;

fn target(handle: u64, width: i32) -> RenderTargetFacts {
    RenderTargetFacts { same_device: true, handle: Ok(handle), width, height: 64, multi_sample_count: 0 }
}

#[test]
fn the_index_binding_reads_back_only_when_the_runtime_agrees() {
    assert_eq!(index_binding(Some(("ib", Ok(4))), 4), Ok(Some("ib")));
    assert_eq!(index_binding::<&str>(None, 0), Ok(None));
    assert_eq!(index_binding(Some(("ib", Ok(4))), 5), Err(CnaError::Native(NativeFault::IndexBindingChangedOutside)));
    assert_eq!(index_binding::<&str>(None, 9), Err(CnaError::Native(NativeFault::IndexBindingChangedOutside)));
    let disposed = CnaError::InvalidInput(InputError::ResourceDisposed);
    assert_eq!(index_binding(Some(("ib", Err(disposed))), 4), Err(disposed));
}

#[test]
fn binding_an_index_buffer_checks_its_device() {
    assert_eq!(index_handle_to_bind(None), Ok(0));
    assert_eq!(index_handle_to_bind(Some((true, Ok(8)))), Ok(8));
    assert_eq!(index_handle_to_bind(Some((false, Ok(8)))), Err(CnaError::InvalidInput(InputError::IndexBufferOtherDevice)));
}

#[test]
fn vertex_buffers_are_bound_in_order_or_refused() {
    let facts = vec![VertexBindingFacts { same_device: true, handle: Ok(3) }, VertexBindingFacts { same_device: true, handle: Ok(5) }];
    assert_eq!(vertex_handles_to_bind(&facts), Ok(vec![3, 5]));
    let foreign = vec![VertexBindingFacts { same_device: true, handle: Ok(3) }, VertexBindingFacts { same_device: false, handle: Ok(5) }];
    assert_eq!(vertex_handles_to_bind(&foreign), Err(CnaError::InvalidInput(InputError::VertexBufferOtherDevice)));
    assert_eq!(vertex_handles_to_bind(&vec![]), Ok(vec![]));
}

#[test]
fn render_targets_must_be_distinct_and_share_a_shape() {
    assert_eq!(render_target_handles_to_bind(&vec![target(1, 64), target(2, 64)]), Ok(vec![1, 2]));
    assert_eq!(
        render_target_handles_to_bind(&vec![target(1, 64), target(1, 64)]),
        Err(CnaError::InvalidInput(InputError::RenderTargetBoundTwice))
    );
    assert_eq!(
        render_target_handles_to_bind(&vec![target(1, 64), target(2, 32)]),
        Err(CnaError::InvalidInput(InputError::RenderTargetShapeMismatch))
    );
    let mut foreign = target(3, 64);
    foreign.same_device = false;
    assert_eq!(
        render_target_handles_to_bind(&vec![target(1, 64), foreign]),
        Err(CnaError::InvalidInput(InputError::RenderTargetOtherDevice))
    );
    assert_eq!(render_target_count(2), Ok(2));
}

#[test]
fn render_target_readback_must_match_the_record() {
    let recorded = vec![RecordedRenderTargetBinding { handle: Ok(7), face: CubeMapFace::NegativeY }];
    let observed = vec![NativeRenderTargetBinding { render_target: 7, array_slice: 0, cube_map_face: 3 }];
    assert_eq!(check_render_target_readback(&recorded, &observed), Ok(()));
    let other_face = vec![NativeRenderTargetBinding { render_target: 7, array_slice: 0, cube_map_face: 2 }];
    assert_eq!(
        check_render_target_readback(&recorded, &other_face),
        Err(CnaError::Native(NativeFault::RenderTargetBindingsChangedOutside))
    );
    assert_eq!(
        check_render_target_readback(&recorded, &vec![]),
        Err(CnaError::Native(NativeFault::RenderTargetBindingsChangedOutside))
    );
    assert_eq!(check_render_target_readback(&vec![], &vec![]), Ok(()));
}
