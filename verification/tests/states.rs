use cna::error::{CnaError, InputError};
use cna::kinds::{
    Blend, BlendFunction, ColorWriteChannels, CompareFunction, CullMode, StencilOperation, TextureAddressMode, TextureFilter,
};
use cna::states::{
    blend_function_from_native, native_blend_function, BlendState, DepthStencilState, RasterizerState, SamplerState,
};
use cna::value::Color;

#[test]
fn xna_defaults_and_stock_states_are_complete() {
    let blend = BlendState::new();
    assert_eq!(blend.ColorSourceBlend(), Blend::One);
    assert_eq!(blend.ColorDestinationBlend(), Blend::Zero);
    assert_eq!(blend.BlendFactor(), Color::White());
    assert_eq!(blend.MultiSampleMask(), -1);
    let additive = BlendState::Additive();
    let alpha_blend = BlendState::AlphaBlend();
    assert_eq!(additive.ColorSourceBlend(), Blend::SourceAlpha);
    assert_eq!(alpha_blend.AlphaSourceBlend(), Blend::One);

    let depth = DepthStencilState::new();
    assert!(depth.DepthBufferEnable());
    assert!(depth.DepthBufferWriteEnable());
    assert_eq!(depth.DepthBufferFunction(), CompareFunction::LessEqual);
    let no_depth = DepthStencilState::NoDepth();
    let depth_read = DepthStencilState::DepthRead();
    assert!(!no_depth.DepthBufferEnable());
    assert!(!depth_read.DepthBufferWriteEnable());

    assert_eq!(RasterizerState::new().CullMode(), CullMode::CullCounterClockwiseFace);
    let cull_none = RasterizerState::CullNone();
    assert_eq!(cull_none.CullMode(), CullMode::CullNone);
    assert_eq!(SamplerState::new().MaxAnisotropy(), 4);
    let linear_clamp = SamplerState::LinearClamp();
    assert_eq!(linear_clamp.AddressU(), TextureAddressMode::Clamp);
    let point_wrap = SamplerState::PointWrap();
    assert_eq!(point_wrap.Filter(), TextureFilter::Point);
}

#[test]
fn a_descriptor_binds_to_one_device_only() {
    let mut state = BlendState::new();
    assert!(state.resource().is_mutable());
    assert_eq!(state.bind(7), Ok(()));
    assert!(!state.resource().is_mutable());
    assert_eq!(state.bind(7), Ok(()));
    assert_eq!(state.bind(8), Err(CnaError::InvalidInput(InputError::GraphicsStateBoundElsewhere)));
    assert_eq!(state.resource().device(), Some(7));
}

#[test]
fn a_disposed_descriptor_binds_to_nothing() {
    let mut state = SamplerState::new();
    assert!(state.Dispose(true));
    assert!(!state.Dispose(true));
    assert_eq!(state.bind(1), Err(CnaError::InvalidInput(InputError::GraphicsStateDisposed)));
}

#[test]
fn stock_presets_are_frozen_and_named() {
    let opaque = BlendState::Opaque();
    assert!(!opaque.resource().is_mutable());
    assert_eq!(opaque.resource().name(), "BlendState.Opaque");
    let mut fresh = BlendState::new();
    assert_eq!(fresh.resource().name(), "");
    fresh.SetName("custom");
    assert_eq!(fresh.resource().name(), "custom");
}

#[test]
fn setters_change_one_field_of_a_mutable_descriptor() {
    let mut state = BlendState::new();
    state.SetColorSourceBlend(Blend::SourceAlpha);
    state.SetMultiSampleMask(5);
    state.SetColorWriteChannels(ColorWriteChannels::Red());
    assert_eq!(state.ColorSourceBlend(), Blend::SourceAlpha);
    assert_eq!(state.ColorDestinationBlend(), Blend::Zero);
    assert_eq!(state.MultiSampleMask(), 5);
    assert_eq!(state.ColorWriteChannels().bits(), 1);
    assert_eq!(state.ColorWriteChannels1().bits(), 15);
}

#[test]
fn blend_functions_min_and_max_swap_numbers_natively() {
    assert_eq!(native_blend_function(BlendFunction::Add), 0);
    assert_eq!(native_blend_function(BlendFunction::Max), 3);
    assert_eq!(native_blend_function(BlendFunction::Min), 4);
    assert_eq!(blend_function_from_native(3), Some(BlendFunction::Max));
    assert_eq!(blend_function_from_native(4), Some(BlendFunction::Min));
    assert_eq!(blend_function_from_native(9), None);
    for value in [BlendFunction::Add, BlendFunction::Subtract, BlendFunction::ReverseSubtract, BlendFunction::Min, BlendFunction::Max] {
        assert_eq!(blend_function_from_native(native_blend_function(value)), Some(value));
    }
}

#[test]
fn blend_state_reads_back_its_native_form() {
    let mut state = BlendState::new();
    state.SetAlphaBlendFunction(BlendFunction::Max);
    state.SetColorDestinationBlend(Blend::InverseSourceAlpha);
    let native = state.native();
    assert_eq!(native.alpha_blend_function, 3);
    let read = BlendState::from_native(native, 42).expect("known numbers");
    assert_eq!(read.AlphaBlendFunction(), BlendFunction::Max);
    assert_eq!(read.ColorDestinationBlend(), Blend::InverseSourceAlpha);
    assert_eq!(read.resource().device(), Some(42));
    let mut unknown = native;
    unknown.color_source_blend = 99;
    assert!(BlendState::from_native(unknown, 42).is_none());
}

#[test]
fn depth_stencil_rasterizer_and_sampler_states_read_back_their_native_form() {
    let mut depth = DepthStencilState::new();
    depth.SetStencilEnable(true);
    depth.SetReferenceStencil(7);
    depth.SetCounterClockwiseStencilPass(StencilOperation::Replace);
    let read = DepthStencilState::from_native(depth.native(), 5).expect("known numbers");
    assert!(read.StencilEnable());
    assert_eq!(read.ReferenceStencil(), 7);
    assert_eq!(read.CounterClockwiseStencilPass(), StencilOperation::Replace);
    assert_eq!(read.DepthBufferFunction(), depth.DepthBufferFunction());
    assert_eq!(read.resource().device(), Some(5));

    let mut rasterizer = RasterizerState::new();
    rasterizer.SetCullMode(CullMode::CullNone);
    rasterizer.SetDepthBiasBits(0.25f32.to_bits());
    let read = RasterizerState::from_native(rasterizer.native(), 5).expect("known numbers");
    assert_eq!(read.CullMode(), CullMode::CullNone);
    assert_eq!(f32::from_bits(read.DepthBiasBits()), 0.25);
    assert_eq!(read.FillMode(), rasterizer.FillMode());

    let mut sampler = SamplerState::new();
    sampler.SetAddressU(TextureAddressMode::Mirror);
    sampler.SetFilter(TextureFilter::Anisotropic);
    sampler.SetMaxAnisotropy(8);
    let mut native = sampler.native();
    let read = SamplerState::from_native(native, 5).expect("known numbers");
    assert_eq!(read.AddressU(), TextureAddressMode::Mirror);
    assert_eq!(read.Filter(), TextureFilter::Anisotropic);
    assert_eq!(read.MaxAnisotropy(), 8);
    native.filter = 1000;
    assert!(SamplerState::from_native(native, 5).is_none());
    assert_eq!(CompareFunction::LessEqual, DepthStencilState::new().DepthBufferFunction());
}
