use cna::device::{
    adapter_position, after_reset_handlers, after_resetting_handlers, check_clear_options, check_present, device_dispose_outcome, device_status_from_native,
    graphics_profile_from_native,
};
use cna::effect::{effect_texture_outcome, EffectParameterClass, EffectParameterType};
use cna::presentation::PresentationParameters;
use cna::states::{device_blend_state, device_sampler_state, BlendState, SamplerState};
use cna::error::{CallbackFault, CnaError, InputError, NativeFault, Unsupported};
use cna::kinds::{ClearOptions, GraphicsDeviceStatus, GraphicsProfile};
use cna::value::{Rectangle, WindowHandle};

#[test]
fn device_status_and_profile_read_from_native_numbers() {
    assert_eq!(device_status_from_native(1), Ok(GraphicsDeviceStatus::Lost));
    assert_eq!(device_status_from_native(7), Err(CnaError::Native(NativeFault::UnknownGraphicsDeviceStatus)));
    assert_eq!(graphics_profile_from_native(1), Ok(GraphicsProfile::HiDef));
    assert_eq!(graphics_profile_from_native(2), Err(CnaError::Native(NativeFault::UnknownGraphicsProfile)));
    assert_eq!(adapter_position(2, 1), Ok(1));
    assert_eq!(adapter_position(2, 2), Err(CnaError::Native(NativeFault::AdapterIndexOutsideSet)));
}

#[test]
fn only_a_color_clear_and_a_whole_present_have_routes() {
    assert_eq!(check_clear_options(ClearOptions::Target()), Ok(()));
    assert_eq!(
        check_clear_options(ClearOptions::Target() | ClearOptions::DepthBuffer()),
        Err(CnaError::UnsupportedRuntime(Unsupported::DepthStencilClear))
    );
    assert_eq!(check_present(None, None, WindowHandle(0)), Ok(()));
    assert_eq!(
        check_present(Some(Rectangle::new(0, 0, 1, 1)), None, WindowHandle(0)),
        Err(CnaError::UnsupportedRuntime(Unsupported::PartialPresent))
    );
    assert_eq!(check_present(None, None, WindowHandle(5)), Err(CnaError::UnsupportedRuntime(Unsupported::PartialPresent)));
    assert_eq!(device_dispose_outcome(true), Ok(()));
    assert_eq!(device_dispose_outcome(false), Err(CnaError::UnsupportedRuntime(Unsupported::GraphicsDeviceDispose)));
}

#[test]
fn an_effect_texture_reads_back_only_as_it_was_assigned() {
    assert_eq!(effect_texture_outcome::<&str>(0, None), Ok(None));
    assert_eq!(effect_texture_outcome::<&str>(4, None), Err(CnaError::UnsupportedRuntime(Unsupported::EffectTextureNotAssigned)));
    assert_eq!(effect_texture_outcome(4, Some(("grass", Ok(4)))), Ok(Some("grass")));
    assert_eq!(effect_texture_outcome(4, Some(("grass", Ok(5)))), Err(CnaError::Native(NativeFault::EffectTextureChangedOutside)));
    let disposed = CnaError::InvalidInput(InputError::ResourceDisposed);
    assert_eq!(effect_texture_outcome(4, Some(("grass", Err(disposed)))), Err(disposed));
}

#[test]
fn reset_handlers_that_panic_are_reported() {
    assert_eq!(after_resetting_handlers(false), Ok(()));
    assert_eq!(after_resetting_handlers(true), Err(CnaError::Callback(CallbackFault::DeviceResettingHandlerPanicked)));
    assert_eq!(after_reset_handlers(true), Err(CnaError::Callback(CallbackFault::DeviceResetHandlerPanicked)));
}

#[test]
fn every_error_kind_reports_its_text() {
    assert_eq!(NativeFault::NoDefaultAdapter.message(), "CNA enumerated no default graphics adapter");
    assert_eq!(Unsupported::PartialPresent.message(), "CNA exposes only whole-backbuffer presentation to the current window");
    assert_eq!(CallbackFault::DeviceResetHandlerPanicked.message(), "GraphicsDevice.DeviceReset handler panicked");
    assert_eq!(InputError::RenderTargetBoundTwice.message(), "the same render target cannot occupy multiple binding slots");
}

#[test]
fn effect_parameter_classes_and_types_read_from_native_numbers() {
    assert_eq!(EffectParameterClass::from_native(2), Ok(EffectParameterClass::Matrix));
    assert_eq!(EffectParameterClass::from_native(5), Err(CnaError::Native(NativeFault::UnknownEffectParameterClass)));
    assert_eq!(EffectParameterType::from_native(9), Ok(EffectParameterType::TextureCube));
    assert_eq!(EffectParameterType::from_native(10), Err(CnaError::Native(NativeFault::UnknownEffectParameterType)));
}

#[test]
fn device_state_reads_refuse_records_naming_no_member() {
    let blend = BlendState::new();
    let read = device_blend_state(blend.native(), 3).expect("known numbers");
    assert_eq!(read.ColorSourceBlend(), blend.ColorSourceBlend());
    let mut bad = blend.native();
    bad.alpha_source_blend = 77;
    assert_eq!(device_blend_state(bad, 3).err(), Some(CnaError::Native(NativeFault::InvalidBlendState)));
    let mut sampler = SamplerState::new().native();
    sampler.address_w = 99;
    assert_eq!(device_sampler_state(sampler, 3).err(), Some(CnaError::Native(NativeFault::InvalidSamplerState)));
}

#[test]
fn presentation_parameters_read_from_the_device_or_refuse() {
    let mut p = PresentationParameters::new();
    let mut native = p.to_native(false);
    native.back_buffer_width = 320;
    assert_eq!(p.read_from_device(native, WindowHandle(9)), Ok(()));
    assert_eq!(p.BackBufferWidth(), 320);
    assert_eq!(p.DeviceWindowHandle(), WindowHandle(9));
    native.presentation_interval = 50;
    assert_eq!(p.read_from_device(native, WindowHandle(1)), Err(CnaError::Native(NativeFault::InvalidPresentationParameters)));
    assert_eq!(p.DeviceWindowHandle(), WindowHandle(9));
}
