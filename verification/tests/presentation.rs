use cna::display::{
    adapter_count, current_display_mode_from_native, decode_format_selection, default_adapter_index,
    display_modes_from_native, AdapterIdentity, DisplayModeCollection, FormatSelection, NativeFormatSelection,
};
use cna::error::{CnaError, InputError, NativeFault};
use cna::kinds::{DepthFormat, PresentInterval, RenderTargetUsage, SurfaceFormat};
use cna::presentation::{
    DisplayMode, NativeDisplayMode, NativePresentationParameters, PresentationParameters, ResourceCreatedEventArgs,
    ResourceDestroyedEventArgs,
};
use cna::value::{DisplayOrientation, Rectangle, WindowHandle};

#[test]
fn presentation_parameters_start_at_the_xna_defaults() {
    let p = PresentationParameters::new();
    assert_eq!(p.BackBufferWidth(), 0);
    assert_eq!(p.BackBufferHeight(), 0);
    assert_eq!(p.BackBufferFormat(), SurfaceFormat::Color);
    assert_eq!(p.DepthStencilFormat(), DepthFormat::NoDepth);
    assert_eq!(p.MultiSampleCount(), 0);
    assert_eq!(p.DisplayOrientation(), DisplayOrientation::Default());
    assert_eq!(p.PresentationInterval(), PresentInterval::Default);
    assert_eq!(p.RenderTargetUsage(), RenderTargetUsage::DiscardContents);
    assert_eq!(p.DeviceWindowHandle(), WindowHandle(0));
    assert!(p.IsFullScreen());
    assert_eq!(p.read(), PresentationParameters::default().read());
}

#[test]
fn presentation_setters_change_one_value_and_bounds_follow_the_back_buffer() {
    let mut p = PresentationParameters::new();
    p.SetBackBufferWidth(1280);
    p.SetBackBufferHeight(720);
    p.SetIsFullScreen(false);
    p.SetPresentationInterval(PresentInterval::Immediate);
    assert_eq!(p.BackBufferWidth(), 1280);
    assert_eq!(p.BackBufferHeight(), 720);
    assert!(!p.IsFullScreen());
    assert_eq!(p.PresentationInterval(), PresentInterval::Immediate);
    assert_eq!(p.DepthStencilFormat(), DepthFormat::NoDepth);
    assert_eq!(p.Bounds(), Rectangle { X: 0, Y: 0, Width: 1280, Height: 720 });
    let copy = p.Clone();
    p.SetBackBufferWidth(1);
    assert_eq!(copy.BackBufferWidth(), 1280);
}

#[test]
fn presentation_parameters_survive_a_native_round_trip() {
    let mut p = PresentationParameters::new();
    p.SetBackBufferWidth(800);
    p.SetBackBufferHeight(600);
    p.SetBackBufferFormat(SurfaceFormat::Bgr565);
    p.SetDepthStencilFormat(DepthFormat::Depth24Stencil8);
    p.SetMultiSampleCount(4);
    p.SetRenderTargetUsage(RenderTargetUsage::PreserveContents);
    p.SetIsFullScreen(false);
    p.SetDeviceWindowHandle(WindowHandle(77));
    let native = p.to_native(true);
    assert_eq!(native.back_buffer_format, 1);
    assert_eq!(native.depth_stencil_format, 3);
    assert_eq!(native.render_target_usage, 1);
    assert_eq!(native.is_full_screen, 0);
    assert_eq!(native.headless_ext, 1);
    let mut back = PresentationParameters::new();
    assert!(back.update_from_native(native, WindowHandle(77)));
    assert_eq!(back.read(), p.read());
}

#[test]
fn an_unreadable_native_record_leaves_the_parameters_unchanged() {
    let mut p = PresentationParameters::new();
    p.SetBackBufferWidth(640);
    let mut native = p.to_native(false);
    native.depth_stencil_format = 9;
    assert!(!p.update_from_native(native, WindowHandle(1)));
    assert_eq!(p.BackBufferWidth(), 640);
    assert_eq!(p.DeviceWindowHandle(), WindowHandle(0));
}

#[test]
fn display_modes_read_back_from_native_records() {
    let mode = DisplayMode::from_native(NativeDisplayMode { width: 1920, height: 1080, format: 0 }).expect("known format");
    assert_eq!(mode.Width(), 1920);
    assert_eq!(mode.Height(), 1080);
    assert_eq!(mode.Format(), SurfaceFormat::Color);
    assert_eq!(mode.TitleSafeArea(), Rectangle { X: 0, Y: 0, Width: 1920, Height: 1080 });
    assert_eq!(DisplayMode::from_native(NativeDisplayMode { width: 1, height: 1, format: 20 }), None);
    assert_eq!(
        current_display_mode_from_native(NativeDisplayMode { width: 1, height: 1, format: 99 }),
        Err(CnaError::Native(NativeFault::UnknownCurrentDisplayModeFormat))
    );
    let records = vec![
        NativeDisplayMode { width: 640, height: 480, format: 0 },
        NativeDisplayMode { width: 800, height: 600, format: 1 },
    ];
    let modes = display_modes_from_native(&records).expect("known formats");
    assert_eq!(modes, vec![DisplayMode::new(640, 480, SurfaceFormat::Color), DisplayMode::new(800, 600, SurfaceFormat::Bgr565)]);
    let bad = vec![NativeDisplayMode { width: 640, height: 480, format: 0 }, NativeDisplayMode { width: 1, height: 1, format: 40 }];
    assert_eq!(display_modes_from_native(&bad), Err(CnaError::Native(NativeFault::UnknownDisplayModeFormat)));
}

#[test]
fn display_mode_collection_filters_by_format_in_order() {
    let a = DisplayMode::new(640, 480, SurfaceFormat::Color);
    let b = DisplayMode::new(800, 600, SurfaceFormat::Bgr565);
    let c = DisplayMode::new(1024, 768, SurfaceFormat::Color);
    let collection = DisplayModeCollection::new(vec![a, b, c]);
    assert_eq!(collection.Item(SurfaceFormat::Color), vec![a, c]);
    assert_eq!(collection.Item(SurfaceFormat::Bgr565), vec![b]);
    assert_eq!(collection.Item(SurfaceFormat::Dxt1), vec![]);
    assert_eq!(collection.GetEnumerator(), vec![a, b, c]);
}

#[test]
fn adapters_are_counted_and_the_default_is_the_first_marked() {
    assert_eq!(adapter_count(3), Ok(3));
    assert_eq!(adapter_count(-1), Err(CnaError::InvalidInput(InputError::AdapterCountTooLarge)));
    assert_eq!(default_adapter_index(&vec![false, true, true]), Ok(1));
    assert_eq!(default_adapter_index(&vec![false, false]), Err(CnaError::Native(NativeFault::NoDefaultAdapter)));
}

#[test]
fn format_selection_checks_the_surface_format_first() {
    let answer = NativeFormatSelection { format: 1, depth_format: 2, multi_sample_count: 4, exact_match: 1 };
    assert_eq!(
        decode_format_selection(answer),
        Ok(FormatSelection { format: SurfaceFormat::Bgr565, depth_format: DepthFormat::Depth24, multi_sample_count: 4, exact_match: true })
    );
    let both_bad = NativeFormatSelection { format: 100, depth_format: 100, multi_sample_count: 0, exact_match: 0 };
    assert_eq!(decode_format_selection(both_bad), Err(CnaError::Native(NativeFault::UnknownSelectedSurfaceFormat)));
    let depth_bad = NativeFormatSelection { format: 0, depth_format: 100, multi_sample_count: 0, exact_match: 0 };
    assert_eq!(decode_format_selection(depth_bad), Err(CnaError::Native(NativeFault::UnknownSelectedDepthFormat)));
}

#[test]
fn adapter_identity_compares_and_hashes_consistently() {
    let p0 = AdapterIdentity::default_placeholder();
    let p0_again = AdapterIdentity::proposal_placeholder(0);
    let e0 = AdapterIdentity::enumerated(0x1_0000_0002, 0);
    let e0_same = AdapterIdentity::enumerated(0x1_0000_0002, 0);
    assert!(p0.same_identity(&p0_again));
    assert!(!p0.same_identity(&e0));
    assert!(e0.same_identity(&e0_same));
    assert_eq!(e0.identity_hash(), e0_same.identity_hash());
    assert_eq!(e0.identity_hash(), 3);
    assert_eq!(AdapterIdentity::proposal_placeholder(5).identity_hash(), 5);
}

#[test]
fn adapter_indices_are_checked_against_their_device() {
    let e = AdapterIdentity::enumerated(40, 2);
    assert_eq!(e.index_for(true, 40), Ok(2));
    assert_eq!(e.index_for(false, 40), Err(CnaError::InvalidInput(InputError::GraphicsDeviceDisposed)));
    assert_eq!(e.index_for(true, 41), Err(CnaError::InvalidInput(InputError::AdapterOfAnotherDevice)));
    assert_eq!(AdapterIdentity::proposal_placeholder(1).index_for(true, 40), Err(CnaError::InvalidInput(InputError::GraphicsDeviceDisposed)));
    assert_eq!(AdapterIdentity::proposal_placeholder(7).proposal_index_for(false, 0), Ok(7));
    assert_eq!(
        AdapterIdentity::proposal_placeholder(u32::MAX).proposal_index_for(false, 0),
        Err(CnaError::InvalidInput(InputError::AdapterIndexExceedsI32))
    );
    assert_eq!(AdapterIdentity::enumerated(9, 3).independent_construction_index(), Ok(3));
}

#[test]
fn resource_event_payloads_carry_what_they_were_given() {
    let created = ResourceCreatedEventArgs::new(42u32);
    assert_eq!(created.Resource(), 42);
    let destroyed = ResourceDestroyedEventArgs::new("texture", Some(5u8));
    assert_eq!(destroyed.Name(), "texture".to_string());
    assert_eq!(destroyed.Tag(), Some(5));
}
