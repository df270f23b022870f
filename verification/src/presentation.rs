//! Display modes, presentation parameters and the payloads of the device's
//! resource events: plain snapshots, their XNA defaults, and the checked
//! conversion from and to the native runtime's records.

#![allow(non_snake_case)]

use vstd::prelude::*;

use crate::error::{CnaError, NativeFault};
use crate::kinds::{DepthFormat, NativeEnumValue, PresentInterval, RenderTargetUsage, SurfaceFormat};
use crate::value::{DisplayOrientation, Rectangle, WindowHandle};

verus! {

/// The native record of a display mode.
#[derive(Clone, Copy, Debug, PartialEq, Eq, Structural)]
pub struct NativeDisplayMode {
    pub width: i32,
    pub height: i32,
    pub format: u32,
}

/// Immutable XNA display-mode snapshot returned by an adapter or device.
#[derive(Clone, Copy, Debug, PartialEq, Eq, Structural)]
pub struct DisplayMode {
    width: i32,
    height: i32,
    format: SurfaceFormat,
}

/// What a display mode holds.
pub struct DisplayModeView {
    pub width: i32,
    pub height: i32,
    pub format: SurfaceFormat,
}

impl View for DisplayMode {
    type V = DisplayModeView;

    closed spec fn view(&self) -> DisplayModeView {
        DisplayModeView { width: self.width, height: self.height, format: self.format }
    }
}

impl DisplayMode {
    /// The mode a native record describes; `None` when its format number
    /// names no surface format.
    pub fn from_native(value: NativeDisplayMode) -> (r: Option<Self>)
        ensures
            r is Some <==> SurfaceFormat::spec_from_native(value.format) is Some,
            r matches Some(m) ==> m@ == (DisplayModeView {
                width: value.width,
                height: value.height,
                format: SurfaceFormat::spec_from_native(value.format)->0,
            }),
    {
        let format = SurfaceFormat::from_native_value(value.format)?;
        Some(DisplayMode { width: value.width, height: value.height, format })
    }

    /// A mode from its parts.
    pub fn new(width: i32, height: i32, format: SurfaceFormat) -> (r: Self)
        ensures
            r@ == (DisplayModeView { width, height, format }),
    {
        DisplayMode { width, height, format }
    }

    /// XNA `DisplayMode.Format`.
    pub fn Format(&self) -> (r: SurfaceFormat)
        ensures
            r == self@.format,
    {
        self.format
    }

    /// XNA `DisplayMode.Height`.
    pub fn Height(&self) -> (r: i32)
        ensures
            r == self@.height,
    {
        self.height
    }

    /// XNA `DisplayMode.Width`.
    pub fn Width(&self) -> (r: i32)
        ensures
            r == self@.width,
    {
        self.width
    }

    /// XNA `DisplayMode.TitleSafeArea`: the whole mode, from the origin.
    pub fn TitleSafeArea(&self) -> (r: Rectangle)
        ensures
            r == (Rectangle { X: 0, Y: 0, Width: self@.width, Height: self@.height }),
    {
        Rectangle::new(0, 0, self.width, self.height)
    }
}

/// The native record of presentation parameters, without the size and
/// version header the native ABI adds around it.
#[derive(Clone, Copy, Debug, PartialEq, Eq, Structural)]
pub struct NativePresentationParameters {
    pub back_buffer_format: u32,
    pub back_buffer_width: i32,
    pub back_buffer_height: i32,
    pub depth_stencil_format: u32,
    pub multi_sample_count: i32,
    pub presentation_interval: u32,
    pub display_orientation: u32,
    pub render_target_usage: u32,
    pub is_full_screen: u8,
    pub headless_ext: u8,
}

/// The values a presentation-parameter object holds.
#[derive(Clone, Copy, Debug, PartialEq, Eq, Structural)]
pub struct PresentationData {
    pub back_buffer_width: i32,
    pub back_buffer_height: i32,
    pub back_buffer_format: SurfaceFormat,
    pub depth_stencil_format: DepthFormat,
    pub multi_sample_count: i32,
    pub display_orientation: DisplayOrientation,
    pub presentation_interval: PresentInterval,
    pub render_target_usage: RenderTargetUsage,
    pub device_window_handle: WindowHandle,
    pub is_full_screen: bool,
}

/// XNA 4.0's Windows defaults for presentation parameters.
pub open spec fn default_presentation() -> PresentationData {
    PresentationData {
        back_buffer_width: 0,
        back_buffer_height: 0,
        back_buffer_format: SurfaceFormat::Color,
        depth_stencil_format: DepthFormat::NoDepth,
        multi_sample_count: 0,
        display_orientation: DisplayOrientation(0),
        presentation_interval: PresentInterval::Default,
        render_target_usage: RenderTargetUsage::DiscardContents,
        device_window_handle: WindowHandle(0),
        is_full_screen: true,
    }
}

/// Whether a native record can be read back: each number names a member and
/// the orientation word fits XNA's signed flags.
pub open spec fn native_presentation_readable(value: NativePresentationParameters) -> bool {
    &&& SurfaceFormat::spec_from_native(value.back_buffer_format) is Some
    &&& DepthFormat::spec_from_native(value.depth_stencil_format) is Some
    &&& PresentInterval::spec_from_native(value.presentation_interval) is Some
    &&& RenderTargetUsage::spec_from_native(value.render_target_usage) is Some
    &&& value.display_orientation <= i32::MAX
}

/// The values a readable native record describes, with the window handle
/// the caller pairs it with.
pub open spec fn presentation_from_native(
    value: NativePresentationParameters,
    window_handle: WindowHandle,
) -> PresentationData {
    PresentationData {
        back_buffer_width: value.back_buffer_width,
        back_buffer_height: value.back_buffer_height,
        back_buffer_format: SurfaceFormat::spec_from_native(value.back_buffer_format)->0,
        depth_stencil_format: DepthFormat::spec_from_native(value.depth_stencil_format)->0,
        multi_sample_count: value.multi_sample_count,
        display_orientation: DisplayOrientation(value.display_orientation as i32),
        presentation_interval: PresentInterval::spec_from_native(value.presentation_interval)->0,
        render_target_usage: RenderTargetUsage::spec_from_native(value.render_target_usage)->0,
        device_window_handle: window_handle,
        is_full_screen: value.is_full_screen != 0,
    }
}

/// The native record of some values.
pub open spec fn presentation_to_native(data: PresentationData, headless_ext: bool) -> NativePresentationParameters {
    NativePresentationParameters {
        back_buffer_format: data.back_buffer_format.spec_native(),
        back_buffer_width: data.back_buffer_width,
        back_buffer_height: data.back_buffer_height,
        depth_stencil_format: data.depth_stencil_format.spec_native(),
        multi_sample_count: data.multi_sample_count,
        presentation_interval: data.presentation_interval.spec_native(),
        display_orientation: data.display_orientation.0 as u32,
        render_target_usage: data.render_target_usage.spec_native(),
        is_full_screen: if data.is_full_screen { 1u8 } else { 0u8 },
        headless_ext: if headless_ext { 1u8 } else { 0u8 },
    }
}

/// Stable, independently cloneable XNA presentation-parameter object.
#[derive(Clone, Copy, Debug, PartialEq, Eq, Structural)]
pub struct PresentationParameters {
    data: PresentationData,
}

impl View for PresentationParameters {
    type V = PresentationData;

    closed spec fn view(&self) -> PresentationData {
        self.data
    }
}

impl PresentationParameters {
    /// XNA `new PresentationParameters()`: the XNA 4.0 Windows defaults.
    pub fn new() -> (r: Self)
        ensures
            r@ == default_presentation(),
    {
        PresentationParameters {
            data: PresentationData {
                back_buffer_width: 0,
                back_buffer_height: 0,
                back_buffer_format: SurfaceFormat::Color,
                depth_stencil_format: DepthFormat::NoDepth,
                multi_sample_count: 0,
                display_orientation: DisplayOrientation::Default(),
                presentation_interval: PresentInterval::Default,
                render_target_usage: RenderTargetUsage::DiscardContents,
                device_window_handle: WindowHandle(0),
                is_full_screen: true,
            },
        }
    }

    /// Replaces every value with what a native record describes. Returns
    /// `false`, changing nothing, when the record cannot be read back.
    pub fn update_from_native(&mut self, value: NativePresentationParameters, window_handle: WindowHandle) -> (r: bool)
        ensures
            r == native_presentation_readable(value),
            r ==> final(self)@ == presentation_from_native(value, window_handle),
            !r ==> final(self)@ == old(self)@,
    {
        let back_buffer_format = match SurfaceFormat::from_native_value(value.back_buffer_format) {
            Some(format) => format,
            None => return false,
        };
        let depth_stencil_format = match DepthFormat::from_native_value(value.depth_stencil_format) {
            Some(format) => format,
            None => return false,
        };
        let presentation_interval = match PresentInterval::from_native_value(value.presentation_interval) {
            Some(interval) => interval,
            None => return false,
        };
        let render_target_usage = match RenderTargetUsage::from_native_value(value.render_target_usage) {
            Some(usage) => usage,
            None => return false,
        };
        if value.display_orientation > 0x7fff_ffff {
            return false;
        }
        let display_orientation: i32 = value.display_orientation as i32;
        self.data = PresentationData {
            back_buffer_width: value.back_buffer_width,
            back_buffer_height: value.back_buffer_height,
            back_buffer_format,
            depth_stencil_format,
            multi_sample_count: value.multi_sample_count,
            display_orientation: DisplayOrientation::from_bits(display_orientation),
            presentation_interval,
            render_target_usage,
            device_window_handle: window_handle,
            is_full_screen: value.is_full_screen != 0,
        };
        true
    }

    /// XNA `GraphicsDevice.PresentationParameters` read from the runtime:
    /// the values its record describes, with the window handle the game
    /// reports; a record that cannot be read back is an inconsistent answer
    /// and changes nothing.
    pub fn read_from_device(&mut self, value: NativePresentationParameters, window_handle: WindowHandle) -> (r: Result<(), CnaError>)
        ensures
            native_presentation_readable(value) ==> r == Ok::<(), CnaError>(())
                && final(self)@ == presentation_from_native(value, window_handle),
            !native_presentation_readable(value) ==> r == Err::<(), CnaError>(
                CnaError::Native(NativeFault::InvalidPresentationParameters),
            ) && final(self)@ == old(self)@,
    {
        if self.update_from_native(value, window_handle) {
            Ok(())
        } else {
            Err(CnaError::Native(NativeFault::InvalidPresentationParameters))
        }
    }

    /// The native record of the current values.
    pub fn to_native(&self, headless_ext: bool) -> (r: NativePresentationParameters)
        ensures
            r == presentation_to_native(self@, headless_ext),
    {
        let value = self.read();
        NativePresentationParameters {
            back_buffer_format: value.back_buffer_format.native_value(),
            back_buffer_width: value.back_buffer_width,
            back_buffer_height: value.back_buffer_height,
            depth_stencil_format: value.depth_stencil_format.native_value(),
            multi_sample_count: value.multi_sample_count,
            presentation_interval: value.presentation_interval.native_value(),
            display_orientation: value.display_orientation.bits() as u32,
            render_target_usage: value.render_target_usage.native_value(),
            is_full_screen: if value.is_full_screen { 1 } else { 0 },
            headless_ext: if headless_ext { 1 } else { 0 },
        }
    }

    /// XNA `PresentationParameters.Clone`: an independent copy.
    pub fn Clone(&self) -> (r: Self)
        ensures
            r@ == self@,
    {
        PresentationParameters { data: self.data }
    }

    /// A snapshot of every value.
    pub fn read(&self) -> (r: PresentationData)
        ensures
            r == self@,
    {
        self.data
    }

    /// Replaces every value at once.
    pub fn write(&mut self, value: PresentationData)
        ensures
            final(self)@ == value,
    {
        self.data = value;
    }

    /// XNA `PresentationParameters.BackBufferWidth`.
    pub fn BackBufferWidth(&self) -> (r: i32)
        ensures
            r == self@.back_buffer_width,
    {
        self.data.back_buffer_width
    }

    /// XNA `PresentationParameters.BackBufferWidth` assignment.
    pub fn SetBackBufferWidth(&mut self, value: i32)
        ensures
            final(self)@ == (PresentationData { back_buffer_width: value, ..old(self)@ }),
    {
        self.data.back_buffer_width = value;
    }

    /// XNA `PresentationParameters.BackBufferHeight`.
    pub fn BackBufferHeight(&self) -> (r: i32)
        ensures
            r == self@.back_buffer_height,
    {
        self.data.back_buffer_height
    }

    /// XNA `PresentationParameters.BackBufferHeight` assignment.
    pub fn SetBackBufferHeight(&mut self, value: i32)
        ensures
            final(self)@ == (PresentationData { back_buffer_height: value, ..old(self)@ }),
    {
        self.data.back_buffer_height = value;
    }

    /// XNA `PresentationParameters.BackBufferFormat`.
    pub fn BackBufferFormat(&self) -> (r: SurfaceFormat)
        ensures
            r == self@.back_buffer_format,
    {
        self.data.back_buffer_format
    }

    /// XNA `PresentationParameters.BackBufferFormat` assignment.
    pub fn SetBackBufferFormat(&mut self, value: SurfaceFormat)
        ensures
            final(self)@ == (PresentationData { back_buffer_format: value, ..old(self)@ }),
    {
        self.data.back_buffer_format = value;
    }

    /// XNA `PresentationParameters.DepthStencilFormat`.
    pub fn DepthStencilFormat(&self) -> (r: DepthFormat)
        ensures
            r == self@.depth_stencil_format,
    {
        self.data.depth_stencil_format
    }

    /// XNA `PresentationParameters.DepthStencilFormat` assignment.
    pub fn SetDepthStencilFormat(&mut self, value: DepthFormat)
        ensures
            final(self)@ == (PresentationData { depth_stencil_format: value, ..old(self)@ }),
    {
        self.data.depth_stencil_format = value;
    }

    /// XNA `PresentationParameters.MultiSampleCount`.
    pub fn MultiSampleCount(&self) -> (r: i32)
        ensures
            r == self@.multi_sample_count,
    {
        self.data.multi_sample_count
    }

    /// XNA `PresentationParameters.MultiSampleCount` assignment.
    pub fn SetMultiSampleCount(&mut self, value: i32)
        ensures
            final(self)@ == (PresentationData { multi_sample_count: value, ..old(self)@ }),
    {
        self.data.multi_sample_count = value;
    }

    /// XNA `PresentationParameters.DisplayOrientation`.
    pub fn DisplayOrientation(&self) -> (r: DisplayOrientation)
        ensures
            r == self@.display_orientation,
    {
        self.data.display_orientation
    }

    /// XNA `PresentationParameters.DisplayOrientation` assignment.
    pub fn SetDisplayOrientation(&mut self, value: DisplayOrientation)
        ensures
            final(self)@ == (PresentationData { display_orientation: value, ..old(self)@ }),
    {
        self.data.display_orientation = value;
    }

    /// XNA `PresentationParameters.PresentationInterval`.
    pub fn PresentationInterval(&self) -> (r: PresentInterval)
        ensures
            r == self@.presentation_interval,
    {
        self.data.presentation_interval
    }

    /// XNA `PresentationParameters.PresentationInterval` assignment.
    pub fn SetPresentationInterval(&mut self, value: PresentInterval)
        ensures
            final(self)@ == (PresentationData { presentation_interval: value, ..old(self)@ }),
    {
        self.data.presentation_interval = value;
    }

    /// XNA `PresentationParameters.RenderTargetUsage`.
    pub fn RenderTargetUsage(&self) -> (r: RenderTargetUsage)
        ensures
            r == self@.render_target_usage,
    {
        self.data.render_target_usage
    }

    /// XNA `PresentationParameters.RenderTargetUsage` assignment.
    pub fn SetRenderTargetUsage(&mut self, value: RenderTargetUsage)
        ensures
            final(self)@ == (PresentationData { render_target_usage: value, ..old(self)@ }),
    {
        self.data.render_target_usage = value;
    }

    /// XNA `PresentationParameters.DeviceWindowHandle`.
    pub fn DeviceWindowHandle(&self) -> (r: WindowHandle)
        ensures
            r == self@.device_window_handle,
    {
        self.data.device_window_handle
    }

    /// XNA `PresentationParameters.DeviceWindowHandle` assignment.
    pub fn SetDeviceWindowHandle(&mut self, value: WindowHandle)
        ensures
            final(self)@ == (PresentationData { device_window_handle: value, ..old(self)@ }),
    {
        self.data.device_window_handle = value;
    }

    /// XNA `PresentationParameters.IsFullScreen`.
    pub fn IsFullScreen(&self) -> (r: bool)
        ensures
            r == self@.is_full_screen,
    {
        self.data.is_full_screen
    }

    /// XNA `PresentationParameters.IsFullScreen` assignment.
    pub fn SetIsFullScreen(&mut self, value: bool)
        ensures
            final(self)@ == (PresentationData { is_full_screen: value, ..old(self)@ }),
    {
        self.data.is_full_screen = value;
    }

    /// XNA `PresentationParameters.Bounds`: the back buffer, from the origin.
    pub fn Bounds(&self) -> (r: Rectangle)
        ensures
            r == (Rectangle { X: 0, Y: 0, Width: self@.back_buffer_width, Height: self@.back_buffer_height }),
    {
        Rectangle::new(0, 0, self.data.back_buffer_width, self.data.back_buffer_height)
    }
}

impl Default for PresentationParameters {
    fn default() -> (r: Self)
        ensures
            r@ == default_presentation(),
    {
        Self::new()
    }
}

/// Writing values to the native record and reading the record back gives
/// the same values, with the window handle the reader supplies.
pub proof fn law_presentation_native_round_trip(data: PresentationData, headless_ext: bool)
    requires
        data.display_orientation.0 >= 0,
    ensures
        native_presentation_readable(presentation_to_native(data, headless_ext)),
        presentation_from_native(presentation_to_native(data, headless_ext), data.device_window_handle) == data,
{
    data.back_buffer_format.lemma_native_round_trip();
    data.depth_stencil_format.lemma_native_round_trip();
    data.presentation_interval.lemma_native_round_trip();
    data.render_target_usage.lemma_native_round_trip();
}

/// Payload of XNA's resource-created event: the resource that was made.
#[derive(Clone)]
pub struct ResourceCreatedEventArgs<R> {
    resource: R,
}

impl<R: Clone> ResourceCreatedEventArgs<R> {
    /// The resource the payload carries, as a value of the model.
    pub closed spec fn spec_resource(&self) -> R {
        self.resource
    }

    /// A payload for `resource`.
    pub fn new(resource: R) -> (r: Self)
        ensures
            r.spec_resource() == resource,
    {
        ResourceCreatedEventArgs { resource }
    }

    /// XNA `ResourceCreatedEventArgs.Resource`: a clone of the shared
    /// handle to the resource.
    pub fn Resource(&self) -> (r: R)
        ensures
            cloned(self.spec_resource(), r),
    {
        self.resource.clone()
    }
}

/// Snapshot payload of XNA's resource-destroyed event: the name and tag the
/// resource had.
#[derive(Clone)]
pub struct ResourceDestroyedEventArgs<T> {
    name: String,
    tag: Option<T>,
}

impl<T: Clone> ResourceDestroyedEventArgs<T> {
    /// The name the payload carries.
    pub closed spec fn spec_name(&self) -> Seq<char> {
        self.name@
    }

    /// The tag the payload carries.
    pub closed spec fn spec_tag(&self) -> Option<T> {
        self.tag
    }

    /// A payload for a resource named `name` with `tag`.
    pub fn new(name: &str, tag: Option<T>) -> (r: Self)
        ensures
            r.spec_name() == name@,
            r.spec_tag() == tag,
    {
        ResourceDestroyedEventArgs { name: String::from_str(name), tag }
    }

    /// XNA `ResourceDestroyedEventArgs.Name`.
    pub fn Name(&self) -> (r: String)
        ensures
            r@ == self.spec_name(),
    {
        self.name.clone()
    }

    /// XNA `ResourceDestroyedEventArgs.Tag`: a clone of the tag, if any.
    pub fn Tag(&self) -> (r: Option<T>)
        ensures
            r is Some <==> self.spec_tag() is Some,
            r matches Some(t) ==> cloned(self.spec_tag()->0, t),
    {
        match &self.tag {
            Some(tag) => Some(tag.clone()),
            None => None,
        }
    }
}

/// Each field of the native presentation record carries the value (or
/// native number, or byte) of the setting of the same name.
pub proof fn law_presentation_native_fields(data: PresentationData, headless_ext: bool)
    ensures
        presentation_to_native(data, headless_ext).back_buffer_width == data.back_buffer_width,
        presentation_to_native(data, headless_ext).back_buffer_height == data.back_buffer_height,
        presentation_to_native(data, headless_ext).back_buffer_format == data.back_buffer_format.spec_native(),
        presentation_to_native(data, headless_ext).depth_stencil_format == data.depth_stencil_format.spec_native(),
        presentation_to_native(data, headless_ext).multi_sample_count == data.multi_sample_count,
        presentation_to_native(data, headless_ext).presentation_interval == data.presentation_interval.spec_native(),
        presentation_to_native(data, headless_ext).display_orientation == data.display_orientation.0 as u32,
        presentation_to_native(data, headless_ext).render_target_usage == data.render_target_usage.spec_native(),
        presentation_to_native(data, headless_ext).is_full_screen == (if data.is_full_screen { 1u8 } else { 0u8 }),
        presentation_to_native(data, headless_ext).headless_ext == (if headless_ext { 1u8 } else { 0u8 }),
{
}

/// Each setting a readable native presentation record is read as comes
/// from the record's field of the same name; the window handle is the one
/// the reader supplies.
pub proof fn law_presentation_decoded_fields(value: NativePresentationParameters, window_handle: WindowHandle)
    requires
        native_presentation_readable(value),
    ensures
        presentation_from_native(value, window_handle).back_buffer_width == value.back_buffer_width,
        presentation_from_native(value, window_handle).back_buffer_height == value.back_buffer_height,
        presentation_from_native(value, window_handle).back_buffer_format.spec_native() == value.back_buffer_format,
        presentation_from_native(value, window_handle).depth_stencil_format.spec_native() == value.depth_stencil_format,
        presentation_from_native(value, window_handle).multi_sample_count == value.multi_sample_count,
        presentation_from_native(value, window_handle).presentation_interval.spec_native() == value.presentation_interval,
        presentation_from_native(value, window_handle).display_orientation.0 as u32 == value.display_orientation,
        presentation_from_native(value, window_handle).render_target_usage.spec_native() == value.render_target_usage,
        presentation_from_native(value, window_handle).device_window_handle == window_handle,
        presentation_from_native(value, window_handle).is_full_screen == (value.is_full_screen != 0),
{
    SurfaceFormat::lemma_from_native_inverse(value.back_buffer_format);
    DepthFormat::lemma_from_native_inverse(value.depth_stencil_format);
    PresentInterval::lemma_from_native_inverse(value.presentation_interval);
    RenderTargetUsage::lemma_from_native_inverse(value.render_target_usage);
    let w = value.display_orientation;
    assert(w <= 0x7fff_ffff ==> ((w as i32) as u32) == w) by (bit_vector);
}

} // verus!
