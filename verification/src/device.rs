//! What the game-owned graphics device decides on its own: how the
//! runtime's status and profile numbers read, where its adapter sits in the
//! adapter set, and which clear, present and dispose requests have a route.

use vstd::prelude::*;

use crate::error::{CallbackFault, CnaError, NativeFault, Unsupported};
use crate::kinds::{ClearOptions, GraphicsDeviceStatus, GraphicsProfile, NativeEnumValue};
use crate::value::{Rectangle, WindowHandle};

verus! {

/// XNA `GraphicsDevice.GraphicsDeviceStatus`, from the runtime's number.
pub fn device_status_from_native(value: u32) -> (r: Result<GraphicsDeviceStatus, CnaError>)
    ensures
        r == match GraphicsDeviceStatus::spec_from_native(value) {
            Some(status) => Ok::<GraphicsDeviceStatus, CnaError>(status),
            None => Err(CnaError::Native(NativeFault::UnknownGraphicsDeviceStatus)),
        },
{
    match GraphicsDeviceStatus::from_native_value(value) {
        Some(status) => Ok(status),
        None => Err(CnaError::Native(NativeFault::UnknownGraphicsDeviceStatus)),
    }
}

/// XNA `GraphicsDevice.GraphicsProfile`, from the runtime's number.
pub fn graphics_profile_from_native(value: u32) -> (r: Result<GraphicsProfile, CnaError>)
    ensures
        r == match GraphicsProfile::spec_from_native(value) {
            Some(profile) => Ok::<GraphicsProfile, CnaError>(profile),
            None => Err(CnaError::Native(NativeFault::UnknownGraphicsProfile)),
        },
{
    match GraphicsProfile::from_native_value(value) {
        Some(profile) => Ok(profile),
        None => Err(CnaError::Native(NativeFault::UnknownGraphicsProfile)),
    }
}

/// XNA `GraphicsDevice.Adapter`: the place of the device's adapter in the
/// current adapter set, which must hold it.
pub fn adapter_position(adapter_count: usize, index: u32) -> (r: Result<usize, CnaError>)
    ensures
        index < adapter_count ==> r == Ok::<usize, CnaError>(index as usize),
        index >= adapter_count ==> r == Err::<usize, CnaError>(CnaError::Native(NativeFault::AdapterIndexOutsideSet)),
{
    if (index as usize) < adapter_count {
        Ok(index as usize)
    } else {
        Err(CnaError::Native(NativeFault::AdapterIndexOutsideSet))
    }
}

/// XNA `GraphicsDevice.Clear` with options: only the color target alone
/// can be cleared.
pub fn check_clear_options(options: ClearOptions) -> (r: Result<(), CnaError>)
    ensures
        options@ == 1 ==> r == Ok::<(), CnaError>(()),
        options@ != 1 ==> r == Err::<(), CnaError>(CnaError::UnsupportedRuntime(Unsupported::DepthStencilClear)),
{
    let bits: u32 = options.bits();
    proof {
        let flags: i32 = options@;
        assert((flags as u32 == 1u32) <==> (flags == 1i32)) by (bit_vector);
    }
    if bits != 1 {
        return Err(CnaError::UnsupportedRuntime(Unsupported::DepthStencilClear));
    }
    Ok(())
}

/// XNA `GraphicsDevice.Present` with arguments: only the whole back buffer
/// to the current window, so no rectangle and no other window.
pub fn check_present(source: Option<Rectangle>, destination: Option<Rectangle>, window: WindowHandle) -> (r: Result<(), CnaError>)
    ensures
        (source is None && destination is None && window.0 == 0) ==> r == Ok::<(), CnaError>(()),
        !(source is None && destination is None && window.0 == 0) ==> r == Err::<(), CnaError>(
            CnaError::UnsupportedRuntime(Unsupported::PartialPresent),
        ),
{
    if source.is_some() || destination.is_some() || window.0 != 0 {
        return Err(CnaError::UnsupportedRuntime(Unsupported::PartialPresent));
    }
    Ok(())
}

/// XNA `GraphicsDevice.Dispose`: nothing to do once the device is gone;
/// the game-owned device itself cannot be disposed.
pub fn device_dispose_outcome(is_disposed: bool) -> (r: Result<(), CnaError>)
    ensures
        is_disposed ==> r == Ok::<(), CnaError>(()),
        !is_disposed ==> r == Err::<(), CnaError>(CnaError::UnsupportedRuntime(Unsupported::GraphicsDeviceDispose)),
{
    if is_disposed {
        Ok(())
    } else {
        Err(CnaError::UnsupportedRuntime(Unsupported::GraphicsDeviceDispose))
    }
}

/// A device reset after its `DeviceResetting` handlers ran: a panicking
/// handler stops the reset before the runtime is asked.
pub fn after_resetting_handlers(panicked: bool) -> (r: Result<(), CnaError>)
    ensures
        panicked ==> r == Err::<(), CnaError>(CnaError::Callback(CallbackFault::DeviceResettingHandlerPanicked)),
        !panicked ==> r == Ok::<(), CnaError>(()),
{
    if panicked {
        Err(CnaError::Callback(CallbackFault::DeviceResettingHandlerPanicked))
    } else {
        Ok(())
    }
}

/// A device reset after its `DeviceReset` handlers ran: the reset is done,
/// and a panicking handler is reported.
pub fn after_reset_handlers(panicked: bool) -> (r: Result<(), CnaError>)
    ensures
        panicked ==> r == Err::<(), CnaError>(CnaError::Callback(CallbackFault::DeviceResetHandlerPanicked)),
        !panicked ==> r == Ok::<(), CnaError>(()),
{
    if panicked {
        Err(CnaError::Callback(CallbackFault::DeviceResetHandlerPanicked))
    } else {
        Ok(())
    }
}

} // verus!
