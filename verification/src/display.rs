//! Display-mode collections and graphics-adapter identity: the filter XNA's
//! indexer applies, how adapters compare and hash, which adapter is the
//! default, and how the runtime's format selections are read back.

#![allow(non_snake_case)]

use vstd::prelude::*;

use crate::error::{CnaError, InputError, NativeFault};
use crate::kinds::{DepthFormat, NativeEnumValue, SurfaceFormat};
use crate::presentation::{DisplayMode, NativeDisplayMode};

verus! {

/// The modes of a sequence whose format is `format`, in order.
pub open spec fn modes_with_format(modes: Seq<DisplayMode>, format: SurfaceFormat) -> Seq<DisplayMode>
    decreases modes.len(),
{
    if modes.len() == 0 {
        Seq::empty()
    } else {
        let rest = modes_with_format(modes.drop_last(), format);
        if modes.last()@.format == format {
            rest.push(modes.last())
        } else {
            rest
        }
    }
}

/// Immutable display-mode snapshot collection.
pub struct DisplayModeCollection {
    values: Vec<DisplayMode>,
}

impl View for DisplayModeCollection {
    type V = Seq<DisplayMode>;

    closed spec fn view(&self) -> Seq<DisplayMode> {
        self.values@
    }
}

impl DisplayModeCollection {
    /// A collection of `values`, in the order given.
    pub fn new(values: Vec<DisplayMode>) -> (r: Self)
        ensures
            r@ == values@,
    {
        DisplayModeCollection { values }
    }

    /// XNA `DisplayModeCollection[format]`: every mode of that format, in
    /// the collection's order.
    pub fn Item(&self, format: SurfaceFormat) -> (r: Vec<DisplayMode>)
        ensures
            r@ == modes_with_format(self@, format),
    {
        let mut result: Vec<DisplayMode> = Vec::new();
        let mut i: usize = 0;
        while i < self.values.len()
            invariant
                i <= self.values@.len(),
                result@ == modes_with_format(self.values@.take(i as int), format),
            decreases self.values@.len() - i,
        {
            let value = self.values[i];
            assert(self.values@.take(i as int + 1).drop_last() == self.values@.take(i as int));
            if value.Format() == format {
                result.push(value);
            }
            i = i + 1;
        }
        assert(self.values@.take(i as int) == self.values@);
        result
    }

    /// XNA `DisplayModeCollection.GetEnumerator`: every mode, in order.
    pub fn GetEnumerator(&self) -> (r: Vec<DisplayMode>)
        ensures
            r@ == self@,
    {
        self.values.clone()
    }
}

/// The modes that native records describe, in order; fails with
/// `UnknownDisplayModeFormat` when any record names no surface format.
pub fn display_modes_from_native(values: &Vec<NativeDisplayMode>) -> (r: Result<Vec<DisplayMode>, CnaError>)
    ensures
        r is Ok <==> forall|i: int| 0 <= i < values@.len() ==> SurfaceFormat::spec_from_native(#[trigger] values@[i].format) is Some,
        r is Err ==> r == Err::<Vec<DisplayMode>, CnaError>(CnaError::Native(NativeFault::UnknownDisplayModeFormat)),
        r matches Ok(modes) ==> modes@.len() == values@.len() && forall|i: int| 0 <= i < values@.len() ==> (#[trigger] modes@[i])@ == (crate::presentation::DisplayModeView {
            width: values@[i].width,
            height: values@[i].height,
            format: SurfaceFormat::spec_from_native(values@[i].format)->0,
        }),
{
    let mut result: Vec<DisplayMode> = Vec::new();
    let mut i: usize = 0;
    while i < values.len()
        invariant
            i <= values@.len(),
            result@.len() == i,
            forall|j: int| 0 <= j < i ==> SurfaceFormat::spec_from_native(#[trigger] values@[j].format) is Some,
            forall|j: int| 0 <= j < i ==> (#[trigger] result@[j])@ == (crate::presentation::DisplayModeView {
                width: values@[j].width,
                height: values@[j].height,
                format: SurfaceFormat::spec_from_native(values@[j].format)->0,
            }),
        decreases values@.len() - i,
    {
        match DisplayMode::from_native(values[i]) {
            Some(mode) => result.push(mode),
            None => return Err(CnaError::Native(NativeFault::UnknownDisplayModeFormat)),
        }
        i = i + 1;
    }
    Ok(result)
}

/// The current mode a native record describes; fails with
/// `UnknownCurrentDisplayModeFormat` when it names no surface format.
pub fn current_display_mode_from_native(value: NativeDisplayMode) -> (r: Result<DisplayMode, CnaError>)
    ensures
        r is Ok <==> SurfaceFormat::spec_from_native(value.format) is Some,
        r is Err ==> r == Err::<DisplayMode, CnaError>(CnaError::Native(NativeFault::UnknownCurrentDisplayModeFormat)),
        r matches Ok(m) ==> m@ == (crate::presentation::DisplayModeView {
            width: value.width,
            height: value.height,
            format: SurfaceFormat::spec_from_native(value.format)->0,
        }),
{
    match DisplayMode::from_native(value) {
        Some(mode) => Ok(mode),
        None => Err(CnaError::Native(NativeFault::UnknownCurrentDisplayModeFormat)),
    }
}

/// The number of adapters the runtime reported, as an index bound; a
/// negative count is refused.
pub fn adapter_count(count: i32) -> (r: Result<u32, CnaError>)
    ensures
        count >= 0 ==> r == Ok::<u32, CnaError>(count as u32),
        count < 0 ==> r == Err::<u32, CnaError>(CnaError::InvalidInput(InputError::AdapterCountTooLarge)),
{
    if count < 0 {
        Err(CnaError::InvalidInput(InputError::AdapterCountTooLarge))
    } else {
        Ok(count as u32)
    }
}

/// The index of the first adapter whose information says it is the
/// default; fails with `NoDefaultAdapter` when none does.
pub fn default_adapter_index(is_default: &Vec<bool>) -> (r: Result<usize, CnaError>)
    ensures
        r matches Ok(i) ==> i < is_default@.len() && is_default@[i as int] && forall|j: int| 0 <= j < i ==> !is_default@[j],
        r is Err ==> r == Err::<usize, CnaError>(CnaError::Native(NativeFault::NoDefaultAdapter))
            && forall|j: int| 0 <= j < is_default@.len() ==> !is_default@[j],
{
    let mut i: usize = 0;
    while i < is_default.len()
        invariant
            i <= is_default@.len(),
            forall|j: int| 0 <= j < i ==> !is_default@[j],
        decreases is_default@.len() - i,
    {
        if is_default[i] {
            return Ok(i);
        }
        i = i + 1;
    }
    Err(CnaError::Native(NativeFault::NoDefaultAdapter))
}

/// What the runtime answered to a back-buffer or render-target format query.
#[derive(Clone, Copy, Debug, PartialEq, Eq, Structural)]
pub struct NativeFormatSelection {
    pub format: u32,
    pub depth_format: u32,
    pub multi_sample_count: i32,
    pub exact_match: u8,
}

/// A format query's answer, read back.
#[derive(Clone, Copy, Debug, PartialEq, Eq, Structural)]
pub struct FormatSelection {
    pub format: SurfaceFormat,
    pub depth_format: DepthFormat,
    pub multi_sample_count: i32,
    pub exact_match: bool,
}

/// Reads back the runtime's answer to a format query: the selected formats
/// must name members, the unknown surface format being checked first.
pub fn decode_format_selection(value: NativeFormatSelection) -> (r: Result<FormatSelection, CnaError>)
    ensures
        SurfaceFormat::spec_from_native(value.format) is None ==> r == Err::<FormatSelection, CnaError>(
            CnaError::Native(NativeFault::UnknownSelectedSurfaceFormat),
        ),
        SurfaceFormat::spec_from_native(value.format) is Some && DepthFormat::spec_from_native(value.depth_format) is None
            ==> r == Err::<FormatSelection, CnaError>(CnaError::Native(NativeFault::UnknownSelectedDepthFormat)),
        SurfaceFormat::spec_from_native(value.format) is Some && DepthFormat::spec_from_native(value.depth_format) is Some
            ==> r == Ok::<FormatSelection, CnaError>(FormatSelection {
                format: SurfaceFormat::spec_from_native(value.format)->0,
                depth_format: DepthFormat::spec_from_native(value.depth_format)->0,
                multi_sample_count: value.multi_sample_count,
                exact_match: value.exact_match != 0,
            }),
{
    let format = match SurfaceFormat::from_native_value(value.format) {
        Some(format) => format,
        None => return Err(CnaError::Native(NativeFault::UnknownSelectedSurfaceFormat)),
    };
    let depth_format = match DepthFormat::from_native_value(value.depth_format) {
        Some(depth) => depth,
        None => return Err(CnaError::Native(NativeFault::UnknownSelectedDepthFormat)),
    };
    Ok(FormatSelection {
        format,
        depth_format,
        multi_sample_count: value.multi_sample_count,
        exact_match: value.exact_match != 0,
    })
}

/// The identity of a graphics adapter: a placeholder standing for an index
/// before any device exists, or an index enumerated through one device,
/// named by that device's address.
#[derive(Clone, Copy, Debug, PartialEq, Eq, Structural)]
pub struct AdapterIdentity {
    pub device: u64,
    pub index: u32,
    pub placeholder: bool,
}

/// Two adapters are the same when both are placeholders for one index, or
/// both were enumerated at one index through one device.
pub open spec fn spec_same_identity(a: AdapterIdentity, b: AdapterIdentity) -> bool {
    (a.placeholder && b.placeholder && a.index == b.index)
        || (!a.placeholder && !b.placeholder && a.index == b.index && a.device == b.device)
}

/// The hash XNA code sees for an adapter.
pub open spec fn spec_identity_hash(a: AdapterIdentity) -> i32 {
    if a.placeholder {
        a.index as i32
    } else {
        (a.device ^ (a.device >> 32u64) ^ (a.index as u64)) as i32
    }
}

/// The verdict on using an adapter's index with the device at `expected`.
pub open spec fn spec_index_for(a: AdapterIdentity, device_alive: bool, expected: u64) -> Result<u32, CnaError> {
    if a.placeholder || !device_alive {
        Err(CnaError::InvalidInput(InputError::GraphicsDeviceDisposed))
    } else if a.device != expected {
        Err(CnaError::InvalidInput(InputError::AdapterOfAnotherDevice))
    } else {
        Ok(a.index)
    }
}

impl AdapterIdentity {
    /// The placeholder for adapter `index`.
    pub fn proposal_placeholder(index: u32) -> (r: Self)
        ensures
            r == (AdapterIdentity { device: 0, index, placeholder: true }),
    {
        AdapterIdentity { device: 0, index, placeholder: true }
    }

    /// The placeholder for the first adapter.
    pub fn default_placeholder() -> (r: Self)
        ensures
            r == (AdapterIdentity { device: 0, index: 0, placeholder: true }),
    {
        Self::proposal_placeholder(0)
    }

    /// The adapter enumerated at `index` through the device at `device`.
    pub fn enumerated(device: u64, index: u32) -> (r: Self)
        ensures
            r == (AdapterIdentity { device, index, placeholder: false }),
    {
        AdapterIdentity { device, index, placeholder: false }
    }

    /// Whether two adapters are the same adapter.
    pub fn same_identity(&self, other: &Self) -> (r: bool)
        ensures
            r == spec_same_identity(*self, *other),
    {
        (self.placeholder && other.placeholder && self.index == other.index)
            || (!self.placeholder && !other.placeholder && self.index == other.index && self.device == other.device)
    }

    /// The hash XNA code sees for the adapter.
    pub fn identity_hash(&self) -> (r: i32)
        ensures
            r == spec_identity_hash(*self),
    {
        if self.placeholder {
            return self.index as i32;
        }
        (self.device ^ (self.device >> 32u64) ^ (self.index as u64)) as i32
    }

    /// The index the native device constructor takes for this adapter.
    pub fn independent_construction_index(&self) -> (r: Result<u32, CnaError>)
        ensures
            r == Ok::<u32, CnaError>(self.index),
    {
        Ok(self.index)
    }

    /// The index of an enumerated adapter, checked against the device it is
    /// used with: its own device must still be alive and be `expected`.
    pub fn index_for(&self, device_alive: bool, expected: u64) -> (r: Result<u32, CnaError>)
        ensures
            r == spec_index_for(*self, device_alive, expected),
    {
        if self.placeholder || !device_alive {
            return Err(CnaError::InvalidInput(InputError::GraphicsDeviceDisposed));
        }
        if self.device != expected {
            return Err(CnaError::InvalidInput(InputError::AdapterOfAnotherDevice));
        }
        Ok(self.index)
    }

    /// The signed adapter index a device proposal carries: a placeholder's
    /// own index, or an enumerated adapter's index checked as `index_for`
    /// checks it; either must fit an `i32`.
    pub fn proposal_index_for(&self, device_alive: bool, expected: u64) -> (r: Result<i32, CnaError>)
        ensures
            self.placeholder && self.index <= i32::MAX ==> r == Ok::<i32, CnaError>(self.index as i32),
            self.placeholder && self.index > i32::MAX ==> r == Err::<i32, CnaError>(
                CnaError::InvalidInput(InputError::AdapterIndexExceedsI32),
            ),
            !self.placeholder ==> match spec_index_for(*self, device_alive, expected) {
                Err(e) => r == Err::<i32, CnaError>(e),
                Ok(index) => if index <= i32::MAX {
                    r == Ok::<i32, CnaError>(index as i32)
                } else {
                    r == Err::<i32, CnaError>(CnaError::InvalidInput(InputError::AdapterIndexExceedsI32))
                },
            },
    {
        if self.placeholder {
            if self.index > 0x7fff_ffff {
                return Err(CnaError::InvalidInput(InputError::AdapterIndexExceedsI32));
            }
            return Ok(self.index as i32);
        }
        let index = self.index_for(device_alive, expected)?;
        if index > 0x7fff_ffff {
            Err(CnaError::InvalidInput(InputError::AdapterIndexExceedsI32))
        } else {
            Ok(index as i32)
        }
    }
}

/// Adapter identity is an equivalence: reflexive, symmetric and transitive.
pub proof fn law_same_identity_is_equivalence(a: AdapterIdentity, b: AdapterIdentity, c: AdapterIdentity)
    ensures
        spec_same_identity(a, a),
        spec_same_identity(a, b) ==> spec_same_identity(b, a),
        spec_same_identity(a, b) && spec_same_identity(b, c) ==> spec_same_identity(a, c),
{
}

/// Adapters that are the same have the same hash.
pub proof fn law_same_identity_same_hash(a: AdapterIdentity, b: AdapterIdentity)
    requires
        spec_same_identity(a, b),
    ensures
        spec_identity_hash(a) == spec_identity_hash(b),
{
}

} // verus!
