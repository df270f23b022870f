//! What every gamer-services object shares: an owned native handle that is
//! released exactly once and kept when the runtime refuses the release, the
//! size-then-copy protocol the runtime's text answers come through, and the
//! conversion between CLR ticks and Unix time.

use vstd::prelude::*;
use vstd::utf8::{decode_utf8, valid_utf8};

use crate::error::{CnaError, InputError};

verus! {

/// One native gamer-services handle, zero once released.
pub struct OwnedHandle {
    handle: u64,
}

impl View for OwnedHandle {
    type V = u64;

    closed spec fn view(&self) -> u64 {
        self.handle
    }
}

/// The handle an owner that holds nothing carries; it is never released.
pub const BORROWED_VIEW: u64 = 0xffff_ffff_ffff_ffff;

impl OwnedHandle {
    /// An owner of `handle`.
    pub fn new(handle: u64) -> (r: Self)
        ensures
            r@ == handle,
    {
        OwnedHandle { handle }
    }

    /// An owner that holds no handle, for a facade that only borrows.
    pub fn borrowed_view() -> (r: Self)
        ensures
            r@ == BORROWED_VIEW,
    {
        OwnedHandle { handle: BORROWED_VIEW }
    }

    /// The live handle, or the disposed error once released.
    pub fn get(&self) -> (r: Result<u64, CnaError>)
        ensures
            self@ != 0 ==> r == Ok::<u64, CnaError>(self@),
            self@ == 0 ==> r == Err::<u64, CnaError>(CnaError::InvalidInput(InputError::GamerObjectDisposed)),
    {
        if self.handle != 0 {
            Ok(self.handle)
        } else {
            Err(CnaError::InvalidInput(InputError::GamerObjectDisposed))
        }
    }

    /// Whether the handle was released.
    pub fn is_released(&self) -> (r: bool)
        ensures
            r == (self@ == 0),
    {
        self.handle == 0
    }

    /// The first half of a release: takes the handle out, so nothing can
    /// release it twice, and answers it for the runtime to release; `None`
    /// when it was already released.
    pub fn begin_release(&mut self) -> (r: Option<u64>)
        ensures
            old(self)@ == 0 ==> r is None && final(self)@ == 0,
            old(self)@ != 0 ==> r == Some(old(self)@) && final(self)@ == 0,
    {
        if self.handle == 0 {
            return None;
        }
        let handle = self.handle;
        self.handle = 0;
        Some(handle)
    }

    /// The second half of a release: a refused release puts the handle
    /// back, so it is still owed, and reports the refusal.
    pub fn finish_release(&mut self, handle: u64, result: Result<(), CnaError>) -> (r: Result<(), CnaError>)
        requires
            old(self)@ == 0,
        ensures
            r == result,
            result is Ok ==> final(self)@ == 0,
            result is Err ==> final(self)@ == handle,
    {
        if result.is_err() {
            self.handle = handle;
        }
        result
    }
}

/// The buffer a text answer of `bytes` bytes needs.
pub fn text_capacity(bytes: u64) -> (r: Result<usize, CnaError>)
    ensures
        bytes <= usize::MAX ==> r == Ok::<usize, CnaError>(bytes as usize),
        bytes > usize::MAX ==> r == Err::<usize, CnaError>(CnaError::InvalidInput(InputError::TextTooLarge)),
{
    if bytes > usize::MAX as u64 {
        return Err(CnaError::InvalidInput(InputError::TextTooLarge));
    }
    Ok(bytes as usize)
}

/// The bytes of a UTF-8 buffer as text, or `None` when they are not valid
/// UTF-8.
///
/// Wraps std's `String::from_utf8`, which std documents as succeeding
/// exactly on valid UTF-8 and keeping the bytes as the string's contents;
/// the contract states that with vstd's UTF-8 definitions.
#[verifier::external_body]
pub(crate) fn string_from_utf8(bytes: Vec<u8>) -> (r: Option<String>)
    ensures
        r is Some <==> valid_utf8(bytes@),
        r matches Some(s) ==> s@ == decode_utf8(bytes@),
{
    String::from_utf8(bytes).ok()
}

/// The text a copy produced: the buffer cut to the bytes the runtime says
/// it wrote (never past the buffer), which must be valid UTF-8.
pub fn finish_text(buffer: Vec<u8>, written: u64) -> (r: Result<String, CnaError>)
    ensures
        written > usize::MAX ==> r == Err::<String, CnaError>(CnaError::InvalidInput(InputError::TextTooLarge)),
        written <= usize::MAX ==> ({
            let kept = buffer@.subrange(0, if written < buffer@.len() { written as int } else { buffer@.len() as int });
            &&& valid_utf8(kept) ==> r is Ok && r->Ok_0@ == decode_utf8(kept)
            &&& !valid_utf8(kept) ==> r == Err::<String, CnaError>(CnaError::InvalidInput(InputError::TextNotUtf8))
        }),
{
    if written > usize::MAX as u64 {
        return Err(CnaError::InvalidInput(InputError::TextTooLarge));
    }
    let written_length: usize = written as usize;
    let capacity = buffer.len();
    let keep: usize = if written_length < capacity {
        written_length
    } else {
        capacity
    };
    let mut bytes = buffer;
    bytes.truncate(keep);
    match string_from_utf8(bytes) {
        Some(text) => Ok(text),
        None => Err(CnaError::InvalidInput(InputError::TextNotUtf8)),
    }
}

/// The byte length a text view carries to the runtime.
pub fn string_view_length(value: &str) -> (r: Result<u64, CnaError>)
    ensures
        r == Ok::<u64, CnaError>(value.len() as u64),
{
    Ok(value.len() as u64)
}

/// CLR ticks (100 ns since 0001-01-01) at the Unix epoch.
pub const CLR_TICKS_AT_UNIX_EPOCH: i64 = 621_355_968_000_000_000;

/// CLR ticks per second.
pub const TICKS_PER_SECOND: i64 = 10_000_000;

/// A point in time as the Unix clock takes it: whether it lies before the
/// epoch, and its distance from the epoch as whole seconds and the
/// nanoseconds beyond them.
#[derive(Clone, Copy, Debug, PartialEq, Eq, Structural)]
pub struct UnixOffset {
    pub before_epoch: bool,
    pub seconds: u64,
    pub nanos: u32,
}

/// The signed distance from the epoch an offset names, in nanoseconds.
pub open spec fn spec_signed_nanos(offset: UnixOffset) -> int {
    let magnitude = offset.seconds * 1_000_000_000int + offset.nanos;
    if offset.before_epoch { -magnitude } else { magnitude }
}

/// The offset a tick count becomes: the distance of the ticks from the
/// epoch, split into whole seconds and the nanoseconds beyond them, on the
/// side of the epoch the ticks lie.
pub open spec fn spec_unix_offset_from_ticks(ticks: i64) -> UnixOffset {
    let unix_ticks = ticks - CLR_TICKS_AT_UNIX_EPOCH;
    let magnitude = if unix_ticks < 0 { -unix_ticks } else { unix_ticks };
    UnixOffset {
        before_epoch: unix_ticks < 0,
        seconds: (magnitude / (TICKS_PER_SECOND as int)) as u64,
        nanos: ((magnitude % (TICKS_PER_SECOND as int)) * 100) as u32,
    }
}

/// The Unix offset of a CLR tick count: the instant lies
/// `(ticks - CLR_TICKS_AT_UNIX_EPOCH) * 100` nanoseconds from the epoch.
pub fn system_time_from_ticks(ticks: i64) -> (r: UnixOffset)
    requires
        ticks >= i64::MIN + CLR_TICKS_AT_UNIX_EPOCH,
    ensures
        r == spec_unix_offset_from_ticks(ticks),
        spec_signed_nanos(r) == (ticks - CLR_TICKS_AT_UNIX_EPOCH) * 100,
        r.nanos < 1_000_000_000,
{
    let unix_ticks: i64 = ticks - CLR_TICKS_AT_UNIX_EPOCH;
    let magnitude: u64 = if unix_ticks < 0 {
        (0i128 - unix_ticks as i128) as u64
    } else {
        unix_ticks as u64
    };
    let seconds: u64 = magnitude / 10_000_000;
    let fraction: u64 = magnitude % 10_000_000;
    assert(magnitude == seconds * 10_000_000 + fraction && fraction < 10_000_000) by (nonlinear_arith)
        requires
            seconds == magnitude / 10_000_000,
            fraction == magnitude % 10_000_000,
    ;
    assert(seconds * 1_000_000_000int + fraction * 100 == magnitude * 100) by (nonlinear_arith)
        requires
            magnitude == seconds * 10_000_000 + fraction,
    ;
    let nanos: u32 = (fraction * 100) as u32;
    UnixOffset { before_epoch: unix_ticks < 0, seconds, nanos }
}

/// The tick count of a time at or after the epoch, given as whole seconds
/// since the epoch and the sub-second nanoseconds.
pub open spec fn spec_ticks_from_unix(seconds: u64, subsec_nanos: u32) -> int {
    CLR_TICKS_AT_UNIX_EPOCH + seconds * TICKS_PER_SECOND + subsec_nanos / 100
}

/// The CLR tick count of a time at or after the epoch, given as whole
/// seconds since the epoch and the sub-second nanoseconds; a time whose
/// tick count does not fit an `i64` is outside the CLR tick range.
pub fn ticks_from_system_time(seconds: u64, subsec_nanos: u32) -> (r: Result<i64, CnaError>)
    ensures
        spec_ticks_from_unix(seconds, subsec_nanos) > i64::MAX ==> r == Err::<i64, CnaError>(
            CnaError::InvalidInput(InputError::TimestampOutsideTickRange),
        ),
        spec_ticks_from_unix(seconds, subsec_nanos) <= i64::MAX ==> r == Ok::<i64, CnaError>(
            spec_ticks_from_unix(seconds, subsec_nanos) as i64,
        ),
{
    assert(seconds * 10_000_000int <= 0xffff_ffff_ffff_ffff * 10_000_000int) by (nonlinear_arith);
    let ticks: i128 = CLR_TICKS_AT_UNIX_EPOCH as i128 + seconds as i128 * 10_000_000i128 + (subsec_nanos / 100) as i128;
    if ticks > 0x7fff_ffff_ffff_ffff {
        return Err(CnaError::InvalidInput(InputError::TimestampOutsideTickRange));
    }
    Ok(ticks as i64)
}

} // verus!
