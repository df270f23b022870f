//! XNA's `Begin*`/`End*` pattern for gamer services: a result that is
//! complete when handed out, carries the caller's state unchanged, holds the
//! value its operation produced, and answers exactly one `End`, and only the
//! `End` of the operation that produced it.

#![allow(non_snake_case)]

use vstd::prelude::*;

use crate::error::{CallbackFault, CnaError, InputError};

verus! {

/// What an asynchronous result holds.
pub struct GamerAsyncResultView<S, V> {
    pub state: S,
    pub value: Option<(u32, V)>,
    pub completed: bool,
    pub ended: bool,
    pub origin: u64,
}

/// XNA's `IAsyncResult` for one gamer-services operation. The value is kept
/// with the number of the operation that produced it.
pub struct GamerAsyncResult<S, V> {
    state: S,
    value: Option<(u32, V)>,
    completed: bool,
    ended: bool,
    origin: u64,
}

impl<S, V> View for GamerAsyncResult<S, V> {
    type V = GamerAsyncResultView<S, V>;

    closed spec fn view(&self) -> GamerAsyncResultView<S, V> {
        GamerAsyncResultView {
            state: self.state,
            value: self.value,
            completed: self.completed,
            ended: self.ended,
            origin: self.origin,
        }
    }
}

impl<S, V> GamerAsyncResult<S, V> {
    /// Every result is complete: it is made only once its operation has
    /// finished, and nothing makes it incomplete again.
    #[verifier::type_invariant]
    spec fn always_completed(self) -> bool {
        self.completed
    }
}

/// The verdict of an `End` naming operation `operation`.
pub open spec fn spec_end_once<S, V>(result: GamerAsyncResultView<S, V>, operation: u32) -> Result<V, CnaError> {
    if result.ended {
        Err(CnaError::InvalidInput(InputError::EndCalledTwice))
    } else {
        match result.value {
            None => Err(CnaError::InvalidInput(InputError::AsyncResultHasNoValue)),
            Some((produced_by, value)) => if produced_by == operation {
                Ok(value)
            } else {
                Err(CnaError::InvalidInput(InputError::AsyncResultOfOtherOperation))
            },
        }
    }
}

/// The result after an `End`: ended, and its value taken unless an earlier
/// `End` already took it.
pub open spec fn after_end<S, V>(result: GamerAsyncResultView<S, V>) -> GamerAsyncResultView<S, V> {
    if result.ended {
        result
    } else {
        GamerAsyncResultView { ended: true, value: None, ..result }
    }
}

impl<S: Clone, V> GamerAsyncResult<S, V> {
    /// A result complete from the start, with the caller's state and the
    /// origin number the caller drew for it.
    pub fn completed(state: S, origin: u64) -> (r: Self)
        ensures
            r@ == (GamerAsyncResultView { state, value: None::<(u32, V)>, completed: true, ended: false, origin }),
    {
        GamerAsyncResult { state, value: None, completed: true, ended: false, origin }
    }

    /// CLR `IAsyncResult.AsyncState`: the caller's state, cloned.
    pub fn AsyncState(&self) -> (r: S)
        ensures
            cloned(self@.state, r),
    {
        self.state.clone()
    }

    /// CLR `IAsyncResult.CompletedSynchronously`: always true, as every
    /// operation completes before its `Begin` returns.
    pub fn CompletedSynchronously(&self) -> (r: bool)
        ensures
            r,
    {
        true
    }

    /// CLR `IAsyncResult.IsCompleted`: always true, before and after the
    /// `End`, as every result is complete when handed out.
    pub fn IsCompleted(&self) -> (r: bool)
        ensures
            r,
            r == self@.completed,
    {
        proof {
            use_type_invariant(self);
        }
        self.completed
    }

    /// The number that tells this result apart from every other.
    pub fn origin(&self) -> (r: u64)
        ensures
            r == self@.origin,
    {
        self.origin
    }

    /// Keeps the value operation `operation` produced, for its `End`.
    pub fn store(&mut self, operation: u32, value: V)
        ensures
            final(self)@ == (GamerAsyncResultView { value: Some((operation, value)), ..old(self)@ }),
            final(self)@.completed,
    {
        proof {
            use_type_invariant(&*self);
        }
        self.value = Some((operation, value));
    }

    /// Consumes the one permitted `End` and answers what `Begin` produced:
    /// a second `End` fails, as does an `End` of another operation.
    pub fn end_once(&mut self, operation: u32) -> (r: Result<V, CnaError>)
        ensures
            r == spec_end_once(old(self)@, operation),
            final(self)@ == after_end(old(self)@),
            final(self)@.completed,
    {
        proof {
            use_type_invariant(&*self);
        }
        if self.ended {
            return Err(CnaError::InvalidInput(InputError::EndCalledTwice));
        }
        self.ended = true;
        let mut taken: Option<(u32, V)> = None;
        std::mem::swap(&mut self.value, &mut taken);
        match taken {
            None => Err(CnaError::InvalidInput(InputError::AsyncResultHasNoValue)),
            Some((produced_by, value)) => if produced_by == operation {
                Ok(value)
            } else {
                Err(CnaError::InvalidInput(InputError::AsyncResultOfOtherOperation))
            },
        }
    }
}

/// The first half of a `Begin` with a completion callback, after the
/// runtime answered `native` for operation `operation`: a refusal is
/// answered as it stands and no callback is due; otherwise the result is
/// complete with the caller's state and already holds the value, so the
/// callback the caller then runs sees it.
pub fn begin_completed<S: Clone, V>(state: S, origin: u64, operation: u32, native: Result<V, CnaError>) -> (r: Result<
    GamerAsyncResult<S, V>,
    CnaError,
>)
    ensures
        native matches Err(e) ==> r == Err::<GamerAsyncResult<S, V>, CnaError>(e),
        native matches Ok(value) ==> (r matches Ok(result) && result@ == (GamerAsyncResultView {
            state,
            value: Some((operation, value)),
            completed: true,
            ended: false,
            origin,
        })),
{
    match native {
        Err(error) => Err(error),
        Ok(value) => {
            let mut result = GamerAsyncResult::completed(state, origin);
            result.store(operation, value);
            Ok(result)
        },
    }
}

/// The second half of a `Begin` with a completion callback, once the
/// callback, if any, has run on `result`: a panicking callback is reported
/// as a callback fault; otherwise the result is answered with the number
/// of times the runtime's trampoline fired.
pub fn finish_begin<S, V>(result: GamerAsyncResult<S, V>, callback_panicked: bool, fired: usize) -> (r: Result<
    (GamerAsyncResult<S, V>, usize),
    CnaError,
>)
    ensures
        callback_panicked ==> r == Err::<(GamerAsyncResult<S, V>, usize), CnaError>(
            CnaError::Callback(CallbackFault::CompletionCallbackPanicked),
        ),
        !callback_panicked ==> (r matches Ok(pair) && pair.0@ == result@ && pair.1 == fired),
{
    if callback_panicked {
        Err(CnaError::Callback(CallbackFault::CompletionCallbackPanicked))
    } else {
        Ok((result, fired))
    }
}

/// After any `End`, every later `End` fails as a second call.
pub proof fn law_end_is_one_shot<S, V>(result: GamerAsyncResultView<S, V>, first: u32, second: u32)
    ensures
        spec_end_once(after_end(result), second) == Err::<V, CnaError>(CnaError::InvalidInput(InputError::EndCalledTwice)),
{
}

/// The first `End` of the operation that stored a value answers that value.
pub proof fn law_end_answers_stored_value<S, V>(result: GamerAsyncResultView<S, V>, operation: u32, value: V)
    requires
        !result.ended,
    ensures
        spec_end_once(GamerAsyncResultView { value: Some((operation, value)), ..result }, operation) == Ok::<V, CnaError>(value),
{
}

/// An `End` of another operation fails and still uses up the one `End`.
pub proof fn law_end_of_other_operation_fails<S, V>(result: GamerAsyncResultView<S, V>, produced_by: u32, operation: u32, value: V)
    requires
        !result.ended,
        produced_by != operation,
    ensures
        spec_end_once(GamerAsyncResultView { value: Some((produced_by, value)), ..result }, operation) == Err::<V, CnaError>(
            CnaError::InvalidInput(InputError::AsyncResultOfOtherOperation),
        ),
        after_end(GamerAsyncResultView { value: Some((produced_by, value)), ..result }).ended,
{
}

} // verus!
