//! The process-wide gamer-services event registries: which handlers each
//! event has, when the native subscription must be taken and released, and
//! the subscription refusal kept for the dispatcher to report.
//!
//! Each operation is split around its native call. The caller asks whether
//! a subscription is needed, performs the subscribe, and hands its outcome
//! to the operation; a removal hands back the native subscription to
//! release once the last handler is gone.

use vstd::prelude::*;

use crate::error::CnaError;
use crate::resource::{registration_after, remove_registration, without_registration};

verus! {

/// One gamer-services event: its handlers under their registrations, and
/// the native subscription while one is held.
pub struct GamerEvent<H> {
    handlers: Vec<(u64, H)>,
    subscription: Option<u64>,
}

/// What an event holds.
pub struct GamerEventView<H> {
    pub handlers: Seq<(u64, H)>,
    pub subscription: Option<u64>,
}

impl<H> View for GamerEvent<H> {
    type V = GamerEventView<H>;

    closed spec fn view(&self) -> GamerEventView<H> {
        GamerEventView { handlers: self.handlers@, subscription: self.subscription }
    }
}

/// A subscription is held only while some handler wants it.
pub open spec fn subscription_wanted<H>(event: GamerEventView<H>) -> bool {
    event.subscription is Some ==> event.handlers.len() > 0
}

/// A subscription is held exactly while some handler is registered.
pub open spec fn subscription_matches_handlers<H>(event: GamerEventView<H>) -> bool {
    event.subscription is Some <==> event.handlers.len() > 0
}

/// The event after removing `registration`: the survivors, and no
/// subscription once none survives.
pub open spec fn event_after_remove<H>(event: GamerEventView<H>, registration: u64) -> GamerEventView<H> {
    let handlers = without_registration(event.handlers, registration);
    GamerEventView {
        handlers,
        subscription: if handlers.len() == 0 { None } else { event.subscription },
    }
}

impl<H> GamerEvent<H> {
    /// An event with no handler and no subscription.
    pub fn new() -> (r: Self)
        ensures
            r@.handlers == Seq::<(u64, H)>::empty(),
            r@.subscription is None,
    {
        GamerEvent { handlers: Vec::new(), subscription: None }
    }

    /// Whether adding a handler must first subscribe natively.
    pub fn needs_subscription(&self) -> (r: bool)
        ensures
            r == self@.subscription is None,
    {
        self.subscription.is_none()
    }

    /// Whether no handler is registered.
    pub fn is_empty(&self) -> (r: bool)
        ensures
            r == (self@.handlers.len() == 0),
    {
        self.handlers.len() == 0
    }

    fn record_subscription(&mut self, handle: u64)
        ensures
            final(self)@ == (GamerEventView { subscription: Some(handle), ..old(self)@ }),
    {
        self.subscription = Some(handle);
    }

    fn push(&mut self, registration: u64, handler: H)
        ensures
            final(self)@ == (GamerEventView { handlers: old(self)@.handlers.push((registration, handler)), ..old(self)@ }),
    {
        self.handlers.push((registration, handler));
    }

    /// Removes every handler under `registration`. Answers whether one was
    /// removed, and the native subscription to release if none is left.
    pub fn remove(&mut self, registration: u64) -> (r: (bool, Option<u64>))
        ensures
            final(self)@ == event_after_remove(old(self)@, registration),
            r.0 == (final(self)@.handlers.len() != old(self)@.handlers.len()),
            r.1 == (if final(self)@.handlers.len() == 0 { old(self)@.subscription } else { None }),
            subscription_wanted(old(self)@) ==> subscription_wanted(final(self)@),
            subscription_matches_handlers(old(self)@) ==> subscription_matches_handlers(final(self)@),
    {
        let removed = remove_registration(&mut self.handlers, registration);
        let release = if self.handlers.len() == 0 {
            self.subscription.take()
        } else {
            None
        };
        (removed, release)
    }

    /// The handlers an event delivery reaches, cloned, in the order they
    /// were added. The caller invokes them after releasing the registry.
    pub fn handlers_snapshot(&self) -> (r: Vec<H>)
        where
            H: Clone,
        ensures
            r@.len() == self@.handlers.len(),
            forall|k: int| 0 <= k < r@.len() ==> cloned::<H>(self@.handlers[k].1, #[trigger] r@[k]),
    {
        let mut out: Vec<H> = Vec::new();
        let mut i: usize = 0;
        while i < self.handlers.len()
            invariant
                i <= self.handlers@.len(),
                out@.len() == i,
                forall|k: int| 0 <= k < i ==> cloned::<H>(self.handlers@[k].1, #[trigger] out@[k]),
            decreases self.handlers@.len() - i,
        {
            out.push(self.handlers[i].1.clone());
            i = i + 1;
        }
        out
    }
}

/// The process-wide registry: one registration counter shared by every
/// event, the sign-in and sign-out events, the title-update and
/// avatar-changed events, and the first subscription refusal not yet
/// reported.
pub struct GamerEventRegistry<I, O, P> {
    next: u64,
    signed_in: GamerEvent<I>,
    signed_out: GamerEvent<O>,
    title_update: GamerEvent<P>,
    avatar_changed: GamerEvent<P>,
    pending: Option<CnaError>,
}

/// What the registry holds.
pub struct GamerEventRegistryView<I, O, P> {
    pub next: u64,
    pub signed_in: GamerEventView<I>,
    pub signed_out: GamerEventView<O>,
    pub title_update: GamerEventView<P>,
    pub avatar_changed: GamerEventView<P>,
    pub pending: Option<CnaError>,
}

impl<I, O, P> View for GamerEventRegistry<I, O, P> {
    type V = GamerEventRegistryView<I, O, P>;

    closed spec fn view(&self) -> GamerEventRegistryView<I, O, P> {
        GamerEventRegistryView {
            next: self.next,
            signed_in: self.signed_in@,
            signed_out: self.signed_out@,
            title_update: self.title_update@,
            avatar_changed: self.avatar_changed@,
            pending: self.pending,
        }
    }
}

/// The refusal kept after an outcome: the first one stays.
pub open spec fn remembered(pending: Option<CnaError>, outcome: Result<(), CnaError>) -> Option<CnaError> {
    match outcome {
        Err(e) => if pending is None { Some(e) } else { pending },
        Ok(_) => pending,
    }
}

/// The event after an add whose subscribe step had `subscribe` as outcome:
/// a new subscription is kept, and the handler is added under
/// `registration`.
pub open spec fn event_after_add<H>(
    event: GamerEventView<H>,
    subscribe: Option<Result<u64, CnaError>>,
    registration: u64,
    handler: H,
) -> GamerEventView<H> {
    GamerEventView {
        handlers: event.handlers.push((registration, handler)),
        subscription: match subscribe {
            Some(Ok(handle)) => Some(handle),
            _ => event.subscription,
        },
    }
}

/// The outcome of a subscribe step, as a refusal or nothing.
pub open spec fn subscribe_outcome(subscribe: Option<Result<u64, CnaError>>) -> Result<(), CnaError> {
    match subscribe {
        Some(Err(e)) => Err(e),
        _ => Ok(()),
    }
}

impl<I, O, P> GamerEventRegistry<I, O, P> {
    /// An empty registry that has handed out no registration.
    pub fn new() -> (r: Self)
        ensures
            r@.next == 0,
            r@.pending is None,
            r@.signed_in.handlers.len() == 0 && r@.signed_in.subscription is None,
            r@.signed_out.handlers.len() == 0 && r@.signed_out.subscription is None,
            r@.title_update.handlers.len() == 0 && r@.title_update.subscription is None,
            r@.avatar_changed.handlers.len() == 0 && r@.avatar_changed.subscription is None,
    {
        GamerEventRegistry {
            next: 0,
            signed_in: GamerEvent::new(),
            signed_out: GamerEvent::new(),
            title_update: GamerEvent::new(),
            avatar_changed: GamerEvent::new(),
            pending: None,
        }
    }

    /// The sign-in event.
    pub fn signed_in(&self) -> (r: &GamerEvent<I>)
        ensures
            r@ == self@.signed_in,
    {
        &self.signed_in
    }

    /// The sign-out event.
    pub fn signed_out(&self) -> (r: &GamerEvent<O>)
        ensures
            r@ == self@.signed_out,
    {
        &self.signed_out
    }

    /// The title-update event.
    pub fn title_update(&self) -> (r: &GamerEvent<P>)
        ensures
            r@ == self@.title_update,
    {
        &self.title_update
    }

    /// The avatar-changed event.
    pub fn avatar_changed(&self) -> (r: &GamerEvent<P>)
        ensures
            r@ == self@.avatar_changed,
    {
        &self.avatar_changed
    }

    /// Hands out the next registration, shared by every event.
    pub fn next_registration(&mut self) -> (r: u64)
        ensures
            r == registration_after(old(self)@.next),
            r >= 1,
            final(self)@ == (GamerEventRegistryView { next: r, ..old(self)@ }),
    {
        let registration: u64 = if self.next == u64::MAX {
            1
        } else {
            self.next + 1
        };
        self.next = registration;
        registration
    }

    /// Keeps a subscription refusal unless an earlier one is still kept.
    pub fn remember(&mut self, result: Result<(), CnaError>)
        ensures
            final(self)@ == (GamerEventRegistryView { pending: remembered(old(self)@.pending, result), ..old(self)@ }),
    {
        match result {
            Err(error) => {
                if self.pending.is_none() {
                    self.pending = Some(error);
                }
            },
            Ok(()) => {},
        }
    }

    /// Reports and clears any kept subscription refusal.
    pub fn take_subscription_error(&mut self) -> (r: Result<(), CnaError>)
        ensures
            r == match old(self)@.pending {
                Some(e) => Err::<(), CnaError>(e),
                None => Ok(()),
            },
            final(self)@ == (GamerEventRegistryView { pending: None, ..old(self)@ }),
    {
        match self.pending.take() {
            Some(error) => Err(error),
            None => Ok(()),
        }
    }

    /// Adds a sign-in handler. `subscribe` is the outcome of the native
    /// subscribe, made exactly when the event needed one. A refusal is
    /// kept for the dispatcher; the handler is registered either way.
    pub fn add_signed_in(&mut self, subscribe: Option<Result<u64, CnaError>>, handler: I) -> (r: u64)
        requires
            (subscribe is Some) == (old(self)@.signed_in.subscription is None),
        ensures
            r == registration_after(old(self)@.next),
            final(self)@ == (GamerEventRegistryView {
                next: r,
                signed_in: event_after_add(old(self)@.signed_in, subscribe, r, handler),
                pending: remembered(old(self)@.pending, subscribe_outcome(subscribe)),
                ..old(self)@
            }),
            subscription_wanted(old(self)@.signed_in) ==> subscription_wanted(final(self)@.signed_in),
    {
        match subscribe {
            Some(Ok(handle)) => self.signed_in.record_subscription(handle),
            Some(Err(error)) => self.remember(Err(error)),
            None => {},
        }
        let registration = self.next_registration();
        self.signed_in.push(registration, handler);
        registration
    }

    /// Adds a sign-out handler, as `add_signed_in` adds a sign-in one.
    pub fn add_signed_out(&mut self, subscribe: Option<Result<u64, CnaError>>, handler: O) -> (r: u64)
        requires
            (subscribe is Some) == (old(self)@.signed_out.subscription is None),
        ensures
            r == registration_after(old(self)@.next),
            final(self)@ == (GamerEventRegistryView {
                next: r,
                signed_out: event_after_add(old(self)@.signed_out, subscribe, r, handler),
                pending: remembered(old(self)@.pending, subscribe_outcome(subscribe)),
                ..old(self)@
            }),
            subscription_wanted(old(self)@.signed_out) ==> subscription_wanted(final(self)@.signed_out),
    {
        match subscribe {
            Some(Ok(handle)) => self.signed_out.record_subscription(handle),
            Some(Err(error)) => self.remember(Err(error)),
            None => {},
        }
        let registration = self.next_registration();
        self.signed_out.push(registration, handler);
        registration
    }

    /// Removes a sign-in handler. Answers whether one was removed, and the
    /// native subscription to release once none is left; a failure of that
    /// release is not reported.
    pub fn remove_signed_in(&mut self, registration: u64) -> (r: (bool, Option<u64>))
        ensures
            final(self)@ == (GamerEventRegistryView {
                signed_in: event_after_remove(old(self)@.signed_in, registration),
                ..old(self)@
            }),
            r.0 == (final(self)@.signed_in.handlers.len() != old(self)@.signed_in.handlers.len()),
            r.1 == (if final(self)@.signed_in.handlers.len() == 0 { old(self)@.signed_in.subscription } else { None }),
    {
        self.signed_in.remove(registration)
    }

    /// Removes a sign-out handler, as `remove_signed_in` removes a sign-in one.
    pub fn remove_signed_out(&mut self, registration: u64) -> (r: (bool, Option<u64>))
        ensures
            final(self)@ == (GamerEventRegistryView {
                signed_out: event_after_remove(old(self)@.signed_out, registration),
                ..old(self)@
            }),
            r.0 == (final(self)@.signed_out.handlers.len() != old(self)@.signed_out.handlers.len()),
            r.1 == (if final(self)@.signed_out.handlers.len() == 0 { old(self)@.signed_out.subscription } else { None }),
    {
        self.signed_out.remove(registration)
    }

    /// XNA `GamerServicesDispatcher.InstallingTitleUpdate` subscription:
    /// adds a title-update handler. `subscribe` is the outcome of the native
    /// subscribe, made exactly when the event needed one; a refusal is
    /// answered as the runtime's exact error and nothing is registered.
    pub fn add_installing_title_update(&mut self, subscribe: Option<Result<u64, CnaError>>, handler: P) -> (r: Result<u64, CnaError>)
        requires
            (subscribe is Some) == (old(self)@.title_update.subscription is None),
        ensures
            subscribe matches Some(Err(e)) ==> r == Err::<u64, CnaError>(e) && final(self)@ == old(self)@,
            !(subscribe matches Some(Err(_))) ==> r == Ok::<u64, CnaError>(registration_after(old(self)@.next))
                && final(self)@ == (GamerEventRegistryView {
                    next: registration_after(old(self)@.next),
                    title_update: event_after_add(old(self)@.title_update, subscribe, registration_after(old(self)@.next), handler),
                    ..old(self)@
                }),
            subscription_matches_handlers(old(self)@.title_update) ==> subscription_matches_handlers(final(self)@.title_update),
    {
        match subscribe {
            Some(Ok(handle)) => self.title_update.record_subscription(handle),
            Some(Err(error)) => return Err(error),
            None => {},
        }
        let registration = self.next_registration();
        self.title_update.push(registration, handler);
        Ok(registration)
    }

    /// Adds an avatar-changed handler, as `add_installing_title_update`
    /// adds a title-update one.
    pub fn add_avatar_description_changed(&mut self, subscribe: Option<Result<u64, CnaError>>, handler: P) -> (r: Result<u64, CnaError>)
        requires
            (subscribe is Some) == (old(self)@.avatar_changed.subscription is None),
        ensures
            subscribe matches Some(Err(e)) ==> r == Err::<u64, CnaError>(e) && final(self)@ == old(self)@,
            !(subscribe matches Some(Err(_))) ==> r == Ok::<u64, CnaError>(registration_after(old(self)@.next))
                && final(self)@ == (GamerEventRegistryView {
                    next: registration_after(old(self)@.next),
                    avatar_changed: event_after_add(
                        old(self)@.avatar_changed,
                        subscribe,
                        registration_after(old(self)@.next),
                        handler,
                    ),
                    ..old(self)@
                }),
            subscription_matches_handlers(old(self)@.avatar_changed) ==> subscription_matches_handlers(final(self)@.avatar_changed),
    {
        match subscribe {
            Some(Ok(handle)) => self.avatar_changed.record_subscription(handle),
            Some(Err(error)) => return Err(error),
            None => {},
        }
        let registration = self.next_registration();
        self.avatar_changed.push(registration, handler);
        Ok(registration)
    }

    /// Removes a title-update handler. Answers whether one was removed,
    /// and the native subscription to release once none is left.
    pub fn remove_installing_title_update(&mut self, registration: u64) -> (r: (bool, Option<u64>))
        ensures
            final(self)@ == (GamerEventRegistryView {
                title_update: event_after_remove(old(self)@.title_update, registration),
                ..old(self)@
            }),
            r.0 == (final(self)@.title_update.handlers.len() != old(self)@.title_update.handlers.len()),
            r.1 == (if final(self)@.title_update.handlers.len() == 0 { old(self)@.title_update.subscription } else { None }),
            subscription_matches_handlers(old(self)@.title_update) ==> subscription_matches_handlers(final(self)@.title_update),
    {
        self.title_update.remove(registration)
    }

    /// Removes an avatar-changed handler, as
    /// `remove_installing_title_update` removes a title-update one.
    pub fn remove_avatar_description_changed(&mut self, registration: u64) -> (r: (bool, Option<u64>))
        ensures
            final(self)@ == (GamerEventRegistryView {
                avatar_changed: event_after_remove(old(self)@.avatar_changed, registration),
                ..old(self)@
            }),
            r.0 == (final(self)@.avatar_changed.handlers.len() != old(self)@.avatar_changed.handlers.len()),
            r.1 == (if final(self)@.avatar_changed.handlers.len() == 0 { old(self)@.avatar_changed.subscription } else { None }),
            subscription_matches_handlers(old(self)@.avatar_changed) ==> subscription_matches_handlers(final(self)@.avatar_changed),
    {
        self.avatar_changed.remove(registration)
    }
}

/// What a title-update or avatar-changed removal answers once the native
/// release, if one was due, has run: a refused release is reported.
pub fn removal_outcome(removed: bool, release: Option<Result<(), CnaError>>) -> (r: Result<bool, CnaError>)
    ensures
        release matches Some(Err(e)) ==> r == Err::<bool, CnaError>(e),
        !(release matches Some(Err(_))) ==> r == Ok::<bool, CnaError>(removed),
{
    match release {
        Some(Err(error)) => Err(error),
        _ => Ok(removed),
    }
}

/// Only the first refusal is kept until reported: a later one never
/// replaces it.
pub proof fn law_first_refusal_is_kept(pending: Option<CnaError>, first: CnaError, later: Result<(), CnaError>)
    ensures
        remembered(remembered(pending, Err(first)), later) == remembered(pending, Err(first)),
{
}

/// Starting with no handler, a title-update add that subscribes and a
/// removal of what it answered leave no handler and hand back the
/// subscription for release.
pub proof fn law_last_removal_releases_subscription<H>(event: GamerEventView<H>, handle: u64, registration: u64, handler: H)
    requires
        event.handlers.len() == 0,
        event.subscription is None,
    ensures
        event_after_remove(event_after_add(event, Some(Ok(handle)), registration, handler), registration).handlers.len() == 0,
        event_after_remove(event_after_add(event, Some(Ok(handle)), registration, handler), registration).subscription is None,
        event_after_add(event, Some(Ok(handle)), registration, handler).subscription == Some(handle),
{
    let added = event_after_add(event, Some(Ok(handle)), registration, handler);
    let pred = crate::resource::registered_elsewhere::<H>(registration);
    assert(added.handlers =~= seq![(registration, handler)]);
    event.handlers.lemma_filter_push((registration, handler), pred);
    assert(event.handlers.filter(pred) =~= Seq::<(u64, H)>::empty()) by {
        reveal(Seq::filter);
    }
}

} // verus!
