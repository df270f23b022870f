//! Graphics resources: the ordered event-handler registry every resource and
//! device carries, and the lifecycle of one native resource handle.

#![allow(non_snake_case)]

use vstd::prelude::*;

use crate::error::{CallbackFault, CnaError, InputError};

verus! {

/// The handle value that names no native object.
pub const INVALID_HANDLE: u64 = 0;

/// XNA `EventArgs`: an event that carries no data.
#[derive(Clone, Copy, Debug, Default, PartialEq, Eq, Structural)]
pub struct EventArgs;

/// An ordered registry of event handlers, each under the registration
/// number it was added with.
pub struct EventHandlers<H> {
    next_registration: u64,
    entries: Vec<(u64, H)>,
}

/// What a registry holds: the last registration number handed out, and the
/// handlers in the order they were added.
pub struct EventRegistryView<H> {
    pub next_registration: u64,
    pub entries: Seq<(u64, H)>,
}

/// The registration number that follows `previous`: one more, wrapping past
/// the largest number back to one, never zero.
pub open spec fn registration_after(previous: u64) -> u64 {
    if previous == u64::MAX {
        1
    } else {
        (previous + 1) as u64
    }
}

/// Whether an entry is registered under some other number.
pub open spec fn registered_elsewhere<H>(registration: u64) -> spec_fn((u64, H)) -> bool {
    |entry: (u64, H)| entry.0 != registration
}

/// Whether an entry was registered no later than `cutoff`.
pub open spec fn registered_by<H>(cutoff: u64) -> spec_fn((u64, H)) -> bool {
    |entry: (u64, H)| entry.0 <= cutoff
}

/// The registration number of an entry.
pub open spec fn registration_of<H>() -> spec_fn((u64, H)) -> u64 {
    |entry: (u64, H)| entry.0
}

/// The entries that survive removing `registration`.
pub open spec fn without_registration<H>(entries: Seq<(u64, H)>, registration: u64) -> Seq<(u64, H)> {
    entries.filter(registered_elsewhere(registration))
}

/// The entries an emission up to `cutoff` reaches.
pub open spec fn through_cutoff<H>(entries: Seq<(u64, H)>, cutoff: u64) -> Seq<(u64, H)> {
    entries.filter(registered_by(cutoff))
}

impl<H> View for EventHandlers<H> {
    type V = EventRegistryView<H>;

    closed spec fn view(&self) -> EventRegistryView<H> {
        EventRegistryView { next_registration: self.next_registration, entries: self.entries@ }
    }
}

impl<H> EventHandlers<H> {
    /// An empty registry that has handed out no registration.
    pub fn new() -> (r: Self)
        ensures
            r@.next_registration == 0,
            r@.entries == Seq::<(u64, H)>::empty(),
            registrations_bounded(r@),
    {
        EventHandlers { next_registration: 0, entries: Vec::new() }
    }

    /// Adds a handler after every present one and answers its registration.
    pub fn add(&mut self, handler: H) -> (r: u64)
        ensures
            r == registration_after(old(self)@.next_registration),
            r >= 1,
            final(self)@.next_registration == r,
            final(self)@.entries == old(self)@.entries.push((r, handler)),
            registrations_bounded(old(self)@) && old(self)@.next_registration < u64::MAX
                ==> registrations_bounded(final(self)@),
            registrations_bounded(old(self)@) && old(self)@.next_registration < u64::MAX
                ==> forall|k: int| 0 <= k < old(self)@.entries.len() ==> #[trigger] old(self)@.entries[k].0 < r,
            final(self)@ == registry_after_step(old(self)@, RegistryStep::Add(handler)),
    {
        let registration: u64 = if self.next_registration == u64::MAX {
            1
        } else {
            self.next_registration + 1
        };
        self.next_registration = registration;
        self.entries.push((registration, handler));
        registration
    }

    /// Removes every handler under `registration`; answers whether one was.
    pub fn remove(&mut self, registration: u64) -> (r: bool)
        ensures
            final(self)@.next_registration == old(self)@.next_registration,
            final(self)@.entries == without_registration(old(self)@.entries, registration),
            r == (final(self)@.entries.len() != old(self)@.entries.len()),
            registrations_bounded(old(self)@) ==> registrations_bounded(final(self)@),
            final(self)@ == registry_after_step(old(self)@, RegistryStep::Remove(registration)),
    {
        let removed = remove_registration(&mut self.entries, registration);
        proof {
            if registrations_bounded(old(self)@) {
                assert forall|k: int| 0 <= k < self.entries@.len() implies 1 <= #[trigger] self.entries@[k].0
                    <= self.next_registration by {
                    assert(old(self)@.entries.contains(self.entries@[k]));
                    let j = choose|j: int| 0 <= j < old(self)@.entries.len() && old(self)@.entries[j] == self.entries@[k];
                }
            }
        }
        removed
    }

    /// Whether no handler is registered.
    pub fn is_empty(&self) -> (r: bool)
        ensures
            r == (self@.entries.len() == 0),
    {
        self.entries.len() == 0
    }

    /// The last registration handed out: an emission through it reaches
    /// exactly the handlers present now, and none added later.
    pub fn registration_cutoff(&self) -> (r: u64)
        ensures
            r == self@.next_registration,
    {
        self.next_registration
    }

    /// The registration numbers an emission through `cutoff` reaches, in
    /// the order the handlers were added.
    pub fn registrations_through(&self, cutoff: u64) -> (r: Vec<u64>)
        ensures
            r@ == through_cutoff(self@.entries, cutoff).map_values(registration_of::<H>()),
    {
        let ghost pred = registered_by::<H>(cutoff);
        let ghost key = registration_of::<H>();
        let mut out: Vec<u64> = Vec::new();
        let mut i: usize = 0;
        while i < self.entries.len()
            invariant
                i <= self.entries@.len(),
                out@ == self.entries@.take(i as int).filter(pred).map_values(key),
                pred == registered_by::<H>(cutoff),
                key == registration_of::<H>(),
            decreases self.entries@.len() - i,
        {
            let registration: u64 = self.entries[i].0;
            proof {
                let entry = self.entries@[i as int];
                assert(self.entries@.take(i + 1) =~= self.entries@.take(i as int).push(entry));
                self.entries@.take(i as int).lemma_filter_push(entry, pred);
                self.entries@.take(i as int).filter(pred).lemma_push_map_commute(key, entry);
            }
            if registration <= cutoff {
                out.push(registration);
            }
            i = i + 1;
        }
        proof {
            assert(self.entries@.take(self.entries@.len() as int) =~= self.entries@);
        }
        out
    }

    /// The handlers an emission through `cutoff` reaches, cloned, in the
    /// order they were added. The caller invokes these after the registry
    /// is released, so a handler that adds or removes handlers affects only
    /// later emissions.
    pub fn handlers_through(&self, cutoff: u64) -> (r: Vec<H>)
        where
            H: Clone,
        ensures
            r@.len() == through_cutoff(self@.entries, cutoff).len(),
            forall|k: int| 0 <= k < r@.len() ==> cloned::<H>(through_cutoff(self@.entries, cutoff)[k].1, #[trigger] r@[k]),
    {
        let ghost pred = registered_by::<H>(cutoff);
        let mut out: Vec<H> = Vec::new();
        let mut i: usize = 0;
        while i < self.entries.len()
            invariant
                i <= self.entries@.len(),
                pred == registered_by::<H>(cutoff),
                out@.len() == self.entries@.take(i as int).filter(pred).len(),
                forall|k: int| 0 <= k < out@.len() ==> cloned::<H>(
                    self.entries@.take(i as int).filter(pred)[k].1,
                    #[trigger] out@[k],
                ),
            decreases self.entries@.len() - i,
        {
            proof {
                let entry = self.entries@[i as int];
                assert(self.entries@.take(i + 1) =~= self.entries@.take(i as int).push(entry));
                self.entries@.take(i as int).lemma_filter_push(entry, pred);
            }
            if self.entries[i].0 <= cutoff {
                let handler: H = self.entries[i].1.clone();
                out.push(handler);
            }
            i = i + 1;
        }
        proof {
            assert(self.entries@.take(self.entries@.len() as int) =~= self.entries@);
        }
        out
    }
}

/// Removes every entry under `registration`, keeping the others in order;
/// answers whether one was removed.
pub fn remove_registration<H>(entries: &mut Vec<(u64, H)>, registration: u64) -> (r: bool)
    ensures
        final(entries)@ == without_registration(old(entries)@, registration),
        r == (final(entries)@.len() != old(entries)@.len()),
        forall|k: int| 0 <= k < final(entries)@.len() ==> old(entries)@.contains(#[trigger] final(entries)@[k]),
{
    let old_entries: Ghost<Seq<(u64, H)>> = Ghost(entries@);
    let length: usize = entries.len();
    let mut kept: Vec<(u64, H)> = Vec::new();
    let mut taken: Vec<(u64, H)> = Vec::new();
    std::mem::swap(&mut taken, entries);
    let ghost pred = registered_elsewhere::<H>(registration);
    let mut i: usize = 0;
    while taken.len() > 0
        invariant
            taken@.len() + i == length,
            old_entries@.len() == length,
            taken@ == old_entries@.subrange(i as int, length as int),
            kept@ == old_entries@.take(i as int).filter(pred),
            pred == registered_elsewhere::<H>(registration),
        decreases taken@.len(),
    {
        let entry: (u64, H) = taken.remove(0);
        proof {
            assert(entry == old_entries@[i as int]);
            assert(taken@ =~= old_entries@.subrange(i + 1, length as int));
            assert(old_entries@.take(i + 1) =~= old_entries@.take(i as int).push(entry));
            old_entries@.take(i as int).lemma_filter_push(entry, pred);
        }
        if entry.0 != registration {
            kept.push(entry);
        }
        i = i + 1;
    }
    proof {
        assert(old_entries@.take(length as int) =~= old_entries@);
        assert forall|k: int| 0 <= k < kept@.len() implies old_entries@.contains(#[trigger] kept@[k]) by {
            assert(kept@.contains(kept@[k]));
            old_entries@.lemma_filter_contains_rev(pred, kept@[k]);
        }
    }
    *entries = kept;
    length != entries.len()
}

impl<H> Default for EventHandlers<H> {
    fn default() -> (r: Self)
        ensures
            r@.next_registration == 0,
            r@.entries == Seq::<(u64, H)>::empty(),
    {
        EventHandlers::new()
    }
}

/// Every registration in the registry is between one and the last number
/// handed out, which holds until the numbers wrap.
pub open spec fn registrations_bounded<H>(view: EventRegistryView<H>) -> bool {
    forall|k: int| 0 <= k < view.entries.len() ==> 1 <= #[trigger] view.entries[k].0 <= view.next_registration
}

/// One call that changes a registry: an add of a handler, or a removal of
/// a registration.
pub enum RegistryStep<H> {
    Add(H),
    Remove(u64),
}

/// The registry one step leaves, as `add` and `remove` state it.
pub open spec fn registry_after_step<H>(view: EventRegistryView<H>, step: RegistryStep<H>) -> EventRegistryView<H> {
    match step {
        RegistryStep::Add(handler) => EventRegistryView {
            next_registration: registration_after(view.next_registration),
            entries: view.entries.push((registration_after(view.next_registration), handler)),
        },
        RegistryStep::Remove(registration) => EventRegistryView {
            next_registration: view.next_registration,
            entries: without_registration(view.entries, registration),
        },
    }
}

/// The registry a run of steps leaves.
pub open spec fn registry_after_steps<H>(view: EventRegistryView<H>, steps: Seq<RegistryStep<H>>) -> EventRegistryView<H>
    decreases steps.len(),
{
    if steps.len() == 0 {
        view
    } else {
        registry_after_step(registry_after_steps(view, steps.drop_last()), steps.last())
    }
}

/// The registrations the adds of a run answered, in order.
pub open spec fn answered_registrations<H>(view: EventRegistryView<H>, steps: Seq<RegistryStep<H>>) -> Seq<u64>
    decreases steps.len(),
{
    if steps.len() == 0 {
        Seq::empty()
    } else {
        let before = registry_after_steps(view, steps.drop_last());
        let prior = answered_registrations(view, steps.drop_last());
        match steps.last() {
            RegistryStep::Add(_) => prior.push(registration_after(before.next_registration)),
            RegistryStep::Remove(_) => prior,
        }
    }
}

/// How many adds a run holds.
pub open spec fn add_count<H>(steps: Seq<RegistryStep<H>>) -> nat
    decreases steps.len(),
{
    if steps.len() == 0 {
        0
    } else {
        add_count(steps.drop_last()) + if steps.last() is Add { 1nat } else { 0nat }
    }
}

/// Registration numbers are fresh: over any run of adds and removals that
/// does not carry the numbers past the largest one, the adds answer
/// strictly increasing numbers, each above every number handed out before
/// the run, so no add answers a number an earlier add answered; and the
/// registrations present stay between one and the last number handed out.
pub proof fn law_registrations_are_fresh<H>(view: EventRegistryView<H>, steps: Seq<RegistryStep<H>>)
    requires
        view.next_registration + add_count(steps) <= u64::MAX,
    ensures
        registry_after_steps(view, steps).next_registration == view.next_registration + add_count(steps),
        answered_registrations(view, steps).len() == add_count(steps),
        forall|i: int| 0 <= i < answered_registrations(view, steps).len() ==>
            view.next_registration < #[trigger] answered_registrations(view, steps)[i]
                <= registry_after_steps(view, steps).next_registration,
        forall|i: int, j: int| 0 <= i < j < answered_registrations(view, steps).len() ==>
            #[trigger] answered_registrations(view, steps)[i] < #[trigger] answered_registrations(view, steps)[j],
        registrations_bounded(view) ==> registrations_bounded(registry_after_steps(view, steps)),
    decreases steps.len(),
{
    if steps.len() > 0 {
        let prefix = steps.drop_last();
        law_registrations_are_fresh(view, prefix);
        let before = registry_after_steps(view, prefix);
        let prior = answered_registrations(view, prefix);
        match steps.last() {
            RegistryStep::Add(handler) => {
                let r = registration_after(before.next_registration);
                assert(r == before.next_registration + 1);
                let answered = answered_registrations(view, steps);
                assert(answered == prior.push(r));
                assert forall|i: int, j: int| 0 <= i < j < answered.len() implies
                    #[trigger] answered[i] < #[trigger] answered[j] by {
                    if j < prior.len() {
                        assert(answered[i] == prior[i] && answered[j] == prior[j]);
                    } else {
                        assert(answered[i] == prior[i]);
                    }
                }
                assert forall|i: int| 0 <= i < answered.len() implies
                    view.next_registration < #[trigger] answered[i]
                        <= registry_after_steps(view, steps).next_registration by {
                    if i < prior.len() {
                        assert(answered[i] == prior[i]);
                    }
                }
                if registrations_bounded(view) {
                    let after = registry_after_steps(view, steps);
                    assert forall|k: int| 0 <= k < after.entries.len() implies
                        1 <= #[trigger] after.entries[k].0 <= after.next_registration by {
                        if k < before.entries.len() {
                            assert(after.entries[k] == before.entries[k]);
                        }
                    }
                }
            },
            RegistryStep::Remove(registration) => {
                if registrations_bounded(view) {
                    let after = registry_after_steps(view, steps);
                    let pred = registered_elsewhere::<H>(registration);
                    assert forall|k: int| 0 <= k < after.entries.len() implies
                        1 <= #[trigger] after.entries[k].0 <= after.next_registration by {
                        assert(before.entries.filter(pred).contains(after.entries[k]));
                        before.entries.lemma_filter_contains_rev(pred, after.entries[k]);
                        let j = choose|j: int| 0 <= j < before.entries.len() && before.entries[j] == after.entries[k];
                        assert(before.entries[j].0 <= before.next_registration);
                    }
                }
            },
        }
    }
}

/// Filtering keeps a sequence whose every element passes.
pub proof fn lemma_filter_keeps_all<A>(s: Seq<A>, pred: spec_fn(A) -> bool)
    requires
        forall|k: int| 0 <= k < s.len() ==> pred(#[trigger] s[k]),
    ensures
        s.filter(pred) == s,
    decreases s.len(),
{
    reveal(Seq::filter);
    if s.len() > 0 {
        lemma_filter_keeps_all(s.drop_last(), pred);
        assert(s.drop_last().push(s.last()) =~= s);
    }
}

/// Removing the registration an add just answered restores the handlers
/// present before it, provided the numbers have not wrapped.
pub proof fn law_remove_undoes_add<H>(before: EventRegistryView<H>, handler: H)
    requires
        registrations_bounded(before),
        before.next_registration < u64::MAX,
    ensures
        without_registration(
            before.entries.push((registration_after(before.next_registration), handler)),
            registration_after(before.next_registration),
        ) == before.entries,
{
    let r = registration_after(before.next_registration);
    let pred = registered_elsewhere::<H>(r);
    before.entries.lemma_filter_push((r, handler), pred);
    assert forall|k: int| 0 <= k < before.entries.len() implies pred(#[trigger] before.entries[k]) by {
        assert(before.entries[k].0 <= before.next_registration);
    }
    lemma_filter_keeps_all(before.entries, pred);
}

/// A second removal of the same registration finds nothing: the handlers
/// are unchanged and the removal reports `false`.
pub proof fn law_remove_is_idempotent<H>(entries: Seq<(u64, H)>, registration: u64)
    ensures
        without_registration(without_registration(entries, registration), registration)
            == without_registration(entries, registration),
{
    let pred = registered_elsewhere::<H>(registration);
    let once = entries.filter(pred);
    assert forall|k: int| 0 <= k < once.len() implies pred(#[trigger] once[k]) by {
        entries.lemma_filter_pred(pred, k);
    }
    lemma_filter_keeps_all(once, pred);
}

/// An emission through the cutoff taken before an add does not reach the
/// handler that add registered, while the numbers have not wrapped.
pub proof fn law_emission_excludes_later_handlers<H>(before: EventRegistryView<H>, handler: H)
    requires
        before.next_registration < u64::MAX,
    ensures
        through_cutoff(
            before.entries.push((registration_after(before.next_registration), handler)),
            before.next_registration,
        ) == through_cutoff(before.entries, before.next_registration),
{
    let pred = registered_by::<H>(before.next_registration);
    before.entries.lemma_filter_push((registration_after(before.next_registration), handler), pred);
}

/// An emission through the current cutoff reaches every handler, in the
/// order the handlers were added.
pub proof fn law_emission_reaches_all_in_order<H>(view: EventRegistryView<H>)
    requires
        registrations_bounded(view),
    ensures
        through_cutoff(view.entries, view.next_registration) == view.entries,
{
    let pred = registered_by::<H>(view.next_registration);
    assert forall|k: int| 0 <= k < view.entries.len() implies pred(#[trigger] view.entries[k]) by {
        assert(view.entries[k].0 <= view.next_registration);
    }
    lemma_filter_keeps_all(view.entries, pred);
}

/// The kinds of native graphics resource, each with its own destroy route.
#[derive(Clone, Copy, Debug, PartialEq, Eq, Structural)]
pub enum ResourceKind {
    Texture2D,
    Texture3D,
    TextureCube,
    RenderTarget2D,
    RenderTargetCube,
    SpriteBatch,
    SpriteFont,
    Effect,
    VertexBuffer,
    IndexBuffer,
    OcclusionQuery,
}

/// What disposing a resource asks of the runtime.
#[derive(Clone, Copy, Debug, PartialEq, Eq, Structural)]
pub enum DisposeStep {
    /// The handle is already gone; nothing happens.
    Nothing,
    /// The handle is borrowed from another native object: forget it, and
    /// destroy nothing.
    Forget,
    /// Destroy the handle through the kind's route, first ending an active
    /// sprite batch, and first releasing an effect's contents.
    Destroy { kind: ResourceKind, end_sprite_batch: bool, release_effect_contents: bool },
}

/// One native graphics resource: its handle, its kind, whether it is a
/// sprite batch inside `Begin`/`End`, its name, and whether the handle is
/// borrowed from another native object.
pub struct ResourceState {
    handle: u64,
    kind: ResourceKind,
    active: bool,
    name: String,
    borrowed: bool,
}

/// What a resource is, as plain values.
pub struct ResourceView {
    pub handle: u64,
    pub kind: ResourceKind,
    pub active: bool,
    pub name: Seq<char>,
    pub borrowed: bool,
}

impl View for ResourceState {
    type V = ResourceView;

    closed spec fn view(&self) -> ResourceView {
        ResourceView {
            handle: self.handle,
            kind: self.kind,
            active: self.active,
            name: self.name@,
            borrowed: self.borrowed,
        }
    }
}

impl ResourceState {
    /// A resource for a fresh handle: inactive, unnamed. `borrowed` marks a
    /// handle whose lifetime another native object controls.
    pub fn new(handle: u64, kind: ResourceKind, borrowed: bool) -> (r: Self)
        ensures
            r@.handle == handle,
            r@.kind == kind,
            !r@.active,
            r@.name == Seq::<char>::empty(),
            r@.borrowed == borrowed,
    {
        ResourceState { handle, kind, active: false, name: String::new(), borrowed }
    }

    /// The live handle, or `None` once disposed or relinquished.
    pub fn handle(&self) -> (r: Option<u64>)
        ensures
            r == (if self@.handle == INVALID_HANDLE { None } else { Some(self@.handle) }),
    {
        if self.handle == INVALID_HANDLE {
            None
        } else {
            Some(self.handle)
        }
    }

    /// Gives the handle away without destroying it, after a consuming
    /// native route took ownership of the object.
    pub fn relinquish(&mut self)
        ensures
            final(self)@ == (ResourceView { handle: INVALID_HANDLE, ..old(self)@ }),
    {
        self.handle = INVALID_HANDLE;
    }

    /// The handle for a native call: the device must be alive, a borrowed
    /// handle must still be its owner's current one (`borrow_check` is the
    /// owner's answer), and the resource must not be disposed.
    pub fn require_handle(&self, device_alive: bool, borrow_check: Result<(), CnaError>) -> (r: Result<u64, CnaError>)
        ensures
            !device_alive ==> r == Err::<u64, CnaError>(CnaError::InvalidInput(InputError::GraphicsDeviceDisposed)),
            device_alive && self@.borrowed && borrow_check is Err ==> r == Err::<u64, CnaError>(
                borrow_check->Err_0,
            ),
            device_alive && (!self@.borrowed || borrow_check is Ok) ==> r == (if self@.handle == INVALID_HANDLE {
                Err::<u64, CnaError>(CnaError::InvalidInput(InputError::ResourceDisposed))
            } else {
                Ok::<u64, CnaError>(self@.handle)
            }),
    {
        if !device_alive {
            return Err(CnaError::InvalidInput(InputError::GraphicsDeviceDisposed));
        }
        if self.borrowed {
            borrow_check?;
        }
        if self.handle == INVALID_HANDLE {
            Err(CnaError::InvalidInput(InputError::ResourceDisposed))
        } else {
            Ok(self.handle)
        }
    }

    /// The kind of the resource.
    pub fn kind(&self) -> (r: ResourceKind)
        ensures
            r == self@.kind,
    {
        self.kind
    }

    /// Whether a sprite batch is between `Begin` and `End`.
    pub fn is_active(&self) -> (r: bool)
        ensures
            r == self@.active,
    {
        self.active
    }

    /// Records entering or leaving a `Begin`/`End` interval.
    pub fn set_active(&mut self, value: bool)
        ensures
            final(self)@ == (ResourceView { active: value, ..old(self)@ }),
    {
        self.active = value;
    }

    /// XNA `GraphicsResource.Name`.
    pub fn name(&self) -> (r: String)
        ensures
            r@ == self@.name,
    {
        self.name.clone()
    }

    /// XNA `GraphicsResource.Name` assignment.
    pub fn set_name(&mut self, value: &str)
        ensures
            final(self)@ == (ResourceView { name: value@, ..old(self)@ }),
    {
        self.name = String::from_str(value);
    }

    /// Whether the disposing event fires: only for a resource that still
    /// holds its handle, and only on an explicit dispose.
    pub fn disposing_event_due(&self, disposing: bool) -> (r: bool)
        ensures
            r == (disposing && self@.handle != INVALID_HANDLE),
    {
        disposing && self.handle != INVALID_HANDLE
    }

    /// What disposing asks of the runtime. A resource still bound to the
    /// device is refused; a borrowed handle is only forgotten.
    pub fn plan_dispose(&self, bound_to_device: bool) -> (r: Result<DisposeStep, CnaError>)
        ensures
            self@.handle == INVALID_HANDLE ==> r == Ok::<DisposeStep, CnaError>(DisposeStep::Nothing),
            self@.handle != INVALID_HANDLE && self@.borrowed ==> r == Ok::<DisposeStep, CnaError>(DisposeStep::Forget),
            self@.handle != INVALID_HANDLE && !self@.borrowed && bound_to_device ==> r == Err::<DisposeStep, CnaError>(
                CnaError::InvalidInput(InputError::DisposeWhileBound),
            ),
            self@.handle != INVALID_HANDLE && !self@.borrowed && !bound_to_device ==> r == Ok::<DisposeStep, CnaError>(
                DisposeStep::Destroy {
                    kind: self@.kind,
                    end_sprite_batch: self@.kind == ResourceKind::SpriteBatch && self@.active,
                    release_effect_contents: self@.kind == ResourceKind::Effect,
                },
            ),
    {
        if self.handle == INVALID_HANDLE {
            return Ok(DisposeStep::Nothing);
        }
        if self.borrowed {
            return Ok(DisposeStep::Forget);
        }
        if bound_to_device {
            return Err(CnaError::InvalidInput(InputError::DisposeWhileBound));
        }
        let end_sprite_batch: bool = match self.kind {
            ResourceKind::SpriteBatch => self.active,
            _ => false,
        };
        let release_effect_contents: bool = match self.kind {
            ResourceKind::Effect => true,
            _ => false,
        };
        Ok(DisposeStep::Destroy { kind: self.kind, end_sprite_batch, release_effect_contents })
    }

    /// Records that the handle was destroyed or forgotten.
    pub fn finish_dispose(&mut self)
        ensures
            final(self)@ == (ResourceView { handle: INVALID_HANDLE, ..old(self)@ }),
    {
        self.handle = INVALID_HANDLE;
    }
}

/// The outcome of an explicit dispose: a contained handler panic is
/// reported in place of the native result.
pub fn dispose_outcome(handler_panicked: bool, native: Result<(), CnaError>) -> (r: Result<(), CnaError>)
    ensures
        handler_panicked ==> r == Err::<(), CnaError>(CnaError::Callback(CallbackFault::EventHandlerPanicked)),
        !handler_panicked ==> r == native,
{
    if handler_panicked {
        Err(CnaError::Callback(CallbackFault::EventHandlerPanicked))
    } else {
        native
    }
}

} // verus!
