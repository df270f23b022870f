//! The sprite batch's `Begin`/`Draw`/`End` protocol over a device-owned
//! resource: a batch begins once, draws only inside its interval and only
//! with resources of its own device, and leaves the interval when the
//! runtime accepts `End`.
//!
//! Each operation is split around its native call: the check answers the
//! record to hand the runtime, and the finishing step records what the
//! runtime answered.

#![allow(non_snake_case)]

use vstd::prelude::*;

use crate::error::{CnaError, InputError};
use crate::kinds::SpriteEffects;
use crate::resource::{ResourceKind, ResourceState, ResourceView};
use crate::value::{Color, Rectangle};

verus! {

/// The integer part of a native sprite command; the caller adds the
/// rotation, origin and layer depth.
#[derive(Clone, Copy, Debug, PartialEq, Eq, Structural)]
pub struct SpriteCommand {
    pub texture: u64,
    pub destination: Rectangle,
    pub source: Rectangle,
    pub color: Color,
    pub effects: u32,
}

/// The rectangle a missing source rectangle stands for.
pub open spec fn empty_rectangle() -> Rectangle {
    Rectangle { X: 0, Y: 0, Width: 0, Height: 0 }
}

/// The verdict on a draw: the batch must be inside `Begin`/`End`, the
/// texture must belong to the batch's device, and the texture must still
/// hold its handle.
pub open spec fn spec_draw_outcome(active: bool, same_device: bool, texture: Result<u64, CnaError>) -> Result<u64, CnaError> {
    if !active {
        Err(CnaError::InvalidInput(InputError::DrawOutsideBegin))
    } else if !same_device {
        Err(CnaError::InvalidInput(InputError::TextureOfOtherDevice))
    } else {
        texture
    }
}

/// The verdict on drawing text, before its byte length is measured.
pub open spec fn spec_draw_string_outcome(active: bool, same_device: bool, finite: bool, font: Result<u64, CnaError>) -> Result<u64, CnaError> {
    if !active {
        Err(CnaError::InvalidInput(InputError::DrawStringOutsideBegin))
    } else if !same_device {
        Err(CnaError::InvalidInput(InputError::SpriteFontOfOtherDevice))
    } else if !finite {
        Err(CnaError::InvalidInput(InputError::DrawStringNotFinite))
    } else {
        font
    }
}

/// Owned `SpriteBatch` associated with one graphics device.
pub struct SpriteBatch {
    state: ResourceState,
}

impl View for SpriteBatch {
    type V = ResourceView;

    closed spec fn view(&self) -> ResourceView {
        self.state@
    }
}

impl SpriteBatch {
    /// A batch for a freshly created native sprite batch, outside any
    /// interval.
    pub fn new(handle: u64) -> (r: Self)
        ensures
            r@.handle == handle,
            r@.kind == ResourceKind::SpriteBatch,
            !r@.active,
            !r@.borrowed,
    {
        SpriteBatch { state: ResourceState::new(handle, ResourceKind::SpriteBatch, false) }
    }

    /// The resource bookkeeping of the batch.
    pub fn state(&self) -> (r: &ResourceState)
        ensures
            r@ == self@,
    {
        &self.state
    }

    /// The check before any `Begin`: a batch begins once per interval.
    pub fn begin_check(&self) -> (r: Result<(), CnaError>)
        ensures
            self@.active ==> r == Err::<(), CnaError>(CnaError::InvalidInput(InputError::BeginCalledTwice)),
            !self@.active ==> r is Ok,
    {
        if self.state.is_active() {
            return Err(CnaError::InvalidInput(InputError::BeginCalledTwice));
        }
        Ok(())
    }

    /// The check of `Begin` with states and an effect: the effect, if any,
    /// must belong to the batch's device. Answers the effect's handle, or
    /// the invalid handle for none.
    pub fn begin_effect_handle(&self, effect: Option<(bool, Result<u64, CnaError>)>) -> (r: Result<u64, CnaError>)
        ensures
            self@.active ==> r == Err::<u64, CnaError>(CnaError::InvalidInput(InputError::BeginCalledTwice)),
            !self@.active && effect is None ==> r == Ok::<u64, CnaError>(0),
            !self@.active && effect is Some ==> r == if !(effect->0).0 {
                Err::<u64, CnaError>(CnaError::InvalidInput(InputError::EffectOfOtherDevice))
            } else {
                (effect->0).1
            },
    {
        self.begin_check()?;
        match effect {
            None => Ok(0),
            Some((same_device, handle)) => {
                if !same_device {
                    return Err(CnaError::InvalidInput(InputError::EffectOfOtherDevice));
                }
                handle
            },
        }
    }

    /// Records the runtime's answer to `Begin`: the interval opens only
    /// when the runtime accepted it.
    pub fn finish_begin(&mut self, native: Result<(), CnaError>) -> (r: Result<(), CnaError>)
        ensures
            r == native,
            final(self)@ == after_begin(old(self)@, native is Ok),
    {
        if native.is_ok() {
            self.state.set_active(true);
        }
        native
    }

    /// The command a `Draw` hands the runtime: `texture` is the texture's
    /// own answer for its handle, and `same_device` whether it belongs to
    /// the batch's device. A missing source rectangle is the empty one.
    pub fn draw_command(
        &self,
        same_device: bool,
        texture: Result<u64, CnaError>,
        destination: Rectangle,
        source: Option<Rectangle>,
        color: Color,
        effects: SpriteEffects,
    ) -> (r: Result<SpriteCommand, CnaError>)
        ensures
            spec_draw_outcome(self@.active, same_device, texture) matches Err(e) ==> r == Err::<SpriteCommand, CnaError>(e),
            spec_draw_outcome(self@.active, same_device, texture) matches Ok(handle) ==> r == Ok::<SpriteCommand, CnaError>(
                SpriteCommand {
                    texture: handle,
                    destination,
                    source: match source {
                        Some(s) => s,
                        None => empty_rectangle(),
                    },
                    color,
                    effects: effects@ as u32,
                },
            ),
    {
        if !self.state.is_active() {
            return Err(CnaError::InvalidInput(InputError::DrawOutsideBegin));
        }
        if !same_device {
            return Err(CnaError::InvalidInput(InputError::TextureOfOtherDevice));
        }
        let handle = texture?;
        let source_rectangle = match source {
            Some(s) => s,
            None => Rectangle::new(0, 0, 0, 0),
        };
        Ok(SpriteCommand { texture: handle, destination, source: source_rectangle, color, effects: effects.bits() })
    }

    /// The check of `DrawString`: inside an interval, a font of the batch's
    /// device, finite transform values, the font's handle, and a text whose
    /// byte length the runtime can take. Answers the font handle and the
    /// byte length.
    pub fn draw_string_check(
        &self,
        same_device: bool,
        finite: bool,
        font: Result<u64, CnaError>,
        text: &str,
    ) -> (r: Result<(u64, u64), CnaError>)
        ensures
            spec_draw_string_outcome(self@.active, same_device, finite, font) matches Err(e) ==> r == Err::<(u64, u64), CnaError>(e),
            spec_draw_string_outcome(self@.active, same_device, finite, font) matches Ok(handle) ==> r == Ok::<(u64, u64), CnaError>(
                (handle, text.len() as u64),
            ),
    {
        if !self.state.is_active() {
            return Err(CnaError::InvalidInput(InputError::DrawStringOutsideBegin));
        }
        if !same_device {
            return Err(CnaError::InvalidInput(InputError::SpriteFontOfOtherDevice));
        }
        if !finite {
            return Err(CnaError::InvalidInput(InputError::DrawStringNotFinite));
        }
        let handle = font?;
        let length: usize = text.len();
        Ok((handle, length as u64))
    }

    /// The check before `End`: only inside an interval.
    pub fn end_check(&self) -> (r: Result<(), CnaError>)
        ensures
            !self@.active ==> r == Err::<(), CnaError>(CnaError::InvalidInput(InputError::EndOutsideBegin)),
            self@.active ==> r is Ok,
    {
        if !self.state.is_active() {
            return Err(CnaError::InvalidInput(InputError::EndOutsideBegin));
        }
        Ok(())
    }

    /// Records the runtime's answer to `End`: the interval closes only when
    /// the runtime accepted it.
    pub fn finish_end(&mut self, native: Result<(), CnaError>) -> (r: Result<(), CnaError>)
        ensures
            r == native,
            final(self)@ == after_end(old(self)@, native is Ok),
    {
        if native.is_ok() {
            self.state.set_active(false);
        }
        native
    }
}

/// The batch after the runtime answered `Begin`: inside an interval once
/// accepted.
pub open spec fn after_begin(view: ResourceView, accepted: bool) -> ResourceView {
    ResourceView { active: view.active || accepted, ..view }
}

/// The batch after the runtime answered `End`: outside once accepted.
pub open spec fn after_end(view: ResourceView, accepted: bool) -> ResourceView {
    ResourceView { active: view.active && !accepted, ..view }
}

/// An accepted `Begin` opens an interval that refuses a second `Begin`, and
/// an accepted `End` then restores the batch as it was.
pub proof fn law_begin_end_round_trip(view: ResourceView)
    requires
        !view.active,
    ensures
        after_begin(view, true).active,
        after_end(after_begin(view, true), true) == view,
{
}

} // verus!
