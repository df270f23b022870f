//! The graphics objects a game reaches through a callback-scoped device: an
//! owned texture that knows its size, and an owned sprite batch whose
//! `Begin`/`Draw`/`End` sequence is checked before anything reaches the
//! runtime.

#![allow(non_snake_case)]

use vstd::prelude::*;

use crate::error::{CnaError, InputError};
use crate::resource::INVALID_HANDLE;
use crate::sprite_batch::SpriteCommand;
use crate::value::{Color, Rectangle};

verus! {

/// Checks encoded texture bytes before they go to the runtime: there must
/// be some.
pub fn check_encoded_texture(length: usize) -> (r: Result<(), CnaError>)
    ensures
        length == 0 ==> r == Err::<(), CnaError>(CnaError::InvalidInput(InputError::EncodedTextureEmpty)),
        length != 0 ==> r is Ok,
{
    if length == 0 {
        return Err(CnaError::InvalidInput(InputError::EncodedTextureEmpty));
    }
    Ok(())
}

/// Whether capability bit `bit` is set in a renderer's capability flags.
pub fn capability_bit_set(flags: u64, bit: u32) -> (r: bool)
    requires
        bit < 64,
    ensures
        r == ((flags >> bit) & 1u64 == 1u64),
{
    (flags >> bit) & 1u64 == 1u64
}

/// The buffer a renderer name of `name_size` bytes needs.
pub fn renderer_name_capacity(name_size: u64) -> (r: Result<usize, CnaError>)
    ensures
        name_size <= usize::MAX ==> r == Ok::<usize, CnaError>(name_size as usize),
        name_size > usize::MAX ==> r == Err::<usize, CnaError>(CnaError::InvalidInput(InputError::RendererNameTooLarge)),
{
    if name_size > usize::MAX as u64 {
        return Err(CnaError::InvalidInput(InputError::RendererNameTooLarge));
    }
    Ok(name_size as usize)
}

/// What a texture is.
pub struct Texture2DView {
    pub handle: u64,
    pub width: i32,
    pub height: i32,
    pub level_count: i32,
}

/// Owned native XNA `Texture2D` resource.
pub struct Texture2D {
    handle: u64,
    width: i32,
    height: i32,
    level_count: i32,
}

impl View for Texture2D {
    type V = Texture2DView;

    closed spec fn view(&self) -> Texture2DView {
        Texture2DView { handle: self.handle, width: self.width, height: self.height, level_count: self.level_count }
    }
}

impl Texture2D {
    /// A texture for a native handle whose information the runtime reported;
    /// each size must fit XNA's signed integers, checked width first.
    pub fn from_handle(handle: u64, width: u32, height: u32, level_count: u32) -> (r: Result<Self, CnaError>)
        ensures
            width > i32::MAX ==> r is Err && r->Err_0 == CnaError::InvalidInput(InputError::TextureWidthExceedsI32),
            width <= i32::MAX && height > i32::MAX ==> r is Err && r->Err_0 == CnaError::InvalidInput(
                InputError::TextureHeightExceedsI32,
            ),
            width <= i32::MAX && height <= i32::MAX && level_count > i32::MAX ==> r is Err && r->Err_0
                == CnaError::InvalidInput(InputError::TextureLevelCountExceedsI32),
            width <= i32::MAX && height <= i32::MAX && level_count <= i32::MAX ==> r is Ok && r->Ok_0@ == (Texture2DView {
                handle,
                width: width as i32,
                height: height as i32,
                level_count: level_count as i32,
            }),
    {
        if width > 0x7fff_ffff {
            return Err(CnaError::InvalidInput(InputError::TextureWidthExceedsI32));
        }
        if height > 0x7fff_ffff {
            return Err(CnaError::InvalidInput(InputError::TextureHeightExceedsI32));
        }
        if level_count > 0x7fff_ffff {
            return Err(CnaError::InvalidInput(InputError::TextureLevelCountExceedsI32));
        }
        Ok(Texture2D { handle, width: width as i32, height: height as i32, level_count: level_count as i32 })
    }

    /// XNA `Texture2D.Width`.
    pub fn Width(&self) -> (r: i32)
        ensures
            r == self@.width,
    {
        self.width
    }

    /// XNA `Texture2D.Height`.
    pub fn Height(&self) -> (r: i32)
        ensures
            r == self@.height,
    {
        self.height
    }

    /// XNA `Texture.LevelCount`.
    pub fn LevelCount(&self) -> (r: i32)
        ensures
            r == self@.level_count,
    {
        self.level_count
    }

    /// The native handle, while the texture holds one.
    pub fn handle(&self) -> (r: u64)
        ensures
            r == self@.handle,
    {
        self.handle
    }

    /// XNA `GraphicsResource.IsDisposed`.
    pub fn IsDisposed(&self) -> (r: bool)
        ensures
            r == (self@.handle == INVALID_HANDLE),
    {
        self.handle == INVALID_HANDLE
    }

    /// Records the runtime's answer to destroying the texture: the handle
    /// is given up only when the runtime destroyed it.
    pub fn finish_dispose(&mut self, native: Result<(), CnaError>) -> (r: Result<(), CnaError>)
        ensures
            r == native,
            final(self)@ == (Texture2DView { handle: if native is Ok { INVALID_HANDLE } else { old(self)@.handle }, ..old(self)@ }),
    {
        if native.is_ok() {
            self.handle = INVALID_HANDLE;
        }
        native
    }
}

/// What a sprite batch is.
pub struct ScopedSpriteBatchView {
    pub handle: u64,
    pub begun: bool,
}

/// Owned `SpriteBatch` of a callback-scoped device. A mutable borrow
/// enforces one `Begin`/`Draw`/`End` sequence at a time.
pub struct SpriteBatch {
    handle: u64,
    begun: bool,
}

impl View for SpriteBatch {
    type V = ScopedSpriteBatchView;

    closed spec fn view(&self) -> ScopedSpriteBatchView {
        ScopedSpriteBatchView { handle: self.handle, begun: self.begun }
    }
}

impl SpriteBatch {
    /// A batch for a freshly created native sprite batch.
    pub fn new(handle: u64) -> (r: Self)
        ensures
            r@ == (ScopedSpriteBatchView { handle, begun: false }),
    {
        SpriteBatch { handle, begun: false }
    }

    /// The native handle.
    pub fn handle(&self) -> (r: u64)
        ensures
            r == self@.handle,
    {
        self.handle
    }

    /// The check before `Begin`: a batch begins once per interval.
    pub fn begin_check(&self) -> (r: Result<(), CnaError>)
        ensures
            self@.begun ==> r == Err::<(), CnaError>(CnaError::InvalidInput(InputError::BeginCalledTwice)),
            !self@.begun ==> r is Ok,
    {
        if self.begun {
            return Err(CnaError::InvalidInput(InputError::BeginCalledTwice));
        }
        Ok(())
    }

    /// Records the runtime's answer to `Begin`: the interval opens only
    /// when the runtime accepted it.
    pub fn finish_begin(&mut self, native: Result<(), CnaError>) -> (r: Result<(), CnaError>)
        ensures
            r == native,
            final(self)@ == (ScopedSpriteBatchView { begun: old(self)@.begun || native is Ok, ..old(self)@ }),
    {
        if native.is_ok() {
            self.begun = true;
        }
        native
    }

    /// The destination-rectangle `Draw` overload: checked inside an
    /// interval and against a disposed texture, it answers the command to
    /// submit, with an empty source rectangle and no sprite effect.
    pub fn DrawWithTextureAndDestinationRectangleAndColor(&self, texture: &Texture2D, destination: Rectangle, color: Color) -> (r: Result<SpriteCommand, CnaError>)
        ensures
            !self@.begun ==> r == Err::<SpriteCommand, CnaError>(CnaError::InvalidInput(InputError::DrawOutsideBegin)),
            self@.begun && texture@.handle == INVALID_HANDLE ==> r == Err::<SpriteCommand, CnaError>(
                CnaError::InvalidInput(InputError::DrawDisposedTexture),
            ),
            self@.begun && texture@.handle != INVALID_HANDLE ==> r == Ok::<SpriteCommand, CnaError>(SpriteCommand {
                texture: texture@.handle,
                destination,
                source: Rectangle { X: 0, Y: 0, Width: 0, Height: 0 },
                color,
                effects: 0,
            }),
    {
        if !self.begun {
            return Err(CnaError::InvalidInput(InputError::DrawOutsideBegin));
        }
        if texture.IsDisposed() {
            return Err(CnaError::InvalidInput(InputError::DrawDisposedTexture));
        }
        Ok(SpriteCommand {
            texture: texture.handle,
            destination,
            source: Rectangle::new(0, 0, 0, 0),
            color,
            effects: 0,
        })
    }

    /// The check before `End`: only inside an interval.
    pub fn end_check(&self) -> (r: Result<(), CnaError>)
        ensures
            !self@.begun ==> r == Err::<(), CnaError>(CnaError::InvalidInput(InputError::EndOutsideBegin)),
            self@.begun ==> r is Ok,
    {
        if !self.begun {
            return Err(CnaError::InvalidInput(InputError::EndOutsideBegin));
        }
        Ok(())
    }

    /// Records the runtime's answer to `End`: the interval closes whatever
    /// the runtime answered, and the answer is passed on.
    pub fn finish_end(&mut self, native: Result<(), CnaError>) -> (r: Result<(), CnaError>)
        ensures
            r == native,
            final(self)@ == (ScopedSpriteBatchView { begun: false, ..old(self)@ }),
    {
        self.begun = false;
        native
    }

    /// XNA `GraphicsResource.IsDisposed`.
    pub fn IsDisposed(&self) -> (r: bool)
        ensures
            r == (self@.handle == INVALID_HANDLE),
    {
        self.handle == INVALID_HANDLE
    }

    /// Records the runtime's answer to destroying the batch: on success the
    /// handle is given up and any interval ends.
    pub fn finish_dispose(&mut self, native: Result<(), CnaError>) -> (r: Result<(), CnaError>)
        ensures
            r == native,
            native is Ok ==> final(self)@ == (ScopedSpriteBatchView { handle: INVALID_HANDLE, begun: false }),
            native is Err ==> final(self)@ == old(self)@,
    {
        if native.is_ok() {
            self.handle = INVALID_HANDLE;
            self.begun = false;
        }
        native
    }
}

} // verus!
