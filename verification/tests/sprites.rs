use cna::error::{CallbackFault, CnaError, InputError};
use cna::kinds::SpriteEffects;
use cna::resource::{dispose_outcome, DisposeStep, ResourceKind, ResourceState};
use cna::scoped_graphics::{capability_bit_set, check_encoded_texture, renderer_name_capacity, SpriteBatch as ScopedSpriteBatch, Texture2D};
use cna::sprite_batch::{SpriteBatch, SpriteCommand};
use cna::value::{Color, Rectangle};

fn rect(x: i32, y: i32, w: i32, h: i32) -> Rectangle {
    Rectangle::new(x, y, w, h)
}

#[test]
fn a_sprite_batch_draws_only_between_begin_and_end() {
    let mut batch = SpriteBatch::new(5);
    assert_eq!(batch.end_check(), Err(CnaError::InvalidInput(InputError::EndOutsideBegin)));
    assert_eq!(
        batch.draw_command(true, Ok(9), rect(0, 0, 4, 4), None, Color::White(), SpriteEffects::NoEffects()),
        Err(CnaError::InvalidInput(InputError::DrawOutsideBegin))
    );
    assert_eq!(batch.begin_check(), Ok(()));
    assert_eq!(batch.finish_begin(Ok(())), Ok(()));
    assert_eq!(batch.begin_check(), Err(CnaError::InvalidInput(InputError::BeginCalledTwice)));
    let command = batch
        .draw_command(true, Ok(9), rect(1, 2, 3, 4), Some(rect(0, 0, 2, 2)), Color::White(), SpriteEffects::FlipVertically())
        .expect("inside an interval");
    assert_eq!(
        command,
        SpriteCommand { texture: 9, destination: rect(1, 2, 3, 4), source: rect(0, 0, 2, 2), color: Color::White(), effects: 2 }
    );
    let no_source = batch.draw_command(true, Ok(9), rect(1, 2, 3, 4), None, Color::White(), SpriteEffects::NoEffects()).expect("ok");
    assert_eq!(no_source.source, rect(0, 0, 0, 0));
    assert_eq!(
        batch.draw_command(false, Ok(9), rect(1, 2, 3, 4), None, Color::White(), SpriteEffects::NoEffects()),
        Err(CnaError::InvalidInput(InputError::TextureOfOtherDevice))
    );
    assert_eq!(
        batch.draw_command(true, Err(CnaError::InvalidInput(InputError::ResourceDisposed)), rect(1, 2, 3, 4), None, Color::White(), SpriteEffects::NoEffects()),
        Err(CnaError::InvalidInput(InputError::ResourceDisposed))
    );
    assert_eq!(batch.end_check(), Ok(()));
    assert_eq!(batch.finish_end(Ok(())), Ok(()));
    assert_eq!(batch.end_check(), Err(CnaError::InvalidInput(InputError::EndOutsideBegin)));
}

#[test]
fn a_refused_begin_leaves_the_batch_outside_an_interval() {
    let mut batch = SpriteBatch::new(5);
    let refusal = Err(CnaError::InvalidInput(InputError::ResourceDisposed));
    assert_eq!(batch.finish_begin(refusal), refusal);
    assert_eq!(batch.begin_check(), Ok(()));
    assert!(!batch.state().is_active());
}

#[test]
fn begin_with_an_effect_checks_its_device() {
    let batch = SpriteBatch::new(5);
    assert_eq!(batch.begin_effect_handle(None), Ok(0));
    assert_eq!(batch.begin_effect_handle(Some((true, Ok(12)))), Ok(12));
    assert_eq!(batch.begin_effect_handle(Some((false, Ok(12)))), Err(CnaError::InvalidInput(InputError::EffectOfOtherDevice)));
}

#[test]
fn draw_string_measures_the_text_in_bytes() {
    let mut batch = SpriteBatch::new(5);
    assert_eq!(batch.draw_string_check(true, true, Ok(3), "hi"), Err(CnaError::InvalidInput(InputError::DrawStringOutsideBegin)));
    batch.finish_begin(Ok(())).expect("accepted");
    assert_eq!(batch.draw_string_check(true, true, Ok(3), "héllo"), Ok((3, 6)));
    assert_eq!(batch.draw_string_check(false, true, Ok(3), "x"), Err(CnaError::InvalidInput(InputError::SpriteFontOfOtherDevice)));
    assert_eq!(batch.draw_string_check(true, false, Ok(3), "x"), Err(CnaError::InvalidInput(InputError::DrawStringNotFinite)));
}

#[test]
fn resources_plan_their_disposal() {
    let mut batch = ResourceState::new(8, ResourceKind::SpriteBatch, false);
    batch.set_active(true);
    assert_eq!(batch.plan_dispose(true), Err(CnaError::InvalidInput(InputError::DisposeWhileBound)));
    assert_eq!(
        batch.plan_dispose(false),
        Ok(DisposeStep::Destroy { kind: ResourceKind::SpriteBatch, end_sprite_batch: true, release_effect_contents: false })
    );
    assert!(batch.disposing_event_due(true));
    assert!(!batch.disposing_event_due(false));
    batch.finish_dispose();
    assert_eq!(batch.handle(), None);
    assert_eq!(batch.plan_dispose(false), Ok(DisposeStep::Nothing));
    assert!(!batch.disposing_event_due(true));
    let borrowed = ResourceState::new(3, ResourceKind::Texture2D, true);
    assert_eq!(borrowed.plan_dispose(true), Ok(DisposeStep::Forget));
    let effect = ResourceState::new(4, ResourceKind::Effect, false);
    assert_eq!(
        effect.plan_dispose(false),
        Ok(DisposeStep::Destroy { kind: ResourceKind::Effect, end_sprite_batch: false, release_effect_contents: true })
    );
}

#[test]
fn a_resource_hands_out_its_handle_only_while_usable() {
    let mut texture = ResourceState::new(21, ResourceKind::Texture2D, false);
    texture.set_name("grass");
    assert_eq!(texture.name(), "grass".to_string());
    assert_eq!(texture.kind(), ResourceKind::Texture2D);
    assert_eq!(texture.require_handle(true, Ok(())), Ok(21));
    assert_eq!(texture.require_handle(false, Ok(())), Err(CnaError::InvalidInput(InputError::GraphicsDeviceDisposed)));
    texture.relinquish();
    assert_eq!(texture.require_handle(true, Ok(())), Err(CnaError::InvalidInput(InputError::ResourceDisposed)));
    let borrowed = ResourceState::new(22, ResourceKind::Texture2D, true);
    assert_eq!(
        borrowed.require_handle(true, Err(CnaError::InvalidInput(InputError::ResourceDisposed))),
        Err(CnaError::InvalidInput(InputError::ResourceDisposed))
    );
    assert_eq!(dispose_outcome(true, Ok(())), Err(CnaError::Callback(CallbackFault::EventHandlerPanicked)));
    assert_eq!(dispose_outcome(false, Ok(())), Ok(()));
}

#[test]
fn scoped_textures_fit_signed_sizes() {
    let texture = Texture2D::from_handle(7, 256, 128, 9).expect("fits");
    assert_eq!((texture.Width(), texture.Height(), texture.LevelCount(), texture.handle()), (256, 128, 9, 7));
    assert!(!texture.IsDisposed());
    assert_eq!(Texture2D::from_handle(7, u32::MAX, u32::MAX, 1).err(), Some(CnaError::InvalidInput(InputError::TextureWidthExceedsI32)));
    assert_eq!(Texture2D::from_handle(7, 1, u32::MAX, u32::MAX).err(), Some(CnaError::InvalidInput(InputError::TextureHeightExceedsI32)));
    assert_eq!(Texture2D::from_handle(7, 1, 1, u32::MAX).err(), Some(CnaError::InvalidInput(InputError::TextureLevelCountExceedsI32)));
}

#[test]
fn a_scoped_sprite_batch_draws_live_textures_between_begin_and_end() {
    let mut texture = Texture2D::from_handle(7, 2, 2, 1).expect("fits");
    let mut batch = ScopedSpriteBatch::new(11);
    let red = Color::from_rgba(255, 0, 0, 255);
    assert_eq!(
        batch.DrawWithTextureAndDestinationRectangleAndColor(&texture, rect(0, 0, 2, 2), red),
        Err(CnaError::InvalidInput(InputError::DrawOutsideBegin))
    );
    assert_eq!(batch.finish_begin(Ok(())), Ok(()));
    assert_eq!(batch.begin_check(), Err(CnaError::InvalidInput(InputError::BeginCalledTwice)));
    assert_eq!(
        batch.DrawWithTextureAndDestinationRectangleAndColor(&texture, rect(0, 0, 2, 2), red),
        Ok(SpriteCommand { texture: 7, destination: rect(0, 0, 2, 2), source: rect(0, 0, 0, 0), color: red, effects: 0 })
    );
    assert_eq!(texture.finish_dispose(Ok(())), Ok(()));
    assert!(texture.IsDisposed());
    assert_eq!(
        batch.DrawWithTextureAndDestinationRectangleAndColor(&texture, rect(0, 0, 2, 2), red),
        Err(CnaError::InvalidInput(InputError::DrawDisposedTexture))
    );
    assert_eq!(batch.end_check(), Ok(()));
    let _ = batch.finish_end(Ok(()));
    assert_eq!(batch.end_check(), Err(CnaError::InvalidInput(InputError::EndOutsideBegin)));
}

#[test]
fn renderer_queries_are_checked() {
    assert_eq!(check_encoded_texture(0), Err(CnaError::InvalidInput(InputError::EncodedTextureEmpty)));
    assert_eq!(check_encoded_texture(3), Ok(()));
    assert!(capability_bit_set(0b100, 2));
    assert!(!capability_bit_set(0b100, 1));
    assert_eq!(renderer_name_capacity(12), Ok(12));
}
