use cna::avatar::{
    description_capacity, description_length, expression_to_native, finish_description, native_expression, AvatarExpression,
    NativeAvatarExpression,
};
use cna::error::{CnaError, InputError};
use cna::gamer_collection::{checked_gamer_index, GamerCollectionCache, GamerCollectionEnumerator, RosterCache};
use cna::gamer_core::{
    finish_text, string_view_length, system_time_from_ticks, text_capacity, ticks_from_system_time, OwnedHandle, UnixOffset,
    CLR_TICKS_AT_UNIX_EPOCH,
};
use cna::gamer_events::{removal_outcome, GamerEventRegistry};
use cna::leaderboard::{decode_identity_key, encode_identity_key, LeaderboardWriterCache, IDENTITY_KEY_CAPACITY};
use cna::values::{AvatarEye, AvatarEyebrow, AvatarMouth, GameUpdateRequiredException, NetworkException};

fn refusal() -> CnaError {
    CnaError::InvalidInput(InputError::GamerObjectDisposed)
}

#[test]
fn sign_in_handlers_share_one_subscription_and_one_counter() {
    let mut registry: GamerEventRegistry<&str, &str, &str> = GamerEventRegistry::new();
    assert!(registry.signed_in().needs_subscription());
    let first = registry.add_signed_in(Some(Ok(500)), "a");
    assert!(!registry.signed_in().needs_subscription());
    let second = registry.add_signed_in(None, "b");
    let third = registry.add_signed_out(Some(Ok(600)), "c");
    assert_eq!((first, second, third), (1, 2, 3));
    assert_eq!(registry.signed_in().handlers_snapshot(), vec!["a", "b"]);
    assert_eq!(registry.remove_signed_in(first), (true, None));
    assert_eq!(registry.remove_signed_in(first), (false, None));
    assert_eq!(registry.remove_signed_in(second), (true, Some(500)));
    assert!(registry.signed_in().is_empty());
    assert!(registry.signed_in().needs_subscription());
    assert_eq!(registry.take_subscription_error(), Ok(()));
}

#[test]
fn a_refused_sign_in_subscription_is_reported_once_and_the_first_is_kept() {
    let mut registry: GamerEventRegistry<u8, u8, u8> = GamerEventRegistry::new();
    let first = CnaError::InvalidInput(InputError::GamerObjectDisposed);
    let second = CnaError::InvalidInput(InputError::TextTooLarge);
    registry.add_signed_in(Some(Err(first)), 1);
    registry.add_signed_out(Some(Err(second)), 2);
    assert_eq!(registry.signed_in().handlers_snapshot(), vec![1]);
    assert_eq!(registry.take_subscription_error(), Err(first));
    assert_eq!(registry.take_subscription_error(), Ok(()));
    registry.remember(Ok(()));
    assert_eq!(registry.take_subscription_error(), Ok(()));
}

#[test]
fn a_refused_title_update_subscription_registers_nothing() {
    let mut registry: GamerEventRegistry<u8, u8, u8> = GamerEventRegistry::new();
    let refused = registry.add_installing_title_update(Some(Err(refusal())), 9);
    assert_eq!(refused, Err(refusal()));
    assert!(registry.title_update().is_empty());
    let accepted = registry.add_installing_title_update(Some(Ok(70)), 9).expect("subscribed");
    assert_eq!(accepted, 1);
    assert_eq!(registry.add_avatar_description_changed(Some(Ok(71)), 4), Ok(2));
    assert_eq!(registry.remove_installing_title_update(accepted), (true, Some(70)));
    assert_eq!(registry.remove_avatar_description_changed(99), (false, None));
    assert!(!registry.avatar_changed().is_empty());
    assert_eq!(removal_outcome(true, Some(Err(refusal()))), Err(refusal()));
    assert_eq!(removal_outcome(true, Some(Ok(()))), Ok(true));
    assert_eq!(removal_outcome(false, None), Ok(false));
}

#[test]
fn registrations_wrap_past_the_largest_number_to_one() {
    let mut registry: GamerEventRegistry<u8, u8, u8> = GamerEventRegistry::new();
    assert_eq!(registry.next_registration(), 1);
    assert_eq!(registry.next_registration(), 2);
}

#[test]
fn a_gamer_enumerator_visits_its_snapshot_in_order() {
    let mut e = GamerCollectionEnumerator::new(vec!["x".to_string(), "y".to_string()]);
    assert_eq!(e.MoveNext(), Ok(true));
    assert_eq!(e.Current(), "x");
    assert_eq!(e.MoveNext(), Ok(true));
    assert_eq!(e.Current(), "y");
    assert_eq!(e.MoveNext(), Ok(false));
    assert_eq!(e.MoveNext(), Ok(false));
    e.Dispose();
    assert_eq!(e.MoveNext(), Err(CnaError::InvalidInput(InputError::GamerEnumeratorDisposed)));
    assert_eq!(e.MoveNext(), Err(CnaError::InvalidInput(InputError::GamerEnumeratorDisposed)));
}

#[test]
fn gamer_collections_check_their_index_and_cache_elements() {
    assert_eq!(checked_gamer_index(3, 2, InputError::GamerIndexOutOfRange), Ok(2));
    assert_eq!(checked_gamer_index(3, 3, InputError::GamerIndexOutOfRange), Err(CnaError::InvalidInput(InputError::GamerIndexOutOfRange)));
    assert_eq!(checked_gamer_index(3, -1, InputError::GamerIndexOutOfRange), Err(CnaError::InvalidInput(InputError::GamerIndexOutOfRange)));
    let mut cache: GamerCollectionCache<u32> = GamerCollectionCache::new();
    assert_eq!(cache.lookup(2, 5, InputError::GamerIndexOutOfRange), Err(CnaError::InvalidInput(InputError::GamerIndexOutOfRange)));
    assert_eq!(cache.lookup(2, 1, InputError::GamerIndexOutOfRange), Ok(None));
    cache.store(1, 44);
    assert_eq!(cache.lookup(2, 1, InputError::GamerIndexOutOfRange), Ok(Some(44)));
    assert_eq!(cache.lookup(2, 0, InputError::GamerIndexOutOfRange), Ok(None));
}

#[test]
fn the_roster_cache_keeps_a_live_facade_for_the_same_gamertag() {
    let mut roster: RosterCache<(u32, bool)> = RosterCache::new();
    let first = roster.resolve(2, 0, "Alice".to_string(), (1, false), |g: &(u32, bool)| g.1);
    assert_eq!(first, (1, false));
    let again = roster.resolve(2, 0, "Alice".to_string(), (2, false), |g: &(u32, bool)| g.1);
    assert_eq!(again, (1, false));
    let other = roster.resolve(2, 0, "Bob".to_string(), (3, false), |g: &(u32, bool)| g.1);
    assert_eq!(other, (3, false));
    let released = roster.resolve(2, 0, "Bob".to_string(), (4, false), |_g: &(u32, bool)| true);
    assert_eq!(released, (4, false));
}

#[test]
fn owned_handles_release_once_and_restore_on_failure() {
    let mut handle = OwnedHandle::new(12);
    assert_eq!(handle.get(), Ok(12));
    assert!(!handle.is_released());
    assert_eq!(handle.begin_release(), Some(12));
    assert_eq!(handle.get(), Err(CnaError::InvalidInput(InputError::GamerObjectDisposed)));
    assert_eq!(handle.finish_release(12, Err(refusal())), Err(refusal()));
    assert_eq!(handle.get(), Ok(12));
    assert_eq!(handle.begin_release(), Some(12));
    assert_eq!(handle.finish_release(12, Ok(())), Ok(()));
    assert!(handle.is_released());
    assert_eq!(handle.begin_release(), None);
    assert!(OwnedHandle::borrowed_view().get().is_ok());
}

#[test]
fn native_text_is_cut_to_what_was_written_and_must_be_utf8() {
    assert_eq!(finish_text(b"hello\0\0\0".to_vec(), 5), Ok("hello".to_string()));
    assert_eq!(finish_text(b"hi".to_vec(), 10), Ok("hi".to_string()));
    assert_eq!(finish_text(vec![0xC3, 0xA9, 0x21], 3), Ok("\u{e9}!".to_string()));
    assert_eq!(finish_text(vec![0xC3, 0xA9], 1), Err(CnaError::InvalidInput(InputError::TextNotUtf8)));
    assert_eq!(finish_text(vec![0xFF], 1), Err(CnaError::InvalidInput(InputError::TextNotUtf8)));
    assert_eq!(text_capacity(16), Ok(16));
    assert_eq!(string_view_length("\u{e9}t\u{e9}"), Ok(5));
}

#[test]
fn clr_ticks_convert_to_unix_offsets() {
    assert_eq!(system_time_from_ticks(CLR_TICKS_AT_UNIX_EPOCH), UnixOffset { before_epoch: false, seconds: 0, nanos: 0 });
    assert_eq!(
        system_time_from_ticks(CLR_TICKS_AT_UNIX_EPOCH + 15_000_001),
        UnixOffset { before_epoch: false, seconds: 1, nanos: 500_000_100 }
    );
    assert_eq!(
        system_time_from_ticks(CLR_TICKS_AT_UNIX_EPOCH - 5_000_000),
        UnixOffset { before_epoch: true, seconds: 0, nanos: 500_000_000 }
    );
    assert_eq!(
        system_time_from_ticks(CLR_TICKS_AT_UNIX_EPOCH - 1),
        UnixOffset { before_epoch: true, seconds: 0, nanos: 100 }
    );
    assert_eq!(
        system_time_from_ticks(CLR_TICKS_AT_UNIX_EPOCH - 15_000_001),
        UnixOffset { before_epoch: true, seconds: 1, nanos: 500_000_100 }
    );
    assert_eq!(ticks_from_system_time(1, 500_000_150), Ok(CLR_TICKS_AT_UNIX_EPOCH + 15_000_001));
    assert_eq!(ticks_from_system_time(u64::MAX, 0), Err(CnaError::InvalidInput(InputError::TimestampOutsideTickRange)));
    let range = CnaError::InvalidInput(InputError::TimestampOutsideTickRange);
    let last_second: u64 = ((i64::MAX - CLR_TICKS_AT_UNIX_EPOCH) / 10_000_000) as u64;
    assert_eq!(ticks_from_system_time(last_second, 0), Ok(CLR_TICKS_AT_UNIX_EPOCH + last_second as i64 * 10_000_000));
    assert_eq!(ticks_from_system_time(last_second + 1, 0), Err(range));
    assert_eq!(ticks_from_system_time(i64::MAX as u64, 0), Err(range));
}

#[test]
fn leaderboard_keys_fill_the_native_field_and_come_back() {
    let field = encode_identity_key("Best Lap").expect("fits");
    assert_eq!(field.len(), IDENTITY_KEY_CAPACITY);
    assert_eq!(&field[..8], b"Best Lap");
    assert!(field[8..].iter().all(|b| *b == 0));
    assert_eq!(decode_identity_key(&field), Ok("Best Lap".to_string()));
    let long = "k".repeat(64);
    assert_eq!(encode_identity_key(&long), Err(CnaError::InvalidInput(InputError::LeaderboardKeyTooLong)));
    assert!(encode_identity_key(&"k".repeat(63)).is_ok());
    assert_eq!(decode_identity_key(&vec![0xFF, 0]), Err(CnaError::InvalidInput(InputError::TextNotUtf8)));
    assert_eq!(decode_identity_key(&b"abc".to_vec()), Ok("abc".to_string()));
}

#[test]
fn a_leaderboard_writer_reuses_the_entry_of_an_identity() {
    let mut cache: LeaderboardWriterCache<u32> = LeaderboardWriterCache::new();
    assert_eq!(cache.find("laps", 1), None);
    cache.insert("laps", 1, 7);
    assert_eq!(cache.find("laps", 1), Some(7));
    assert_eq!(cache.find("laps", 2), None);
    assert_eq!(cache.find("time", 1), None);
}

#[test]
fn avatar_expressions_round_trip_through_native_records() {
    let mut expression = AvatarExpression::new();
    assert_eq!(expression.Mouth(), AvatarMouth::Neutral);
    expression.SetMouth(AvatarMouth::Laughing);
    expression.SetLeftEye(AvatarEye::Sad);
    expression.SetRightEyebrow(AvatarEyebrow::Raised);
    let native = expression_to_native(expression);
    assert_eq!(native.mouth, 4);
    assert_eq!(native.left_eye, 1);
    assert_eq!(native.right_eyebrow, 4);
    assert_eq!(native_expression(&native), Ok(expression));
    let unknown = NativeAvatarExpression { mouth: 0, left_eye: 0, right_eye: 0, left_eyebrow: 0, right_eyebrow: 900 };
    assert_eq!(native_expression(&unknown), Err(CnaError::InvalidInput(InputError::UnknownAvatarExpression)));
}

#[test]
fn avatar_descriptions_are_cut_to_what_was_written() {
    assert_eq!(finish_description(vec![1, 2, 3, 4], 2), Ok(vec![1, 2]));
    assert_eq!(finish_description(vec![1, 2], 9), Ok(vec![1, 2]));
    assert_eq!(description_capacity(1000), Ok(1000));
    assert_eq!(description_length(&vec![0; 7]), Ok(7));
}

#[test]
fn exceptions_show_their_message_and_cause() {
    let plain = GameUpdateRequiredException::new();
    assert_eq!(plain.to_display_string(), "A required title update is not installed.");
    let caused = NetworkException::from_message_and_inner_exception("send failed", "connection reset");
    assert_eq!(caused.to_display_string(), "send failed: connection reset");
    assert_eq!(NetworkException::new().to_display_string(), "A network error occurred.");
    assert_eq!(GameUpdateRequiredException::from_info_and_context("saved", 3).to_display_string(), "saved");
}
