//! Leaderboards: the fixed-capacity key a leaderboard identity crosses to
//! the runtime in and comes back out of, the writer's one-entry-per-identity
//! cache, and the accessor kinds of a property value.

use vstd::prelude::*;
use vstd::string::StringSliceAdditionalSpecFns;
use vstd::utf8::{decode_utf8, valid_utf8};

use crate::error::{CnaError, InputError};
use crate::gamer_core::string_from_utf8;

verus! {

/// The bytes a native leaderboard identity holds for its key, terminator
/// included.
pub const IDENTITY_KEY_CAPACITY: usize = 64;

/// The native key field for key bytes that fit: the bytes, then zeros up
/// to the capacity.
pub open spec fn spec_encoded_key(bytes: Seq<u8>) -> Seq<u8> {
    Seq::new(IDENTITY_KEY_CAPACITY as nat, |i: int| if i < bytes.len() { bytes[i] } else { 0u8 })
}

/// The length of a key field's text: up to its first zero byte, or all of
/// it.
pub open spec fn spec_key_length(field: Seq<u8>) -> int
    decreases field.len(),
{
    if field.len() == 0 {
        0
    } else if field[0] == 0 {
        0
    } else {
        1 + spec_key_length(field.drop_first())
    }
}

/// Encodes a leaderboard key into the native key field, which must keep
/// room for the terminator.
pub fn encode_identity_key(key: &str) -> (r: Result<Vec<u8>, CnaError>)
    ensures
        key.spec_bytes().len() >= IDENTITY_KEY_CAPACITY ==> r == Err::<Vec<u8>, CnaError>(
            CnaError::InvalidInput(InputError::LeaderboardKeyTooLong),
        ),
        key.spec_bytes().len() < IDENTITY_KEY_CAPACITY ==> r is Ok && r->Ok_0@ == spec_encoded_key(key.spec_bytes()),
{
    let bytes = key.as_bytes();
    if bytes.len() >= IDENTITY_KEY_CAPACITY {
        return Err(CnaError::InvalidInput(InputError::LeaderboardKeyTooLong));
    }
    let mut field: Vec<u8> = Vec::new();
    let mut i: usize = 0;
    while i < IDENTITY_KEY_CAPACITY
        invariant
            i <= IDENTITY_KEY_CAPACITY,
            bytes@ == key.spec_bytes(),
            bytes@.len() < IDENTITY_KEY_CAPACITY,
            field@.len() == i,
            forall|j: int| 0 <= j < i ==> #[trigger] field@[j] == spec_encoded_key(bytes@)[j],
        decreases IDENTITY_KEY_CAPACITY - i,
    {
        let byte: u8 = if i < bytes.len() {
            bytes[i]
        } else {
            0
        };
        field.push(byte);
        i = i + 1;
    }
    assert(field@ =~= spec_encoded_key(bytes@));
    Ok(field)
}

proof fn lemma_key_length_step(field: Seq<u8>, i: int)
    requires
        0 <= i < field.len(),
        forall|j: int| 0 <= j < i ==> field[j] != 0,
    ensures
        field[i] == 0 ==> spec_key_length(field) == i,
        field[i] != 0 ==> forall|j: int| 0 <= j < i + 1 ==> field[j] != 0,
    decreases i,
{
    if i > 0 {
        lemma_key_length_step(field.drop_first(), i - 1);
    }
}

proof fn lemma_key_length_full(field: Seq<u8>)
    requires
        forall|j: int| 0 <= j < field.len() ==> field[j] != 0,
    ensures
        spec_key_length(field) == field.len(),
    decreases field.len(),
{
    if field.len() > 0 {
        lemma_key_length_full(field.drop_first());
    }
}

/// Decodes the native key field: the bytes before the first zero byte,
/// which must be valid UTF-8.
pub fn decode_identity_key(field: &Vec<u8>) -> (r: Result<String, CnaError>)
    ensures
        valid_utf8(field@.subrange(0, spec_key_length(field@))) ==> r is Ok && r->Ok_0@ == decode_utf8(
            field@.subrange(0, spec_key_length(field@)),
        ),
        !valid_utf8(field@.subrange(0, spec_key_length(field@))) ==> r == Err::<String, CnaError>(
            CnaError::InvalidInput(InputError::TextNotUtf8),
        ),
{
    let mut end: usize = 0;
    while end < field.len() && field[end] != 0
        invariant
            end <= field@.len(),
            forall|j: int| 0 <= j < end ==> field@[j] != 0,
        decreases field@.len() - end,
    {
        end = end + 1;
    }
    proof {
        if end == field@.len() {
            lemma_key_length_full(field@);
        } else {
            lemma_key_length_step(field@, end as int);
        }
    }
    let mut bytes: Vec<u8> = Vec::new();
    let mut i: usize = 0;
    while i < end
        invariant
            i <= end <= field@.len(),
            bytes@ == field@.subrange(0, i as int),
        decreases end - i,
    {
        bytes.push(field[i]);
        i = i + 1;
        assert(bytes@ =~= field@.subrange(0, i as int));
    }
    match string_from_utf8(bytes) {
        Some(text) => Ok(text),
        None => Err(CnaError::InvalidInput(InputError::TextNotUtf8)),
    }
}

/// A key that fits and holds no zero byte comes back unchanged from its
/// native key field.
pub proof fn law_identity_key_round_trip(key: &str)
    requires
        key.spec_bytes().len() < IDENTITY_KEY_CAPACITY,
        forall|j: int| 0 <= j < key.spec_bytes().len() ==> key.spec_bytes()[j] != 0,
    ensures
        spec_encoded_key(key.spec_bytes()).subrange(0, spec_key_length(spec_encoded_key(key.spec_bytes())))
            == key.spec_bytes(),
        valid_utf8(key.spec_bytes()),
        decode_utf8(key.spec_bytes()) == key@,
{
    let bytes = key.spec_bytes();
    let field = spec_encoded_key(bytes);
    let n = bytes.len() as int;
    assert forall|j: int| 0 <= j < n implies field[j] != 0 by {
        assert(field[j] == bytes[j]);
    }
    lemma_key_length_step(field, n);
    assert(field.subrange(0, n) =~= bytes);
    vstd::utf8::encode_utf8_valid_utf8(key@);
    vstd::utf8::encode_utf8_decode_utf8(key@);
}

/// The entries a leaderboard writer made, one per identity: the key, the
/// game mode, and the entry.
pub struct LeaderboardWriterCache<E> {
    entries: Vec<(String, i32, E)>,
}

impl<E> View for LeaderboardWriterCache<E> {
    type V = Seq<(Seq<char>, i32, E)>;

    closed spec fn view(&self) -> Seq<(Seq<char>, i32, E)> {
        Seq::new(self.entries@.len(), |i: int| (self.entries@[i].0@, self.entries@[i].1, self.entries@[i].2))
    }
}

impl<E: Clone> LeaderboardWriterCache<E> {
    /// No entry yet.
    pub fn new() -> (r: Self)
        ensures
            r@ == Seq::<(Seq<char>, i32, E)>::empty(),
    {
        LeaderboardWriterCache { entries: Vec::new() }
    }

    /// The entry the writer already made for an identity, cloned, so that
    /// a caller's edits accumulate on one entry; `None` asks the caller to
    /// create one and `insert` it.
    pub fn find(&self, key: &str, game_mode: i32) -> (r: Option<E>)
        ensures
            r is None <==> forall|i: int| 0 <= i < self@.len() ==> !(#[trigger] self@[i].0 == key@ && self@[i].1 == game_mode),
            r matches Some(e) ==> exists|i: int|
                0 <= i < self@.len() && self@[i].0 == key@ && self@[i].1 == game_mode && cloned(#[trigger] self@[i].2, e),
    {
        let wanted = String::from_str(key);
        let mut i: usize = 0;
        while i < self.entries.len()
            invariant
                i <= self.entries@.len(),
                wanted@ == key@,
                forall|j: int| 0 <= j < i ==> !(#[trigger] self@[j].0 == key@ && self@[j].1 == game_mode),
            decreases self.entries@.len() - i,
        {
            if self.entries[i].0 == wanted && self.entries[i].1 == game_mode {
                let found = self.entries[i].2.clone();
                assert(self@[i as int].0 == key@ && self@[i as int].1 == game_mode);
                assert(self@[i as int].2 == self.entries@[i as int].2);
                assert(cloned(self@[i as int].2, found));
                return Some(found);
            }
            i = i + 1;
        }
        None
    }

    /// Keeps the entry created for an identity.
    pub fn insert(&mut self, key: &str, game_mode: i32, entry: E)
        ensures
            final(self)@ == old(self)@.push((key@, game_mode, entry)),
    {
        self.entries.push((String::from_str(key), game_mode, entry));
        assert(self@ =~= old(self)@.push((key@, game_mode, entry)));
    }
}

/// Once an entry is kept for an identity, asking again finds an entry for
/// that identity.
pub proof fn law_writer_finds_what_it_kept<E>(entries: Seq<(Seq<char>, i32, E)>, key: Seq<char>, game_mode: i32, entry: E)
    ensures
        exists|i: int|
            0 <= i < entries.push((key, game_mode, entry)).len() && #[trigger] entries.push((key, game_mode, entry))[i].0 == key
                && entries.push((key, game_mode, entry))[i].1 == game_mode,
{
    let pushed = entries.push((key, game_mode, entry));
    assert(pushed[entries.len() as int].0 == key);
}

/// Which typed accessor reads one property value.
#[derive(Clone, Copy, Debug, Eq, Hash, PartialEq, Structural)]
pub enum PropertyValueKind {
    Int32,
    Int64,
    Single,
    Double,
    String,
    Outcome,
    DateTime,
    TimeSpan,
    Stream,
}

} // verus!
