//! Sprite fonts: the tables a font is built from and must agree on, the
//! UTF-16 code units its characters cross to the runtime in, and the checks
//! on what the runtime reads back.

use vstd::prelude::*;

use crate::buffer::CreationStep;
use crate::error::{CnaError, InputError};

verus! {

/// Whether a code point is a Unicode scalar value.
pub open spec fn is_scalar_value(value: u32) -> bool {
    value <= 0xD7FF || (0xE000 <= value && value <= 0x10FFFF)
}

/// The character a code point names, or `None` for a surrogate or a value
/// past the Unicode range.
///
/// Wraps std's `char::from_u32`, which std documents as answering `None`
/// exactly for values that are not valid `char`s: surrogates and values
/// above `0x10FFFF`.
#[verifier::external_body]
fn char_from_u32(value: u32) -> (r: Option<char>)
    ensures
        r is Some <==> is_scalar_value(value),
        r matches Some(c) ==> c as u32 == value,
{
    char::from_u32(value)
}

/// A character as XNA's UTF-16 `char`: it must fit one code unit.
pub fn char16(value: char) -> (r: Result<u16, CnaError>)
    ensures
        (value as u32) <= 0xFFFF ==> r == Ok::<u16, CnaError>(value as u16),
        (value as u32) > 0xFFFF ==> r == Err::<u16, CnaError>(CnaError::InvalidInput(InputError::FontCharacterNotUtf16)),
{
    let code: u32 = value as u32;
    if code > 0xFFFF {
        return Err(CnaError::InvalidInput(InputError::FontCharacterNotUtf16));
    }
    Ok(code as u16)
}

/// Every character as a UTF-16 code unit, in order; refused at the first
/// one that does not fit.
pub fn native_characters(characters: &Vec<char>) -> (r: Result<Vec<u16>, CnaError>)
    ensures
        r is Ok <==> forall|i: int| 0 <= i < characters@.len() ==> (#[trigger] characters@[i] as u32) <= 0xFFFF,
        r is Err ==> r == Err::<Vec<u16>, CnaError>(CnaError::InvalidInput(InputError::FontCharacterNotUtf16)),
        r matches Ok(units) ==> units@.len() == characters@.len() && forall|i: int|
            0 <= i < characters@.len() ==> #[trigger] units@[i] == characters@[i] as u16,
{
    let mut units: Vec<u16> = Vec::new();
    let mut i: usize = 0;
    while i < characters.len()
        invariant
            i <= characters@.len(),
            units@.len() == i,
            forall|j: int| 0 <= j < i ==> (#[trigger] characters@[j] as u32) <= 0xFFFF,
            forall|j: int| 0 <= j < i ==> #[trigger] units@[j] == characters@[j] as u16,
        decreases characters@.len() - i,
    {
        let unit = char16(characters[i])?;
        units.push(unit);
        i = i + 1;
    }
    Ok(units)
}

fn contains_char(characters: &Vec<char>, value: char) -> (r: bool)
    ensures
        r == characters@.contains(value),
{
    let mut i: usize = 0;
    while i < characters.len()
        invariant
            i <= characters@.len(),
            forall|j: int| 0 <= j < i ==> characters@[j] != value,
        decreases characters@.len() - i,
    {
        if characters[i] == value {
            return true;
        }
        i = i + 1;
    }
    false
}

/// The verdict on a default character: it must be one of the font's.
pub open spec fn spec_default_character_check(characters: Seq<char>, default_character: Option<char>) -> Result<(), CnaError> {
    match default_character {
        Some(c) => if characters.contains(c) {
            Ok(())
        } else {
            Err(CnaError::InvalidInput(InputError::DefaultCharacterAbsent))
        },
        None => Ok(()),
    }
}

/// Checks that a default character, if any, is one of the font's.
pub fn check_default_character(characters: &Vec<char>, default_character: Option<char>) -> (r: Result<(), CnaError>)
    ensures
        r == spec_default_character_check(characters@, default_character),
{
    match default_character {
        Some(c) => {
            if !contains_char(characters, c) {
                return Err(CnaError::InvalidInput(InputError::DefaultCharacterAbsent));
            }
            Ok(())
        },
        None => Ok(()),
    }
}

/// Checks the tables a font is built from: one glyph, one cropping and one
/// kerning per character, at least one character, finite spacing and
/// kerning (`finite` is that check's answer), and a default character from
/// the map.
pub fn validate_font_tables(
    characters: &Vec<char>,
    glyph_count: usize,
    cropping_count: usize,
    kerning_count: usize,
    finite: bool,
    default_character: Option<char>,
) -> (r: Result<(), CnaError>)
    ensures
        (characters@.len() == 0 || glyph_count != characters@.len() || cropping_count != characters@.len()
            || kerning_count != characters@.len()) ==> r == Err::<(), CnaError>(CnaError::InvalidInput(InputError::FontTablesMismatch)),
        !(characters@.len() == 0 || glyph_count != characters@.len() || cropping_count != characters@.len()
            || kerning_count != characters@.len()) && !finite ==> r == Err::<(), CnaError>(
            CnaError::InvalidInput(InputError::FontValuesNotFinite),
        ),
        !(characters@.len() == 0 || glyph_count != characters@.len() || cropping_count != characters@.len()
            || kerning_count != characters@.len()) && finite ==> r == spec_default_character_check(characters@, default_character),
{
    let count = characters.len();
    if count == 0 || glyph_count != count || cropping_count != count || kerning_count != count {
        return Err(CnaError::InvalidInput(InputError::FontTablesMismatch));
    }
    if !finite {
        return Err(CnaError::InvalidInput(InputError::FontValuesNotFinite));
    }
    check_default_character(characters, default_character)
}

/// Checks that a built font reports as many characters as its source
/// table.
pub fn check_built_character_count(reported: u64, source_length: usize) -> (r: Result<(), CnaError>)
    ensures
        reported == source_length ==> r is Ok,
        reported != source_length ==> r == Err::<(), CnaError>(CnaError::InvalidInput(InputError::FontCountDisagrees)),
{
    if reported != source_length as u64 {
        return Err(CnaError::InvalidInput(InputError::FontCountDisagrees));
    }
    Ok(())
}

fn same_units(a: &Vec<u16>, b: &Vec<u16>) -> (r: bool)
    ensures
        r == (a@ == b@),
{
    if a.len() != b.len() {
        return false;
    }
    let mut i: usize = 0;
    while i < a.len()
        invariant
            i <= a@.len(),
            a@.len() == b@.len(),
            forall|j: int| 0 <= j < i ==> a@[j] == b@[j],
        decreases a@.len() - i,
    {
        if a[i] != b[i] {
            return false;
        }
        i = i + 1;
    }
    assert(a@ =~= b@);
    true
}

/// Checks that a built font's character table came back as it went in.
pub fn check_character_round_trip(copied_count: u64, reported: u64, copied: &Vec<u16>, source: &Vec<u16>) -> (r: Result<(), CnaError>)
    ensures
        (copied_count == reported && copied@ == source@) ==> r is Ok,
        !(copied_count == reported && copied@ == source@) ==> r == Err::<(), CnaError>(
            CnaError::InvalidInput(InputError::FontCharactersNotRoundTripped),
        ),
{
    if copied_count != reported || !same_units(copied, source) {
        return Err(CnaError::InvalidInput(InputError::FontCharactersNotRoundTripped));
    }
    Ok(())
}

/// Checks that a built font's glyph table came back as it went in
/// (`glyphs_equal` is the comparison of the copied table with the source).
pub fn check_glyph_round_trip(copied_count: u64, reported: u64, glyphs_equal: bool) -> (r: Result<(), CnaError>)
    ensures
        (copied_count == reported && glyphs_equal) ==> r is Ok,
        !(copied_count == reported && glyphs_equal) ==> r == Err::<(), CnaError>(
            CnaError::InvalidInput(InputError::FontGlyphsNotRoundTripped),
        ),
{
    if copied_count != reported || !glyphs_equal {
        return Err(CnaError::InvalidInput(InputError::FontGlyphsNotRoundTripped));
    }
    Ok(())
}

/// The character count a loaded font reports, as a table length: it must
/// fit memory and be at least one.
pub fn readback_character_count(count: u64) -> (r: Result<usize, CnaError>)
    ensures
        count > usize::MAX ==> r == Err::<usize, CnaError>(CnaError::InvalidInput(InputError::FontTooManyCharacters)),
        count == 0 ==> r == Err::<usize, CnaError>(CnaError::InvalidInput(InputError::FontHasNoCharacters)),
        0 < count <= usize::MAX ==> r == Ok::<usize, CnaError>(count as usize),
{
    if count > usize::MAX as u64 {
        return Err(CnaError::InvalidInput(InputError::FontTooManyCharacters));
    }
    if count == 0 {
        return Err(CnaError::InvalidInput(InputError::FontHasNoCharacters));
    }
    Ok(count as usize)
}

/// Checks that both tables of a loaded font hold as many entries as it
/// reports.
pub fn check_readback_counts(copied: u64, glyph_count: u64, count: u64) -> (r: Result<(), CnaError>)
    ensures
        (copied == count && glyph_count == count) ==> r is Ok,
        !(copied == count && glyph_count == count) ==> r == Err::<(), CnaError>(
            CnaError::InvalidInput(InputError::FontTablesDisagreeWithCount),
        ),
{
    if copied != count || glyph_count != count {
        return Err(CnaError::InvalidInput(InputError::FontTablesDisagreeWithCount));
    }
    Ok(())
}

/// The characters of a loaded font's table; refused at the first code unit
/// that is not a Unicode scalar value.
pub fn characters_from_native(units: &Vec<u16>) -> (r: Result<Vec<char>, CnaError>)
    ensures
        r is Ok <==> forall|i: int| 0 <= i < units@.len() ==> is_scalar_value(#[trigger] units@[i] as u32),
        r is Err ==> r == Err::<Vec<char>, CnaError>(CnaError::InvalidInput(InputError::FontCharacterNotScalar)),
        r matches Ok(chars) ==> chars@.len() == units@.len() && forall|i: int|
            0 <= i < units@.len() ==> #[trigger] chars@[i] as u32 == units@[i] as u32,
{
    let mut chars: Vec<char> = Vec::new();
    let mut i: usize = 0;
    while i < units.len()
        invariant
            i <= units@.len(),
            chars@.len() == i,
            forall|j: int| 0 <= j < i ==> is_scalar_value(#[trigger] units@[j] as u32),
            forall|j: int| 0 <= j < i ==> #[trigger] chars@[j] as u32 == units@[j] as u32,
        decreases units@.len() - i,
    {
        match char_from_u32(units[i] as u32) {
            Some(c) => chars.push(c),
            None => return Err(CnaError::InvalidInput(InputError::FontCharacterNotScalar)),
        }
        i = i + 1;
    }
    Ok(chars)
}

/// The default character a loaded font reports, if it has one.
pub fn default_character_from_native(has_default: bool, value: u16) -> (r: Result<Option<char>, CnaError>)
    ensures
        !has_default ==> r == Ok::<Option<char>, CnaError>(None),
        has_default && !is_scalar_value(value as u32) ==> r == Err::<Option<char>, CnaError>(
            CnaError::InvalidInput(InputError::FontDefaultNotScalar),
        ),
        has_default && is_scalar_value(value as u32) ==> r is Ok && r->Ok_0 is Some && (r->Ok_0)->0 as u32 == value as u32,
{
    if !has_default {
        return Ok(None);
    }
    match char_from_u32(value as u32) {
        Some(c) => Ok(Some(c)),
        None => Err(CnaError::InvalidInput(InputError::FontDefaultNotScalar)),
    }
}

/// A character table of UTF-16 characters goes to the runtime and comes
/// back as the same characters.
pub proof fn law_font_characters_round_trip(c: char)
    requires
        (c as u32) <= 0xFFFF,
    ensures
        is_scalar_value((c as u16) as u32),
        ((c as u16) as u32) == c as u32,
{
}

/// A native font after the checks made on it once it exists: a font built
/// from tables that the runtime does not give back exactly, or a loaded
/// font whose tables cannot be read back, is destroyed and the check's
/// error answered; a font that passed is adopted.
pub fn settle_font<F>(handle: u64, checked: Result<F, CnaError>) -> (r: CreationStep<F>)
    ensures
        checked matches Err(e) ==> r == CreationStep::<F>::DestroyAndFail(handle, e),
        checked matches Ok(font) ==> r == CreationStep::<F>::Adopt(font),
{
    match checked {
        Err(error) => CreationStep::DestroyAndFail(handle, error),
        Ok(font) => CreationStep::Adopt(font),
    }
}

} // verus!
