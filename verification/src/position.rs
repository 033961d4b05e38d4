//! Where along the strip a note lights up.

use vstd::prelude::*;
use crate::config::{table_view, Config, LedsSettings};

verus! {

/// Lowest note of the keyboard.
pub const FIRST_NOTE: u8 = 21;

/// Highest note of the keyboard.
pub const LAST_NOTE: u8 = 108;

/// Whether `note` is a key of the keyboard.
pub open spec fn on_keyboard(note: u8) -> bool {
    FIRST_NOTE <= note <= LAST_NOTE
}

/// Whether every row of the table holds a threshold and an offset.
pub open spec fn rows_complete(table: Seq<Seq<u8>>) -> bool {
    forall|i: int| 0 <= i < table.len() ==> (#[trigger] table[i]).len() >= 2
}

/// The offset of the first row whose threshold lies below `note`, or 0 where
/// no row has one.
pub open spec fn matching_offset(table: Seq<Seq<u8>>, note: u8) -> int
    decreases table.len(),
{
    if table.len() == 0 {
        0
    } else if note > table[0][0] {
        table[0][1] as int
    } else {
        matching_offset(table.skip(1), note)
    }
}

/// The position of `note` on a strip with the given settings: 0 for a note
/// that is no key of the keyboard; otherwise two LEDs per key counted from the
/// far end of the strip, corrected by the matching offset less the shift.
pub open spec fn note_position(leds: LedsSettings, note: u8) -> int {
    if on_keyboard(note) {
        leds.num_leds - (2 * (note - 20) - (matching_offset(leds.offsets, note) - leds.shift))
    } else {
        0
    }
}

/// Whether the position of `note` can be computed and is an index: the table
/// is complete where it is read, and the position is not negative and fits
/// the machine's index type.
pub open spec fn placeable(leds: LedsSettings, note: u8) -> bool {
    on_keyboard(note) ==> rows_complete(leds.offsets) && 0 <= note_position(leds, note)
        <= usize::MAX
}

/// Scans the table for the offset that applies to `note`.
fn find_offset(table: &Vec<Vec<u8>>, note: u8) -> (offset: u8)
    requires
        rows_complete(table_view(table@)),
    ensures
        offset == matching_offset(table_view(table@), note),
{
    let ghost rows = table_view(table@);
    let mut i: usize = 0;
    assert(rows.skip(0) =~= rows);
    while i < table.len()
        invariant
            i <= table.len(),
            rows == table_view(table@),
            rows_complete(rows),
            matching_offset(rows, note) == matching_offset(rows.skip(i as int), note),
        decreases table.len() - i,
    {
        let row = &table[i];
        proof {
            let rest = rows.skip(i as int);
            assert(rest[0] == rows[i as int]);
            assert(rows[i as int] == row@);
            assert(rest.skip(1) =~= rows.skip(i + 1));
        }
        if note > row[0] {
            return row[1];
        }
        i += 1;
    }
    0
}

/// Tells whether every row of the table holds a threshold and an offset.
fn table_is_complete(table: &Vec<Vec<u8>>) -> (complete: bool)
    ensures
        complete == rows_complete(table_view(table@)),
{
    let mut i: usize = 0;
    while i < table.len()
        invariant
            i <= table.len(),
            forall|j: int| 0 <= j < i ==> (#[trigger] table_view(table@)[j]).len() >= 2,
        decreases table.len() - i,
    {
        if table[i].len() < 2 {
            assert(table_view(table@)[i as int].len() < 2);
            return false;
        }
        i += 1;
    }
    true
}

/// The position of `note`, or `None` where it cannot be computed or is no
/// index.
pub fn try_note_position(note: u8, config: &Config) -> (position: Option<usize>)
    ensures
        position is Some <==> placeable(config@.leds, note),
        position matches Some(p) ==> p == note_position(config@.leds, note),
{
    if note < FIRST_NOTE || note > LAST_NOTE {
        return Some(0);
    }
    if !table_is_complete(&config.leds.offsets) {
        return None;
    }
    let offset: i128 = find_offset(&config.leds.offsets, note) as i128;
    let shift: i128 = config.leds.shift as i128;
    let raw: i128 = 2 * (note as i128 - 20) - (offset - shift);
    let position: i128 = config.leds.num_leds as i128 - raw;
    if position < 0 || position > usize::MAX as i128 {
        None
    } else {
        Some(position as usize)
    }
}

/// The position of `note` on the strip that `config` describes.
///
/// Notes below 21 or above 108 are placed at 0. The result is not held to
/// the strip's length: with a table that does not suit the strip it may lie
/// beyond the last LED.
pub fn get_note_position(note: u8, config: &Config) -> (position: usize)
    requires
        placeable(config@.leds, note),
    ensures
        position == note_position(config@.leds, note),
        note < 21 || note > 108 ==> position == 0,
{
    if note < FIRST_NOTE || note > LAST_NOTE {
        return 0;
    }
    let offset: i128 = find_offset(&config.leds.offsets, note) as i128;
    let shift: i128 = config.leds.shift as i128;
    let raw: i128 = 2 * (note as i128 - 20) - (offset - shift);
    (config.leds.num_leds as i128 - raw) as usize
}

/// Between two neighbouring keys to which the same offset applies, the
/// position falls by exactly two.
pub proof fn lemma_position_step(leds: LedsSettings, note: u8)
    requires
        on_keyboard(note),
        on_keyboard((note + 1) as u8),
        matching_offset(leds.offsets, note) == matching_offset(leds.offsets, (note + 1) as u8),
    ensures
        note_position(leds, (note + 1) as u8) == note_position(leds, note) - 2,
{
}

/// A note that is no key of the keyboard is placed at 0, whatever the
/// settings.
pub proof fn lemma_position_off_keyboard(leds: LedsSettings, note: u8)
    requires
        note < 21 || note > 108,
    ensures
        note_position(leds, note) == 0,
        placeable(leds, note),
{
}

} // verus!
