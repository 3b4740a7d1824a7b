//! The food source: what it sends, what its background worker does on each
//! round, and a stand-in source that makes its answers up.

use crate::dice::choose_one;
use crate::sprite::SUBPIXELS;
use rand::rngs::StdRng;
use vstd::prelude::*;

verus! {

/// The side of the sprites that the stand-in source describes, in pixels.
pub const DEBUG_SIDE: i32 = 25;

/// The stand-in source places sprites at whole pixels from 1 up to, not
/// including, this many.
pub const DEBUG_PLACE_END: u32 = 400;

/// The stand-in source picks colour channels from 1 up to, not including,
/// this value.
pub const DEBUG_COLOR_END: u32 = 255;

/// The stand-in source takes from 1 up to, not including, this many seconds
/// to answer.
pub const DEBUG_DELAY_END: u32 = 5;

/// What the food source says of one sprite. `x` and `y` are in subpixels,
/// `width` and `height` in pixels.
#[derive(Clone, Copy, Debug, PartialEq, Eq, Structural)]
pub struct SpriteData {
    pub width: i32,
    pub height: i32,
    pub x: i32,
    pub y: i32,
    pub r: i32,
    pub g: i32,
    pub b: i32,
}

/// What the background worker does next.
#[derive(Clone, Copy, Debug, PartialEq, Eq, Structural)]
pub enum WorkerStep {
    /// Hang up and end. Requests still waiting are dropped unanswered.
    Exit,
    /// Start this many fetches, one for each request that was waiting, each
    /// on its own, then sleep until the next round.
    Launch(usize),
}

/// One round of the background worker. `running` is the game's flag as the
/// worker reads it at the start of the round; `pending` is the number of
/// requests waiting.
///
/// A worker that finds the game stopped ends at once, whatever is waiting: a
/// request sent after the game stopped is never served.
pub fn worker_round(running: bool, pending: usize) -> (step: WorkerStep)
    ensures
        step == if running {
            WorkerStep::Launch(pending)
        } else {
            WorkerStep::Exit
        },
{
    if running {
        WorkerStep::Launch(pending)
    } else {
        WorkerStep::Exit
    }
}

/// An answer of the stand-in source and the seconds it takes to arrive.
#[derive(Clone, Copy, Debug, PartialEq, Eq, Structural)]
pub struct DebugFetch {
    pub data: SpriteData,
    pub delay_secs: u32,
}

/// Whether a coordinate is one the stand-in source uses: a whole pixel from 1
/// up to, not including, [`DEBUG_PLACE_END`].
pub open spec fn on_debug_grid(at: int) -> bool {
    at % (SUBPIXELS as int) == 0 && SUBPIXELS <= at < DEBUG_PLACE_END * SUBPIXELS
}

/// What every answer of the stand-in source looks like.
pub open spec fn is_debug_fetch(fetch: DebugFetch) -> bool {
    &&& fetch.data.width == DEBUG_SIDE
    &&& fetch.data.height == DEBUG_SIDE
    &&& on_debug_grid(fetch.data.x as int)
    &&& on_debug_grid(fetch.data.y as int)
    &&& 1 <= fetch.data.r < DEBUG_COLOR_END
    &&& 1 <= fetch.data.g < DEBUG_COLOR_END
    &&& 1 <= fetch.data.b < DEBUG_COLOR_END
    &&& 1 <= fetch.delay_secs < DEBUG_DELAY_END
}

/// The numbers from `low` up to `high`, not including it.
fn span(low: u32, high: u32) -> (items: Vec<u32>)
    requires
        low <= high,
    ensures
        items@.len() == high - low,
        forall|i: int| 0 <= i < items@.len() ==> items@[i] == low + i,
{
    let mut items: Vec<u32> = Vec::new();
    let mut next: u32 = low;
    while next < high
        invariant
            low <= next <= high,
            items@.len() == next - low,
            forall|i: int| 0 <= i < items@.len() ==> items@[i] == low + i,
        decreases high - next,
    {
        items.push(next);
        next += 1;
    }
    items
}

/// Picks a number from `low` up to `high`, not including it.
fn pick_between(rng: &mut StdRng, low: u32, high: u32) -> (pick: u32)
    requires
        low < high,
    ensures
        low <= pick < high,
{
    let items = span(low, high);
    chosen_or(choose_one(rng, &items), low)
}

/// What a choice comes to: the value chosen or, where there was nothing to
/// choose from, the fallback.
fn chosen_or(choice: Option<u32>, fallback: u32) -> (pick: u32)
    ensures
        pick == match choice {
            Some(value) => value,
            None => fallback,
        },
{
    match choice {
        Some(value) => value,
        None => fallback,
    }
}

/// Makes up an answer as the stand-in source gives it: a sprite of the usual
/// size at a random whole pixel, in a random colour, after a random delay.
pub fn debug_fetch(rng: &mut StdRng) -> (fetch: DebugFetch)
    ensures
        is_debug_fetch(fetch),
{
    let x_px: u32 = pick_between(rng, 1, DEBUG_PLACE_END);
    let y_px: u32 = pick_between(rng, 1, DEBUG_PLACE_END);
    let r: u32 = pick_between(rng, 1, DEBUG_COLOR_END);
    let g: u32 = pick_between(rng, 1, DEBUG_COLOR_END);
    let b: u32 = pick_between(rng, 1, DEBUG_COLOR_END);
    let delay_secs: u32 = pick_between(rng, 1, DEBUG_DELAY_END);
    let data = debug_sprite(x_px as u16, y_px as u16, r as u8, g as u8, b as u8);
    DebugFetch { data, delay_secs }
}

/// The sprite that the stand-in source describes for the given picks.
pub open spec fn debug_sprite_spec(x_px: u16, y_px: u16, r: u8, g: u8, b: u8) -> SpriteData {
    SpriteData {
        width: DEBUG_SIDE,
        height: DEBUG_SIDE,
        x: (x_px * SUBPIXELS) as i32,
        y: (y_px * SUBPIXELS) as i32,
        r: r as i32,
        g: g as i32,
        b: b as i32,
    }
}

/// Builds the stand-in source's answer from its picks: a place in whole
/// pixels and a colour.
pub fn debug_sprite(x_px: u16, y_px: u16, r: u8, g: u8, b: u8) -> (data: SpriteData)
    ensures
        data == debug_sprite_spec(x_px, y_px, r, g, b),
{
    SpriteData {
        width: DEBUG_SIDE,
        height: DEBUG_SIDE,
        x: x_px as i32 * 100,
        y: y_px as i32 * 100,
        r: r as i32,
        g: g as i32,
        b: b as i32,
    }
}

} // verus!
