//! Rectangles on the play field and the corner test that decides whether two
//! of them touch.

use vstd::prelude::*;

verus! {

/// Position units per pixel.
pub const SUBPIXELS: i64 = 100;

/// A coloured rectangle. `x` and `y` give its top-left corner in subpixels,
/// `width` and `height` its size in pixels.
#[derive(Clone, Copy, Debug, PartialEq, Eq, Structural)]
pub struct Sprite {
    pub width: i32,
    pub height: i32,
    pub r: i32,
    pub g: i32,
    pub b: i32,
    pub x: i64,
    pub y: i64,
}

/// The play field: its size and the margin by which a sprite may leave it
/// before it wraps, all in pixels.
#[derive(Clone, Copy, Debug, PartialEq, Eq, Structural)]
pub struct Window {
    pub width: i32,
    pub height: i32,
    pub sprite_side: i32,
}

/// One segment of a snake's body. A segment owns its sprite; two segments
/// never share one.
#[derive(Clone, Copy, Debug, PartialEq, Eq, Structural)]
pub struct GameSprite {
    pub sprite: Sprite,
}

impl Sprite {
    /// The left edge, in subpixels.
    pub open spec fn left(self) -> int {
        self.x as int
    }

    /// The right edge, in subpixels.
    pub open spec fn right(self) -> int {
        self.x + self.width * SUBPIXELS
    }

    /// The top edge, in subpixels.
    pub open spec fn top(self) -> int {
        self.y as int
    }

    /// The bottom edge, in subpixels.
    pub open spec fn bottom(self) -> int {
        self.y + self.height * SUBPIXELS
    }

    /// Whether the point lies in the rectangle. The right edge belongs to the
    /// rectangle, the bottom edge does not.
    pub open spec fn holds_point(self, px: int, py: int) -> bool {
        self.left() <= px <= self.right() && self.top() <= py < self.bottom()
    }

    /// The same sprite at another place.
    pub open spec fn moved_to(self, x: i64, y: i64) -> Sprite {
        Sprite { x, y, ..self }
    }

    /// A copy of the sprite at another place: same size, same colour.
    pub fn duplicate_at(&self, x: i64, y: i64) -> (copy: Sprite)
        ensures
            copy == self.moved_to(x, y),
    {
        Sprite { width: self.width, height: self.height, r: self.r, g: self.g, b: self.b, x, y }
    }
}

impl GameSprite {
    /// Wraps a sprite as a body segment.
    pub fn from_sprite(sprite: Sprite) -> (segment: GameSprite)
        ensures
            segment.sprite == sprite,
    {
        GameSprite { sprite }
    }
}

/// Corner containment: some corner of `probe` lies in `container`.
///
/// This is not rectangle intersection. A probe that surrounds the container
/// has all four corners outside it and does not overlap it, although the
/// container, taken as the probe, overlaps the other.
pub open spec fn overlaps_spec(container: Sprite, probe: Sprite) -> bool {
    ||| container.holds_point(probe.left(), probe.top())
    ||| container.holds_point(probe.right(), probe.top())
    ||| container.holds_point(probe.left(), probe.bottom())
    ||| container.holds_point(probe.right(), probe.bottom())
}

/// Tests whether `probe` overlaps `container`, by corner containment.
pub fn overlaps(container: &Sprite, probe: &Sprite) -> (hit: bool)
    ensures
        hit == overlaps_spec(*container, *probe),
{
    let unit: i128 = SUBPIXELS as i128;
    let x1: i128 = container.x as i128;
    let y1: i128 = container.y as i128;
    let right1: i128 = x1 + container.width as i128 * unit;
    let bottom1: i128 = y1 + container.height as i128 * unit;
    let x2: i128 = probe.x as i128;
    let y2: i128 = probe.y as i128;
    let right2: i128 = x2 + probe.width as i128 * unit;
    let bottom2: i128 = y2 + probe.height as i128 * unit;
    let x_left_in: bool = x1 <= x2 && x2 <= right1;
    let x_right_in: bool = x1 <= right2 && right2 <= right1;
    let y_top_in: bool = y1 <= y2 && y2 < bottom1;
    let y_bottom_in: bool = y1 <= bottom2 && bottom2 < bottom1;
    (x_left_in || x_right_in) && (y_top_in || y_bottom_in)
}

/// The test is one-sided. A probe that reaches past the container on the left
/// and on the right has no corner in it and does not overlap it, however the
/// two lie otherwise; yet if the probe encloses the container, the container,
/// taken as the probe, overlaps the other as soon as it has a width and some
/// height.
pub proof fn lemma_enclosing_probe_misses(container: Sprite, probe: Sprite)
    requires
        probe.left() < container.left(),
        container.right() < probe.right(),
    ensures
        !overlaps_spec(container, probe),
        probe.top() <= container.top() && container.bottom() <= probe.bottom() && container.width
            >= 0 && container.height > 0 ==> overlaps_spec(probe, container),
{
}

} // verus!
