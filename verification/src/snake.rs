//! The snake: a trail of sprites with the head in front, a course, and the
//! rules by which it moves, wraps round the field and grows.

use crate::dice::{os_seeded, sample_inclusive, seeded};
use crate::sprite::{GameSprite, Sprite, Window, SUBPIXELS};
use rand::rngs::StdRng;
use std::collections::VecDeque;
use vstd::prelude::*;

verus! {

/// Steps a snake advances per tick.
pub const SNAKE_SPEED: i32 = 3;

/// The stride of a new snake: one pixel.
pub const INITIAL_STRIDE: i64 = 100;

/// What each growth adds to the stride: a fiftieth of a pixel.
pub const STRIDE_GROWTH: i64 = 2;

/// The stride grows no further than this.
pub const MAX_STRIDE: i64 = 0x2000_0000_0000_0000;

/// Segments lie within this distance of the origin on both axes.
pub const POSITION_LIMIT: i64 = 0x4000_0000_0000_0000;

/// The largest draw that decides an autonomous snake's course.
pub const DRAW_MAX: u8 = 50;

/// The course of a snake's head.
#[derive(Clone, Copy, Debug, PartialEq, Eq, Structural)]
pub enum Direction {
    Up,
    Down,
    Left,
    Right,
}

/// Who steers a snake, and whether bad food kills it.
#[derive(Clone, Copy, Debug, PartialEq, Eq, Structural)]
pub enum SnakeKind {
    /// Steered by the keyboard; dies of bad food.
    User,
    /// Steered by the keyboard alongside the user's snake; survives bad food.
    Buddy,
    /// Roams on its own; survives bad food and scores nothing.
    Autonomous,
}

/// The arrow keys held down when the keyboard was sampled.
#[derive(Clone, Copy, Debug, PartialEq, Eq, Structural)]
pub struct Keys {
    pub left: bool,
    pub right: bool,
    pub up: bool,
    pub down: bool,
}

/// The turn that a draw stands for: 47 to 50 turn left, right, up and down,
/// every other draw keeps the course.
pub open spec fn turn_for_draw_spec(draw: u8) -> Option<Direction> {
    if draw == 47 {
        Some(Direction::Left)
    } else if draw == 48 {
        Some(Direction::Right)
    } else if draw == 49 {
        Some(Direction::Up)
    } else if draw == 50 {
        Some(Direction::Down)
    } else {
        None
    }
}

/// The course after the keyboard has had its say. The keys are heard in the
/// order left, right, up, down, so of several held keys the last one wins.
pub open spec fn keyed_direction_spec(current: Direction, keys: Keys) -> Direction {
    if keys.down {
        Direction::Down
    } else if keys.up {
        Direction::Up
    } else if keys.right {
        Direction::Right
    } else if keys.left {
        Direction::Left
    } else {
        current
    }
}

/// The course of a snake of the given kind after one update: autonomous
/// snakes follow the draw, the others the keyboard.
pub open spec fn steered_direction(
    kind: SnakeKind,
    current: Direction,
    keys: Keys,
    draw: u8,
) -> Direction {
    match kind {
        SnakeKind::Autonomous => match turn_for_draw_spec(draw) {
            Some(turn) => turn,
            None => current,
        },
        _ => keyed_direction_spec(current, keys),
    }
}

/// Where a coordinate goes on a step towards the low edge: back to the far
/// edge (`extent` pixels) once it has passed the margin, else down by the
/// stride.
pub open spec fn step_back(at: int, margin: int, extent: int, stride: int) -> int {
    if at < -(margin * SUBPIXELS) {
        extent * SUBPIXELS
    } else {
        at - stride
    }
}

/// Where a coordinate goes on a step towards the far edge: back behind the
/// low edge by the margin once it has passed `extent` pixels, else up by the
/// stride.
pub open spec fn step_forth(at: int, margin: int, extent: int, stride: int) -> int {
    if at > extent * SUBPIXELS {
        -(margin * SUBPIXELS)
    } else {
        at + stride
    }
}

/// The sprite that becomes the head when a snake with head `head` takes one
/// step: a copy of the head, moved along the course, wrapped at the edge.
pub open spec fn next_head_spec(
    head: Sprite,
    direction: Direction,
    window: Window,
    stride: int,
) -> Sprite {
    let margin = window.sprite_side as int;
    match direction {
        Direction::Left => head.moved_to(
            step_back(head.x as int, margin, window.width as int, stride) as i64,
            head.y,
        ),
        Direction::Right => head.moved_to(
            step_forth(head.x as int, margin, window.width as int, stride) as i64,
            head.y,
        ),
        Direction::Up => head.moved_to(
            head.x,
            step_back(head.y as int, margin, window.height as int, stride) as i64,
        ),
        Direction::Down => head.moved_to(
            head.x,
            step_forth(head.y as int, margin, window.height as int, stride) as i64,
        ),
    }
}

/// Whether a sprite lies within the position limit.
pub open spec fn in_reach(sprite: Sprite) -> bool {
    &&& -POSITION_LIMIT <= sprite.x <= POSITION_LIMIT
    &&& -POSITION_LIMIT <= sprite.y <= POSITION_LIMIT
}

/// Whether a stride is one a snake can have.
pub open spec fn stride_ok(stride: int) -> bool {
    INITIAL_STRIDE <= stride <= MAX_STRIDE
}

/// Decodes a draw into a turn.
pub fn turn_for_draw(draw: u8) -> (turn: Option<Direction>)
    ensures
        turn == turn_for_draw_spec(draw),
{
    if draw == 47 {
        Some(Direction::Left)
    } else if draw == 48 {
        Some(Direction::Right)
    } else if draw == 49 {
        Some(Direction::Up)
    } else if draw == 50 {
        Some(Direction::Down)
    } else {
        None
    }
}

/// Draws the next turn of an autonomous snake: a uniform draw from 0 to
/// [`DRAW_MAX`], decoded by [`turn_for_draw`].
pub fn sample_turn(rng: &mut StdRng) -> (turn: Option<Direction>)
    ensures
        exists|draw: u8| draw <= DRAW_MAX && turn == turn_for_draw_spec(draw),
{
    let draw: u8 = sample_inclusive(rng, 0, DRAW_MAX);
    turn_for_draw(draw)
}

/// Applies the keyboard to a course.
pub fn keyed_direction(current: Direction, keys: &Keys) -> (course: Direction)
    ensures
        course == keyed_direction_spec(current, *keys),
{
    let mut course = current;
    if keys.left {
        course = Direction::Left;
    }
    if keys.right {
        course = Direction::Right;
    }
    if keys.up {
        course = Direction::Up;
    }
    if keys.down {
        course = Direction::Down;
    }
    course
}

/// One step of a coordinate towards the low edge.
fn go_back(at: i64, margin: i32, extent: i32, stride: i64) -> (to: i64)
    requires
        -POSITION_LIMIT <= at <= POSITION_LIMIT,
        0 <= stride <= MAX_STRIDE,
    ensures
        to == step_back(at as int, margin as int, extent as int, stride as int),
        -POSITION_LIMIT <= to <= POSITION_LIMIT,
{
    if at < -(margin as i64 * SUBPIXELS) {
        extent as i64 * SUBPIXELS
    } else {
        at - stride
    }
}

/// One step of a coordinate towards the far edge.
fn go_forth(at: i64, margin: i32, extent: i32, stride: i64) -> (to: i64)
    requires
        -POSITION_LIMIT <= at <= POSITION_LIMIT,
        0 <= stride <= MAX_STRIDE,
    ensures
        to == step_forth(at as int, margin as int, extent as int, stride as int),
        -POSITION_LIMIT <= to <= POSITION_LIMIT,
{
    if at > extent as i64 * SUBPIXELS {
        -(margin as i64 * SUBPIXELS)
    } else {
        at + stride
    }
}

/// Computes the head that one step along `direction` puts in front of `head`.
pub fn next_head(head: &Sprite, direction: Direction, window: &Window, stride: i64) -> (next:
    Sprite)
    requires
        in_reach(*head),
        0 <= stride <= MAX_STRIDE,
    ensures
        next == next_head_spec(*head, direction, *window, stride as int),
        in_reach(next),
{
    match direction {
        Direction::Left => {
            let x: i64 = go_back(head.x, window.sprite_side, window.width, stride);
            head.duplicate_at(x, head.y)
        },
        Direction::Right => {
            let x: i64 = go_forth(head.x, window.sprite_side, window.width, stride);
            head.duplicate_at(x, head.y)
        },
        Direction::Up => {
            let y: i64 = go_back(head.y, window.sprite_side, window.height, stride);
            head.duplicate_at(head.x, y)
        },
        Direction::Down => {
            let y: i64 = go_forth(head.y, window.sprite_side, window.height, stride);
            head.duplicate_at(head.x, y)
        },
    }
}

/// Wraparound. A head that has passed the low margin comes back at the far
/// edge of the field, exactly, and one that has passed the far edge comes
/// back behind the low edge by the margin, exactly: whatever the field, the
/// margin and the stride. So a head at one pixel past the left margin,
/// moving left, is next at the field's width.
pub proof fn lemma_wraps_at_the_edges(head: Sprite, window: Window, stride: int)
    ensures
        head.x < -(window.sprite_side * SUBPIXELS) ==> {
            &&& next_head_spec(head, Direction::Left, window, stride).x == window.width * SUBPIXELS
            &&& next_head_spec(head, Direction::Left, window, stride).y == head.y
        },
        head.x > window.width * SUBPIXELS ==> {
            &&& next_head_spec(head, Direction::Right, window, stride).x == -(window.sprite_side
                * SUBPIXELS)
            &&& next_head_spec(head, Direction::Right, window, stride).y == head.y
        },
        head.y < -(window.sprite_side * SUBPIXELS) ==> {
            &&& next_head_spec(head, Direction::Up, window, stride).x == head.x
            &&& next_head_spec(head, Direction::Up, window, stride).y == window.height * SUBPIXELS
        },
        head.y > window.height * SUBPIXELS ==> {
            &&& next_head_spec(head, Direction::Down, window, stride).x == head.x
            &&& next_head_spec(head, Direction::Down, window, stride).y == -(window.sprite_side
                * SUBPIXELS)
        },
{
}

/// A step that does not wrap moves the head by the stride along its course
/// and leaves the other coordinate alone. The tests on the margins are
/// strict: a head that is on a margin, not past it, still steps.
pub proof fn lemma_steps_by_the_stride(head: Sprite, window: Window, stride: int)
    requires
        in_reach(head),
        0 <= stride <= MAX_STRIDE,
    ensures
        head.x >= -(window.sprite_side * SUBPIXELS) ==> {
            &&& next_head_spec(head, Direction::Left, window, stride).x == head.x - stride
            &&& next_head_spec(head, Direction::Left, window, stride).y == head.y
        },
        head.x <= window.width * SUBPIXELS ==> {
            &&& next_head_spec(head, Direction::Right, window, stride).x == head.x + stride
            &&& next_head_spec(head, Direction::Right, window, stride).y == head.y
        },
        head.y >= -(window.sprite_side * SUBPIXELS) ==> {
            &&& next_head_spec(head, Direction::Up, window, stride).x == head.x
            &&& next_head_spec(head, Direction::Up, window, stride).y == head.y - stride
        },
        head.y <= window.height * SUBPIXELS ==> {
            &&& next_head_spec(head, Direction::Down, window, stride).x == head.x
            &&& next_head_spec(head, Direction::Down, window, stride).y == head.y + stride
        },
{
}

/// The share of each turn among the draws from 0 to [`DRAW_MAX`]: the 47
/// draws up to 46 keep the course, and each of the four turns has one draw
/// of its own.
pub proof fn lemma_turn_shares(draw: u8)
    requires
        draw <= DRAW_MAX,
    ensures
        turn_for_draw_spec(draw).is_none() <==> draw <= 46,
        turn_for_draw_spec(draw) == Some(Direction::Left) <==> draw == 47,
        turn_for_draw_spec(draw) == Some(Direction::Right) <==> draw == 48,
        turn_for_draw_spec(draw) == Some(Direction::Up) <==> draw == 49,
        turn_for_draw_spec(draw) == Some(Direction::Down) <==> draw == 50,
{
}

/// What a snake is, apart from the state of its random number generator.
pub struct SnakeView {
    /// The segments, head first.
    pub body: Seq<GameSprite>,
    /// Steps per tick.
    pub speed: int,
    /// Subpixels per step.
    pub stride: int,
    pub direction: Direction,
    pub window: Window,
    pub kind: SnakeKind,
}

impl SnakeView {
    /// The invariant of a snake: it has a head, it moves, and its stride and
    /// the places of its segments are within their limits.
    pub open spec fn wf(self) -> bool {
        &&& self.body.len() >= 1
        &&& self.speed >= 1
        &&& stride_ok(self.stride)
        &&& forall|i: int| 0 <= i < self.body.len() ==> in_reach((#[trigger] self.body[i]).sprite)
    }

    /// The front segment.
    pub open spec fn head(self) -> GameSprite {
        self.body[0]
    }

    /// The head after `n` steps on the present course.
    pub open spec fn nth_head(self, n: nat) -> GameSprite
        decreases n,
    {
        if n == 0 {
            self.head()
        } else {
            GameSprite {
                sprite: next_head_spec(
                    self.nth_head((n - 1) as nat).sprite,
                    self.direction,
                    self.window,
                    self.stride,
                ),
            }
        }
    }

    /// The heads of the next `n` steps, the latest in front.
    pub open spec fn trail(self, n: nat) -> Seq<GameSprite> {
        Seq::new(n, |i: int| self.nth_head((n - i) as nat))
    }

    /// The body after `n` steps. A growing snake keeps every segment; a
    /// crawling one drops a tail segment for each head it gains.
    pub open spec fn body_after(self, n: nat, grow: bool) -> Seq<GameSprite> {
        let trailed = self.trail(n) + self.body;
        if grow {
            trailed
        } else {
            trailed.take(self.body.len() as int)
        }
    }

    /// The snake after the steps of one tick.
    pub open spec fn advanced(self, grow: bool) -> SnakeView {
        SnakeView { body: self.body_after(self.speed as nat, grow), ..self }
    }

    /// The snake after it has picked its course.
    pub open spec fn steered(self, keys: Keys, draw: u8) -> SnakeView {
        SnakeView { direction: steered_direction(self.kind, self.direction, keys, draw), ..self }
    }

    /// The snake after a crawl: steer, then advance without growing.
    pub open spec fn crawled(self, keys: Keys, draw: u8) -> SnakeView {
        self.steered(keys, draw).advanced(false)
    }

    /// The stride after one growth.
    pub open spec fn grown_stride(self) -> int {
        if self.stride + STRIDE_GROWTH <= MAX_STRIDE {
            self.stride + STRIDE_GROWTH
        } else {
            MAX_STRIDE as int
        }
    }

    /// The snake after a growth: lengthen the stride, then advance and keep
    /// the tail.
    pub open spec fn grown(self) -> SnakeView {
        SnakeView { stride: self.grown_stride(), ..self }.advanced(true)
    }

    /// Whether the keyboard steers the snake and its meals score.
    pub open spec fn is_owned_by_user(self) -> bool {
        self.kind == SnakeKind::User || self.kind == SnakeKind::Buddy
    }

    /// Whether bad food kills the snake.
    pub open spec fn dies_from_bad_food(self) -> bool {
        self.kind == SnakeKind::User
    }
}

/// The sprites of a run of segments, in the same order.
pub open spec fn sprites_of(body: Seq<GameSprite>) -> Seq<Sprite> {
    Seq::new(body.len(), |i: int| body[i].sprite)
}

/// After `n` steps every head on the way is within the position limit.
proof fn lemma_heads_in_reach(snake: SnakeView, n: nat)
    requires
        snake.wf(),
    ensures
        in_reach(snake.nth_head(n).sprite),
    decreases n,
{
    if n > 0 {
        lemma_heads_in_reach(snake, (n - 1) as nat);
    }
}

/// Advancing keeps a snake well formed.
proof fn lemma_body_after_wf(snake: SnakeView, n: nat, grow: bool)
    requires
        snake.wf(),
    ensures
        (SnakeView { body: snake.body_after(n, grow), ..snake }).wf(),
        snake.body_after(n, grow).len() == snake.body.len() + (if grow { n } else { 0 }),
        snake.body_after(n, grow)[0] == snake.nth_head(n),
{
    let after = snake.body_after(n, grow);
    assert forall|i: int| 0 <= i < after.len() implies in_reach((#[trigger] after[i]).sprite) by {
        if i < n {
            lemma_heads_in_reach(snake, (n - i) as nat);
        }
    }
}

/// One more step puts the next head in front and, unless the snake grows,
/// takes the last segment away.
proof fn lemma_body_after_step(snake: SnakeView, n: nat, grow: bool)
    requires
        snake.body.len() >= 1,
    ensures
        snake.body_after(n + 1, grow) == if grow {
            seq![snake.nth_head(n + 1)] + snake.body_after(n, grow)
        } else {
            (seq![snake.nth_head(n + 1)] + snake.body_after(n, grow)).drop_last()
        },
{
}

/// Growth and crawl. A growth makes the body longer by exactly the speed; a
/// crawl leaves its length as it is.
pub proof fn lemma_grow_lengthens_crawl_does_not(snake: SnakeView, keys: Keys, draw: u8)
    requires
        snake.wf(),
    ensures
        snake.grown().body.len() == snake.body.len() + snake.speed,
        snake.crawled(keys, draw).body.len() == snake.body.len(),
{
}

/// A crawl and a growth keep a snake well formed, and so it always has a
/// head. Neither changes its kind, its speed or its field, and the stride
/// never shrinks.
pub proof fn lemma_moves_keep_the_snake(snake: SnakeView, keys: Keys, draw: u8)
    requires
        snake.wf(),
    ensures
        snake.crawled(keys, draw).wf(),
        snake.grown().wf(),
        snake.crawled(keys, draw).stride == snake.stride,
        snake.grown().stride >= snake.stride,
        snake.grown().direction == snake.direction,
        snake.crawled(keys, draw).kind == snake.kind && snake.grown().kind == snake.kind,
        snake.crawled(keys, draw).speed == snake.speed && snake.grown().speed == snake.speed,
        snake.crawled(keys, draw).window == snake.window && snake.grown().window
            == snake.window,
{
    let steered = snake.steered(keys, draw);
    lemma_body_after_wf(steered, steered.speed as nat, false);
    let strided = SnakeView { stride: snake.grown_stride(), ..snake };
    lemma_body_after_wf(strided, strided.speed as nat, true);
}

/// After a growth the old body lies behind the new heads, untouched; after a
/// crawl of a snake longer than its speed the old body has moved back by the
/// speed and lost as many segments at the tail.
pub proof fn lemma_old_body_trails(snake: SnakeView, keys: Keys, draw: u8, i: int)
    requires
        snake.wf(),
        0 <= i < snake.body.len(),
    ensures
        snake.grown().body[snake.speed + i] == snake.body[i],
        snake.speed + i < snake.body.len() ==> snake.crawled(keys, draw).body[snake.speed + i]
            == snake.body[i],
{
}

/// A snake.
pub struct Snake {
    /// The segments, head in front.
    body: VecDeque<GameSprite>,
    /// Steps per tick.
    speed: i32,
    /// Subpixels per step.
    stride: i64,
    /// The course of the head.
    direction: Direction,
    /// The field the snake moves on.
    window: Window,
    /// Who steers the snake.
    kind: SnakeKind,
    /// Decides the turns of an autonomous snake.
    rng: StdRng,
}

impl View for Snake {
    type V = SnakeView;

    closed spec fn view(&self) -> SnakeView {
        SnakeView {
            body: self.body@,
            speed: self.speed as int,
            stride: self.stride as int,
            direction: self.direction,
            window: self.window,
            kind: self.kind,
        }
    }
}

/// What a snake does in a tick.
pub trait SnakeMovement {
    /// Whether the snake is fit to move.
    spec fn fit(&self) -> bool;

    /// The number of segments.
    spec fn segments(&self) -> nat;

    /// The number of steps per tick.
    spec fn pace(&self) -> nat;

    /// Picks a course and moves along it. The snake keeps its length.
    fn crawl(&mut self, keys: &Keys)
        requires
            old(self).fit(),
        ensures
            final(self).fit(),
            final(self).pace() == old(self).pace(),
            final(self).segments() == old(self).segments(),
    ;

    /// Moves along the present course and keeps the tail: the snake is longer
    /// by one segment for each step.
    fn grow(&mut self)
        requires
            old(self).fit(),
        ensures
            final(self).fit(),
            final(self).pace() == old(self).pace(),
            final(self).segments() == old(self).segments() + old(self).pace(),
    ;
}

impl Snake {
    /// The first state of a snake: one segment at the given place, heading
    /// right at the initial stride.
    pub open spec fn hatched(
        kind: SnakeKind,
        window: Window,
        x: i64,
        y: i64,
        width: i32,
        height: i32,
        r: i32,
        g: i32,
        b: i32,
    ) -> SnakeView {
        SnakeView {
            body: seq![GameSprite { sprite: Sprite { width, height, r, g, b, x, y } }],
            speed: SNAKE_SPEED as int,
            stride: INITIAL_STRIDE as int,
            direction: Direction::Right,
            window,
            kind,
        }
    }

    /// Makes a snake whose random turns come from `rng`.
    pub fn with_rng(
        kind: SnakeKind,
        window: Window,
        x: i64,
        y: i64,
        width: i32,
        height: i32,
        r: i32,
        g: i32,
        b: i32,
        rng: StdRng,
    ) -> (snake: Snake)
        requires
            -POSITION_LIMIT <= x <= POSITION_LIMIT,
            -POSITION_LIMIT <= y <= POSITION_LIMIT,
        ensures
            snake@ == Snake::hatched(kind, window, x, y, width, height, r, g, b),
            snake@.wf(),
    {
        let head = GameSprite::from_sprite(Sprite { width, height, r, g, b, x, y });
        let mut body: VecDeque<GameSprite> = VecDeque::new();
        body.push_front(head);
        let snake = Snake {
            body,
            speed: SNAKE_SPEED,
            stride: INITIAL_STRIDE,
            direction: Direction::Right,
            window,
            kind,
            rng,
        };
        snake
    }

    /// Makes a snake with a generator seeded by the operating system, or by
    /// zero where the system has no entropy to give.
    pub fn new(
        kind: SnakeKind,
        window: Window,
        x: i64,
        y: i64,
        width: i32,
        height: i32,
        r: i32,
        g: i32,
        b: i32,
    ) -> (snake: Snake)
        requires
            -POSITION_LIMIT <= x <= POSITION_LIMIT,
            -POSITION_LIMIT <= y <= POSITION_LIMIT,
        ensures
            snake@ == Snake::hatched(kind, window, x, y, width, height, r, g, b),
            snake@.wf(),
    {
        let rng = match os_seeded() {
            Some(rng) => rng,
            None => seeded(0),
        };
        Snake::with_rng(kind, window, x, y, width, height, r, g, b, rng)
    }

    /// The sprites to draw for the snake, head first.
    pub fn render(&self) -> (sprites: Vec<Sprite>)
        ensures
            sprites@ == sprites_of(self@.body),
    {
        let mut sprites: Vec<Sprite> = Vec::new();
        let mut at: usize = 0;
        while at < self.body.len()
            invariant
                at <= self.body@.len(),
                sprites@ == sprites_of(self@.body.take(at as int)),
            decreases self.body@.len() - at,
        {
            sprites.push(self.body[at].sprite);
            at += 1;
        }
        sprites
    }

    /// The front segment. A snake always has one; the empty case is there for
    /// completeness.
    pub fn head(&self) -> (head: Option<&GameSprite>)
        ensures
            head == if self@.body.len() > 0 {
                Some(&self@.body[0])
            } else {
                None
            },
    {
        if self.body.len() > 0 {
            Some(&self.body[0])
        } else {
            None
        }
    }

    /// Who steers the snake.
    pub fn kind(&self) -> (kind: SnakeKind)
        ensures
            kind == self@.kind,
    {
        self.kind
    }

    /// The course of the head.
    pub fn direction(&self) -> (direction: Direction)
        ensures
            direction == self@.direction,
    {
        self.direction
    }

    /// Steps per tick.
    pub fn speed(&self) -> (speed: i32)
        ensures
            speed == self@.speed,
    {
        self.speed
    }

    /// Subpixels per step.
    pub fn stride(&self) -> (stride: i64)
        ensures
            stride == self@.stride,
    {
        self.stride
    }

    /// The number of segments.
    pub fn len(&self) -> (len: usize)
        ensures
            len == self@.body.len(),
    {
        self.body.len()
    }

    /// Whether the keyboard steers the snake and its meals score.
    pub fn is_owned_by_user(&self) -> (owned: bool)
        ensures
            owned == self@.is_owned_by_user(),
    {
        self.kind == SnakeKind::User || self.kind == SnakeKind::Buddy
    }

    /// Whether bad food kills the snake.
    pub fn dies_from_bad_food(&self) -> (dies: bool)
        ensures
            dies == self@.dies_from_bad_food(),
    {
        self.kind == SnakeKind::User
    }

    /// Picks the course for this tick: by a draw for an autonomous snake, by
    /// the keyboard for the others.
    fn update_direction(&mut self, keys: &Keys)
        ensures
            exists|draw: u8| draw <= DRAW_MAX && final(self)@ == old(self)@.steered(*keys, draw),
    {
        if self.kind == SnakeKind::Autonomous {
            let draw: u8 = sample_inclusive(&mut self.rng, 0, DRAW_MAX);
            match turn_for_draw(draw) {
                Some(turn) => {
                    self.direction = turn;
                },
                None => {},
            }
            assert(self@ == old(self)@.steered(*keys, draw));
        } else {
            self.direction = keyed_direction(self.direction, keys);
            assert(self@ == old(self)@.steered(*keys, 0));
        }
    }

    /// Takes the steps of one tick: each puts a new head in front of the old
    /// one and, unless the snake grows, drops the last segment.
    fn move_forward(&mut self, grow: bool)
        requires
            old(self)@.wf(),
        ensures
            final(self)@ == old(self)@.advanced(grow),
            final(self)@.wf(),
    {
        let ghost start = self@;
        let mut done: i32 = 0;
        assert(start.body_after(0, grow) =~= start.body);
        while done < self.speed
            invariant
                0 <= done <= self.speed,
                start.wf(),
                self@ == (SnakeView { body: start.body_after(done as nat, grow), ..start }),
            decreases self.speed - done,
        {
            proof {
                lemma_body_after_wf(start, done as nat, grow);
                lemma_body_after_step(start, done as nat, grow);
            }
            let head: Sprite = self.body[0].sprite;
            let next = next_head(&head, self.direction, &self.window, self.stride);
            self.body.push_front(GameSprite::from_sprite(next));
            if !grow {
                let _ = self.body.pop_back();
            }
            done += 1;
        }
        proof {
            lemma_body_after_wf(start, done as nat, grow);
        }
    }
}

impl SnakeMovement for Snake {
    open spec fn fit(&self) -> bool {
        self@.wf()
    }

    open spec fn segments(&self) -> nat {
        self@.body.len()
    }

    open spec fn pace(&self) -> nat {
        self@.speed as nat
    }

    fn crawl(&mut self, keys: &Keys)
        ensures
            exists|draw: u8| draw <= DRAW_MAX && final(self)@ == old(self)@.crawled(*keys, draw),
    {
        self.update_direction(keys);
        let ghost draw = choose|draw: u8|
            draw <= DRAW_MAX && self@ == old(self)@.steered(*keys, draw);
        self.move_forward(false);
        proof {
            lemma_body_after_wf(old(self)@.steered(*keys, draw), self@.speed as nat, false);
            assert(self@ == old(self)@.crawled(*keys, draw));
        }
    }

    fn grow(&mut self)
        ensures
            final(self)@ == old(self)@.grown(),
    {
        if self.stride <= MAX_STRIDE - STRIDE_GROWTH {
            self.stride = self.stride + STRIDE_GROWTH;
        } else {
            self.stride = MAX_STRIDE;
        }
        proof {
            lemma_body_after_wf(self@, self@.speed as nat, true);
        }
        self.move_forward(true);
    }
}

} // verus!
