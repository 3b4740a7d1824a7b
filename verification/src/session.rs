//! A sitting at the game: the snakes a round starts with, the loop that
//! plays it, and the loop that waits, once it is lost, for the player to ask
//! for another. Each loop is given here as what one pass decides; the program
//! makes the passes.

use crate::food::Food;
use crate::game::{draws_ok, tick, tick_led_to, views_of, Action, Game, GameView};
use crate::remote::SpriteData;
use crate::snake::{Keys, Snake, SnakeKind, SnakeView};
use crate::sprite::{Window, SUBPIXELS};
use vstd::prelude::*;

verus! {

/// The width of the field, in pixels.
pub const WINDOW_WIDTH: i32 = 800;

/// The height of the field, in pixels.
pub const WINDOW_HEIGHT: i32 = 600;

/// The side of a snake's segment, in pixels, which is also the margin by
/// which a snake leaves the field before it wraps.
pub const SPRITE_SIDE: i32 = 25;

/// How long the game-over message keeps one colour: a second, in nanoseconds.
pub const GAME_OVER_FLASH_NANOS: u64 = 1_000_000_000;

/// The field that the snakes of a round move on.
pub open spec fn field() -> Window {
    Window { width: WINDOW_WIDTH, height: WINDOW_HEIGHT, sprite_side: SPRITE_SIDE }
}

/// The snakes that a round starts with, given the sprite that seeds it: the
/// user's snake, green, at the sprite's place; its buddy, dark grey, one
/// segment further right and down; and an autonomous snake, violet, at the
/// buddy's place.
pub open spec fn starting_snakes(seed: SpriteData) -> Seq<SnakeView> {
    let aside = seed.x + SPRITE_SIDE * SUBPIXELS;
    let below = seed.y + SPRITE_SIDE * SUBPIXELS;
    seq![
        Snake::hatched(
            SnakeKind::User,
            field(),
            seed.x as i64,
            seed.y as i64,
            SPRITE_SIDE,
            SPRITE_SIDE,
            0,
            255,
            0,
        ),
        Snake::hatched(
            SnakeKind::Buddy,
            field(),
            aside as i64,
            below as i64,
            SPRITE_SIDE,
            SPRITE_SIDE,
            25,
            25,
            25,
        ),
        Snake::hatched(
            SnakeKind::Autonomous,
            field(),
            aside as i64,
            below as i64,
            SPRITE_SIDE,
            SPRITE_SIDE,
            50,
            25,
            128,
        ),
    ]
}

/// Appends the snakes that a round starts with: see [`starting_snakes`].
pub fn create_snakes(snakes: &mut Vec<Snake>, initial_sprite: &SpriteData)
    ensures
        views_of(final(snakes)@) == views_of(old(snakes)@) + starting_snakes(*initial_sprite),
        forall|i: int|
            old(snakes)@.len() <= i < final(snakes)@.len() ==> (#[trigger] final(snakes)@[i])@.wf(),
        forall|i: int| 0 <= i < old(snakes)@.len() ==> final(snakes)@[i] == old(snakes)@[i],
{
    let window = Window { width: WINDOW_WIDTH, height: WINDOW_HEIGHT, sprite_side: SPRITE_SIDE };
    let x: i64 = initial_sprite.x as i64;
    let y: i64 = initial_sprite.y as i64;
    let aside: i64 = x + SPRITE_SIDE as i64 * SUBPIXELS;
    let below: i64 = y + SPRITE_SIDE as i64 * SUBPIXELS;
    let user_snake = Snake::new(
        SnakeKind::User,
        window,
        x,
        y,
        SPRITE_SIDE,
        SPRITE_SIDE,
        0,
        255,
        0,
    );
    let buddy_snake = Snake::new(
        SnakeKind::Buddy,
        window,
        aside,
        below,
        SPRITE_SIDE,
        SPRITE_SIDE,
        25,
        25,
        25,
    );
    let autonomous_snake = Snake::new(
        SnakeKind::Autonomous,
        window,
        aside,
        below,
        SPRITE_SIDE,
        SPRITE_SIDE,
        50,
        25,
        128,
    );
    snakes.push(user_snake);
    snakes.push(buddy_snake);
    snakes.push(autonomous_snake);
}

/// Starts a round afresh: the starting snakes, no food, no score. Nothing of
/// an earlier round is kept but the sprite that seeds the snakes.
pub fn new_round(initial_sprite: &SpriteData, now: u64) -> (game: Game)
    ensures
        game@ == (GameView {
            snakes: starting_snakes(*initial_sprite),
            food: Seq::empty(),
            last_food_fetched: now,
            running: true,
            score: 0,
        }),
        game.wf(),
{
    let mut snakes: Vec<Snake> = Vec::new();
    create_snakes(&mut snakes, initial_sprite);
    let food: Vec<Food> = Vec::new();
    Game::new(snakes, food, now)
}

/// One pass of the loop that plays a round. `should_close` says whether the
/// window was asked to close; the rest is what a tick takes.
///
/// While the window stays open and the round is on, the pass plays a tick and
/// gives its actions; after them the program presents the frame and sleeps.
/// Otherwise the pass gives nothing, the game is as it was, and the loop is
/// over.
pub fn game_main_loop(
    game: &mut Game,
    should_close: bool,
    now: u64,
    keys: &Keys,
    arrivals: &Vec<SpriteData>,
) -> (actions: Option<Vec<Action>>)
    requires
        old(game).wf(),
    ensures
        final(game).wf(),
        match actions {
            Some(actions) => {
                &&& !should_close
                &&& old(game)@.running
                &&& exists|draws: Seq<u8>|
                    draws.len() == old(game)@.snakes.len() && draws_ok(draws) && tick_led_to(
                        #[trigger] tick(old(game)@, now, *keys, arrivals@, draws),
                        final(game)@,
                        actions@,
                    )
            },
            None => (should_close || !old(game)@.running) && final(game)@ == old(game)@,
        },
{
    if should_close {
        return None;
    }
    if game.running() {
        Some(game.render(now, keys, arrivals))
    } else {
        None
    }
}

/// The colour of the game-over message.
#[derive(Clone, Copy, Debug, PartialEq, Eq, Structural)]
pub enum Tint {
    Red,
    Green,
}

/// What the game-over loop keeps between its passes.
#[derive(Clone, Copy, Debug, PartialEq, Eq, Structural)]
pub struct GameOverScreen {
    /// Whether the message is red the next time it is drawn.
    pub red: bool,
    /// When the message was last drawn, in nanoseconds.
    pub last_flash: u64,
}

/// What the game-over loop sees at the start of a pass.
#[derive(Clone, Copy, Debug, PartialEq, Eq, Structural)]
pub struct Poll {
    /// Whether the window was asked to close.
    pub should_close: bool,
    /// The clock, in nanoseconds.
    pub now: u64,
    /// Whether the space bar is held down.
    pub space: bool,
}

/// What a pass of the game-over loop comes to.
#[derive(Clone, Copy, Debug, PartialEq, Eq, Structural)]
pub struct GameOverPass {
    /// The colour in which to draw the message now, if it is to be drawn.
    pub flash: Option<Tint>,
    /// Whether the loop is over, and if so whether the player asked for
    /// another round.
    pub restart: Option<bool>,
}

/// The colour that the message is drawn in.
pub open spec fn tint_of(red: bool) -> Tint {
    if red {
        Tint::Red
    } else {
        Tint::Green
    }
}

/// Whether the message is due to change colour.
pub open spec fn flash_due(last: u64, now: u64) -> bool {
    now - last >= GAME_OVER_FLASH_NANOS
}

/// The screen after a pass of the game-over loop.
pub open spec fn screen_after(screen: GameOverScreen, poll: Poll) -> GameOverScreen {
    if !poll.should_close && flash_due(screen.last_flash, poll.now) {
        GameOverScreen { red: !screen.red, last_flash: poll.now }
    } else {
        screen
    }
}

/// What a pass of the game-over loop comes to. A window asked to close ends
/// the loop at once, with no new round. Otherwise the message is drawn anew
/// if that is due, and then the space bar ends the loop with a new round.
pub open spec fn pass_of(screen: GameOverScreen, poll: Poll) -> GameOverPass {
    if poll.should_close {
        GameOverPass { flash: None, restart: Some(false) }
    } else {
        GameOverPass {
            flash: if flash_due(screen.last_flash, poll.now) {
                Some(tint_of(screen.red))
            } else {
                None
            },
            restart: if poll.space {
                Some(true)
            } else {
                None
            },
        }
    }
}

impl GameOverScreen {
    /// Opens the game-over screen at the moment `now`. The message is to be
    /// drawn at once, in the colour that comes back; `red` says whether that
    /// is red.
    pub fn open(red: bool, now: u64) -> (opened: (GameOverScreen, Tint))
        ensures
            opened.0 == (GameOverScreen { red: !red, last_flash: now }),
            opened.1 == tint_of(red),
    {
        let mut screen = GameOverScreen { red, last_flash: now };
        let tint = screen.render_game_over_message();
        (screen, tint)
    }

    /// Gives the colour in which to draw the message and switches to the
    /// other one for the next time.
    pub fn render_game_over_message(&mut self) -> (tint: Tint)
        ensures
            tint == tint_of(old(self).red),
            *final(self) == (GameOverScreen { red: !old(self).red, ..*old(self) }),
    {
        if self.red {
            self.red = false;
            Tint::Red
        } else {
            self.red = true;
            Tint::Green
        }
    }
}

/// One pass of the loop that waits on the game-over screen: see [`pass_of`].
/// After a pass that does not end the loop the program presents the frame
/// and sleeps.
pub fn game_over_loop(screen: &mut GameOverScreen, poll: &Poll) -> (pass: GameOverPass)
    ensures
        pass == pass_of(*old(screen), *poll),
        *final(screen) == screen_after(*old(screen), *poll),
{
    if poll.should_close {
        return GameOverPass { flash: None, restart: Some(false) };
    }
    let mut flash: Option<Tint> = None;
    if poll.now >= screen.last_flash && poll.now - screen.last_flash >= GAME_OVER_FLASH_NANOS {
        flash = Some(screen.render_game_over_message());
        screen.last_flash = poll.now;
    }
    let restart: Option<bool> = if poll.space {
        Some(true)
    } else {
        None
    };
    GameOverPass { flash, restart }
}

} // verus!
