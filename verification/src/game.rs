//! The game: the snakes, the food on the field, the score, and the fixed
//! order in which a tick deals with them.

use crate::food::{
    any_bad, arrived, food_touched, food_unexpired, food_untouched, holds_bad,
    lemma_meal_splits_the_food, touched, unexpired, untouched, Food,
};
use crate::remote::SpriteData;
use crate::snake::{
    lemma_grow_lengthens_crawl_does_not, lemma_moves_keep_the_snake, sprites_of, Keys, Snake,
    SnakeKind, SnakeMovement, SnakeView, DRAW_MAX,
};
use crate::sprite::Sprite;
use vstd::prelude::*;

verus! {

/// The least time between two requests for food: half a second, in
/// nanoseconds.
pub const FOOD_UPDATE_NANOS: u64 = 500_000_000;

/// The red of the marker drawn over the head of a dead snake.
pub const DEAD_HEAD_RED: i32 = 250;

/// The green of the marker.
pub const DEAD_HEAD_GREEN: i32 = 255;

/// The blue of the marker.
pub const DEAD_HEAD_BLUE: i32 = 255;

/// What a tick asks the program to do, in the order in which it is to be done.
#[derive(Clone, Copy, Debug, PartialEq, Eq, Structural)]
pub enum Action {
    /// Wipe the screen.
    Clear,
    /// Draw a sprite.
    Draw(Sprite),
    /// Send the food source one request.
    RequestFood,
    /// Show the score.
    Score(u64),
}

/// A snake that dies of bad food ate some. `snake` is its place among the
/// snakes.
#[derive(Clone, Copy, Debug, PartialEq, Eq, Structural)]
pub struct BadFoodEaten {
    pub snake: usize,
}

/// What a game is, apart from the state of its snakes' random number
/// generators.
pub struct GameView {
    pub snakes: Seq<SnakeView>,
    pub food: Seq<Food>,
    /// When food was last asked for, in nanoseconds.
    pub last_food_fetched: u64,
    pub running: bool,
    pub score: u64,
}

/// What the turn of one snake comes to.
pub struct Turn {
    /// The snake after its turn.
    pub snake: SnakeView,
    /// The food left on the field.
    pub food: Seq<Food>,
    pub score: u64,
    /// What is drawn of the snake.
    pub drawn: Seq<Action>,
    /// Whether the snake died of what it ate.
    pub died: bool,
}

/// The state of a tick while the snakes take their turns.
pub struct Round {
    pub snakes: Seq<SnakeView>,
    pub food: Seq<Food>,
    pub score: u64,
    /// The actions so far.
    pub actions: Seq<Action>,
    /// The place of the snake that died, if one did.
    pub died: Option<int>,
}

/// A game after a tick, and what the tick asks for.
pub struct Tick {
    pub game: GameView,
    pub actions: Seq<Action>,
}

/// One `Draw` for each sprite, in the same order.
pub open spec fn draws_of(sprites: Seq<Sprite>) -> Seq<Action> {
    Seq::new(sprites.len(), |i: int| Action::Draw(sprites[i]))
}

/// One `Draw` for each piece of food, in the same order.
pub open spec fn food_draws(food: Seq<Food>) -> Seq<Action> {
    Seq::new(food.len(), |i: int| Action::Draw(food[i].sprite))
}

/// The score after `eaten` more pieces. It stops at the largest number it can
/// hold.
pub open spec fn scored(score: u64, eaten: nat) -> u64 {
    if score + eaten > u64::MAX {
        u64::MAX
    } else {
        (score + eaten) as u64
    }
}

/// The marker for a dead snake: the head's rectangle in the marker's colour.
pub open spec fn dead_head(head: Sprite) -> Sprite {
    Sprite { r: DEAD_HEAD_RED, g: DEAD_HEAD_GREEN, b: DEAD_HEAD_BLUE, ..head }
}

/// Whether the snake at `i` is the first of the kind `User`.
pub open spec fn is_first_user(snakes: Seq<SnakeView>, i: int) -> bool {
    &&& 0 <= i < snakes.len()
    &&& snakes[i].kind == SnakeKind::User
    &&& forall|j: int| 0 <= j < i ==> (#[trigger] snakes[j]).kind != SnakeKind::User
}

/// The place of the first snake of the kind `User`.
pub open spec fn first_user(snakes: Seq<SnakeView>) -> int {
    choose|i: int| is_first_user(snakes, i)
}

/// Whether food is to be asked for at the moment `now`: more than
/// [`FOOD_UPDATE_NANOS`] have passed since it last was.
pub open spec fn request_due(last: u64, now: u64) -> bool {
    now - last > FOOD_UPDATE_NANOS
}

/// The turn of one snake. It crawls; what its head then touches, it eats. A
/// snake that dies of bad food and ate some dies: it neither grows nor is
/// drawn, and the food stays. Any other snake that ate grows, the food it ate
/// is gone, and if the user owns it each piece scores. A snake that lives is
/// drawn as it is after all that.
pub open spec fn take_turn(
    snake: SnakeView,
    food: Seq<Food>,
    score: u64,
    keys: Keys,
    draw: u8,
) -> Turn {
    let crawled = snake.crawled(keys, draw);
    let head = crawled.head().sprite;
    let eaten = touched(food, head);
    if eaten.len() == 0 {
        Turn { snake: crawled, food, score, drawn: draws_of(sprites_of(crawled.body)), died: false }
    } else if crawled.dies_from_bad_food() && holds_bad(eaten) {
        Turn { snake: crawled, food, score, drawn: Seq::empty(), died: true }
    } else {
        let grown = crawled.grown();
        Turn {
            snake: grown,
            food: untouched(food, head),
            score: if crawled.is_owned_by_user() {
                scored(score, eaten.len())
            } else {
                score
            },
            drawn: draws_of(sprites_of(grown.body)),
            died: false,
        }
    }
}

/// Whether a turn led from the actions `before` to the snake, the food, the
/// score and the actions given.
pub open spec fn turn_led_to(
    turn: Turn,
    snake: SnakeView,
    food: Seq<Food>,
    score: u64,
    before: Seq<Action>,
    after: Seq<Action>,
    alive: bool,
) -> bool {
    &&& snake == turn.snake
    &&& food == turn.food
    &&& score == turn.score
    &&& after == before + turn.drawn
    &&& alive == !turn.died
}

/// The round after the snake at `i` has taken its turn.
pub open spec fn snake_turn(round: Round, i: int, keys: Keys, draw: u8) -> Round {
    let turn = take_turn(round.snakes[i], round.food, round.score, keys, draw);
    Round {
        snakes: round.snakes.update(i, turn.snake),
        food: turn.food,
        score: turn.score,
        actions: round.actions + turn.drawn,
        died: if turn.died {
            Some(i)
        } else {
            None
        },
    }
}

/// The round after the first `draws.len()` snakes have taken their turns, one
/// draw for each, in order. Once a snake has died no other takes its turn.
pub open spec fn snakes_turns(round: Round, keys: Keys, draws: Seq<u8>) -> Round
    decreases draws.len(),
{
    if draws.len() == 0 {
        round
    } else {
        let before = snakes_turns(round, keys, draws.drop_last());
        if before.died.is_some() {
            before
        } else {
            snake_turn(before, draws.len() - 1, keys, draws.last())
        }
    }
}

/// Whether each draw is one that the generator can give.
pub open spec fn draws_ok(draws: Seq<u8>) -> bool {
    forall|i: int| 0 <= i < draws.len() ==> #[trigger] draws[i] <= DRAW_MAX
}

/// One tick of the game, given the draws of its snakes.
///
/// The screen is wiped and the snakes take their turns. If one dies the game
/// stops and the tick ends with the marker over the head of the first snake
/// of the kind `User`: nothing else is drawn, and the food is left as it is.
/// Otherwise the food that has expired goes, the food that has arrived comes,
/// food is asked for if that is due, the food is drawn, and the score is
/// shown.
pub open spec fn tick(
    game: GameView,
    now: u64,
    keys: Keys,
    arrivals: Seq<SpriteData>,
    draws: Seq<u8>,
) -> Tick {
    let start = Round {
        snakes: game.snakes,
        food: game.food,
        score: game.score,
        actions: seq![Action::Clear],
        died: None,
    };
    let round = snakes_turns(start, keys, draws);
    if round.died.is_some() {
        let marker = dead_head(round.snakes[first_user(round.snakes)].head().sprite);
        Tick {
            game: GameView {
                snakes: round.snakes,
                food: round.food,
                score: round.score,
                running: false,
                ..game
            },
            actions: round.actions.push(Action::Draw(marker)),
        }
    } else {
        let food = unexpired(round.food, now) + arrived(arrivals, now);
        let due = request_due(game.last_food_fetched, now);
        Tick {
            game: GameView {
                snakes: round.snakes,
                food,
                score: round.score,
                last_food_fetched: if due {
                    now
                } else {
                    game.last_food_fetched
                },
                ..game
            },
            actions: round.actions + (if due {
                seq![Action::RequestFood]
            } else {
                Seq::empty()
            }) + food_draws(food) + seq![Action::Score(round.score)],
        }
    }
}

impl GameView {
    /// The invariant of a game: each of its snakes is well formed.
    pub open spec fn wf(self) -> bool {
        forall|i: int| 0 <= i < self.snakes.len() ==> (#[trigger] self.snakes[i]).wf()
    }

    /// Whether one of the snakes is of the kind `User`.
    pub open spec fn has_user(self) -> bool {
        exists|i: int| 0 <= i < self.snakes.len() && (#[trigger] self.snakes[i]).kind
            == SnakeKind::User
    }
}

/// The views of a run of snakes, in the same order.
pub open spec fn views_of(snakes: Seq<Snake>) -> Seq<SnakeView> {
    Seq::new(snakes.len(), |i: int| snakes[i]@)
}


/// The round that a game and the actions so far make before the snakes take
/// their turns.
pub open spec fn round_of(game: GameView, actions: Seq<Action>) -> Round {
    Round { snakes: game.snakes, food: game.food, score: game.score, actions, died: None }
}

/// Whether the snakes' turns led from the game `before` to the game, the
/// actions and the verdict given.
pub open spec fn round_led_to(
    round: Round,
    before: GameView,
    after: GameView,
    actions: Seq<Action>,
    verdict: Result<(), BadFoodEaten>,
) -> bool {
    &&& after == (GameView {
        snakes: round.snakes,
        food: round.food,
        score: round.score,
        ..before
    })
    &&& actions == round.actions
    &&& match verdict {
        Ok(_) => round.died.is_none(),
        Err(death) => round.died == Some(death.snake as int),
    }
}

/// Whether a tick led to the game and the actions given.
pub open spec fn tick_led_to(tick: Tick, after: GameView, actions: Seq<Action>) -> bool {
    after == tick.game && actions == tick.actions
}

/// The game after the food has been dealt with: what has expired is gone,
/// what has arrived is there, and the clock for requests is set anew if a
/// request is due.
pub open spec fn food_served(game: GameView, now: u64, arrivals: Seq<SpriteData>) -> GameView {
    GameView {
        food: unexpired(game.food, now) + arrived(arrivals, now),
        last_food_fetched: if request_due(game.last_food_fetched, now) {
            now
        } else {
            game.last_food_fetched
        },
        ..game
    }
}

/// What dealing with the food asks for: a request if one is due, then the
/// food drawn.
pub open spec fn food_actions(game: GameView, now: u64, arrivals: Seq<SpriteData>) -> Seq<
    Action,
> {
    (if request_due(game.last_food_fetched, now) {
        seq![Action::RequestFood]
    } else {
        Seq::empty()
    }) + food_draws(food_served(game, now, arrivals).food)
}

/// Once a snake has died, further draws change nothing.
proof fn lemma_turns_end_at_death(round: Round, keys: Keys, draws: Seq<u8>, more: Seq<u8>)
    requires
        snakes_turns(round, keys, draws).died.is_some(),
    ensures
        snakes_turns(round, keys, draws + more) == snakes_turns(round, keys, draws),
    decreases more.len(),
{
    if more.len() == 0 {
    } else {
        lemma_turns_end_at_death(round, keys, draws, more.drop_last());
        assert((draws + more).drop_last() =~= draws + more.drop_last());
    }
}

/// The turns keep the number of snakes and their well-formedness, and a
/// snake that died is one of those that took a turn and of the kind `User`.
proof fn lemma_turns_keep_snakes(round: Round, keys: Keys, draws: Seq<u8>)
    requires
        round.died.is_none(),
        draws.len() <= round.snakes.len(),
    ensures
        snakes_turns(round, keys, draws).snakes.len() == round.snakes.len(),
        match snakes_turns(round, keys, draws).died {
            Some(at) => 0 <= at < draws.len() && snakes_turns(round, keys, draws).snakes[at].kind
                == SnakeKind::User,
            None => true,
        },
    decreases draws.len(),
{
    if draws.len() > 0 {
        lemma_turns_keep_snakes(round, keys, draws.drop_last());
    }
}

/// The three ways a turn can go, by what the head touches after the crawl.
///
/// Nothing: the snake has only crawled. Something deadly: the snake has
/// crawled and died, the food and the score are as they were, and nothing is
/// drawn of it. Anything else: the snake is longer by its speed, the food it
/// touched is gone and the rest is left, and each piece has scored if the
/// user owns the snake.
pub proof fn lemma_turn_by_meal(snake: SnakeView, food: Seq<Food>, score: u64, keys: Keys, draw: u8)
    requires
        snake.wf(),
    ensures
        ({
            let crawled = snake.crawled(keys, draw);
            let eaten = touched(food, crawled.head().sprite);
            let turn = take_turn(snake, food, score, keys, draw);
            let deadly = crawled.dies_from_bad_food() && holds_bad(eaten);
            &&& turn.died <==> eaten.len() > 0 && deadly
            &&& eaten.len() == 0 || deadly ==> {
                &&& turn.snake == crawled
                &&& turn.snake.body.len() == snake.body.len()
                &&& turn.food == food
                &&& turn.score == score
            }
            &&& eaten.len() > 0 && !deadly ==> {
                &&& turn.snake == crawled.grown()
                &&& turn.snake.body.len() == snake.body.len() + snake.speed
                &&& turn.food == untouched(food, crawled.head().sprite)
                &&& turn.food.len() == food.len() - eaten.len()
                &&& snake.is_owned_by_user() ==> turn.score == scored(score, eaten.len())
                &&& !snake.is_owned_by_user() ==> turn.score == score
            }
            &&& turn.died ==> turn.drawn.len() == 0
            &&& !turn.died ==> turn.drawn == draws_of(sprites_of(turn.snake.body))
        }),
{
    let crawled = snake.crawled(keys, draw);
    lemma_moves_keep_the_snake(snake, keys, draw);
    lemma_grow_lengthens_crawl_does_not(snake, keys, draw);
    lemma_grow_lengthens_crawl_does_not(crawled, keys, draw);
    lemma_meal_splits_the_food(food, crawled.head().sprite);
}

/// What the snakes' turns keep: the number of the snakes, their kinds and
/// their well-formedness. The score never drops, no food is added, and the
/// actions so far stay in front of the new ones.
pub proof fn lemma_turns_keep_the_round(round: Round, keys: Keys, draws: Seq<u8>)
    requires
        round.died.is_none(),
        draws.len() <= round.snakes.len(),
        forall|i: int| 0 <= i < round.snakes.len() ==> (#[trigger] round.snakes[i]).wf(),
    ensures
        snakes_turns(round, keys, draws).snakes.len() == round.snakes.len(),
        forall|i: int|
            0 <= i < round.snakes.len() ==> (#[trigger] snakes_turns(
                round,
                keys,
                draws,
            ).snakes[i]).wf(),
        forall|i: int|
            0 <= i < round.snakes.len() ==> (#[trigger] snakes_turns(
                round,
                keys,
                draws,
            ).snakes[i]).kind == round.snakes[i].kind,
        snakes_turns(round, keys, draws).score >= round.score,
        snakes_turns(round, keys, draws).food.len() <= round.food.len(),
        round.actions.is_prefix_of(snakes_turns(round, keys, draws).actions),
    decreases draws.len(),
{
    if draws.len() > 0 {
        lemma_turns_keep_the_round(round, keys, draws.drop_last());
        let before = snakes_turns(round, keys, draws.drop_last());
        if before.died.is_none() {
            let at = draws.len() - 1;
            let snake = before.snakes[at];
            let crawled = snake.crawled(keys, draws.last());
            lemma_moves_keep_the_snake(snake, keys, draws.last());
            lemma_moves_keep_the_snake(crawled, keys, draws.last());
            lemma_meal_splits_the_food(before.food, crawled.head().sprite);
        }
    }
}

/// A snake whose turn has not come is as it was.
proof fn lemma_turns_leave_the_rest(round: Round, keys: Keys, draws: Seq<u8>, i: int)
    requires
        draws.len() <= i < round.snakes.len(),
    ensures
        snakes_turns(round, keys, draws).snakes[i] == round.snakes[i],
        snakes_turns(round, keys, draws).snakes.len() == round.snakes.len(),
    decreases draws.len(),
{
    if draws.len() > 0 {
        lemma_turns_leave_the_rest(round, keys, draws.drop_last(), i);
    }
}

/// The draws steer the autonomous snakes and nothing else: two runs of draws
/// that agree wherever an autonomous snake stands lead to the same round.
pub proof fn lemma_draws_steer_only_the_autonomous(
    round: Round,
    keys: Keys,
    draws: Seq<u8>,
    other: Seq<u8>,
)
    requires
        draws.len() == other.len(),
        draws.len() <= round.snakes.len(),
        forall|i: int|
            0 <= i < draws.len() && (#[trigger] round.snakes[i]).kind == SnakeKind::Autonomous
                ==> draws[i] == other[i],
    ensures
        snakes_turns(round, keys, draws) == snakes_turns(round, keys, other),
    decreases draws.len(),
{
    if draws.len() > 0 {
        let at = draws.len() - 1;
        lemma_draws_steer_only_the_autonomous(round, keys, draws.drop_last(), other.drop_last());
        lemma_turns_leave_the_rest(round, keys, draws.drop_last(), at);
    }
}

/// A game with no autonomous snake is played by the clock, the keyboard and
/// the food source alone: whatever the draws, the tick is the same.
pub proof fn lemma_tick_without_autonomous_snakes(
    game: GameView,
    now: u64,
    keys: Keys,
    arrivals: Seq<SpriteData>,
    draws: Seq<u8>,
    other: Seq<u8>,
)
    requires
        draws.len() == game.snakes.len(),
        other.len() == game.snakes.len(),
        forall|i: int|
            0 <= i < game.snakes.len() ==> (#[trigger] game.snakes[i]).kind
                != SnakeKind::Autonomous,
    ensures
        tick(game, now, keys, arrivals, draws) == tick(game, now, keys, arrivals, other),
{
    lemma_draws_steer_only_the_autonomous(round_of(game, seq![Action::Clear]), keys, draws, other);
}

/// The snakes' turns ask for nothing but drawing: every action that they add
/// is a `Draw`.
pub proof fn lemma_turns_only_draw(round: Round, keys: Keys, draws: Seq<u8>, i: int)
    requires
        round.actions.len() <= i < snakes_turns(round, keys, draws).actions.len(),
    ensures
        snakes_turns(round, keys, draws).actions[i] is Draw,
    decreases draws.len(),
{
    if draws.len() > 0 {
        let before = snakes_turns(round, keys, draws.drop_last());
        if i < before.actions.len() {
            lemma_turns_only_draw(round, keys, draws.drop_last(), i);
        }
    }
}

/// The order of a tick. It begins by wiping the screen and wipes it no more.
/// A tick in which a snake died ends with the marker and asks for no food;
/// any other ends with the score, shown once. Food is asked for at most once
/// in a tick, and only when a request is due.
pub proof fn lemma_tick_keeps_its_order(
    game: GameView,
    now: u64,
    keys: Keys,
    arrivals: Seq<SpriteData>,
    draws: Seq<u8>,
)
    ensures
        ({
            let played = tick(game, now, keys, arrivals, draws);
            let died = snakes_turns(round_of(game, seq![Action::Clear]), keys, draws).died.is_some();
            let last = played.actions.len() - 1;
            &&& played.actions.len() >= 2
            &&& played.actions[0] == Action::Clear
            &&& forall|i: int| 0 < i < played.actions.len() ==> played.actions[i] != Action::Clear
            &&& died ==> played.actions[last] is Draw
            &&& !died ==> played.actions[last] == Action::Score(played.game.score)
            &&& forall|i: int|
                0 <= i < last ==> !(#[trigger] played.actions[i] is Score)
            &&& forall|i: int|
                0 <= i < played.actions.len() && #[trigger] played.actions[i]
                    == Action::RequestFood ==> !died && request_due(game.last_food_fetched, now)
            &&& forall|i: int, j: int|
                0 <= i < j < played.actions.len() && #[trigger] played.actions[i]
                    == Action::RequestFood ==> #[trigger] played.actions[j] != Action::RequestFood
        }),
{
    let start = round_of(game, seq![Action::Clear]);
    let round = snakes_turns(start, keys, draws);
    let played = tick(game, now, keys, arrivals, draws);
    lemma_turns_grow_the_actions(start, keys, draws);
    assert(round.actions[0] == start.actions[0]);
    assert forall|i: int| 0 < i < round.actions.len() implies round.actions[i] is Draw by {
        lemma_turns_only_draw(start, keys, draws, i);
    }
}

/// The snakes' turns leave the actions so far in front of those they add.
proof fn lemma_turns_grow_the_actions(round: Round, keys: Keys, draws: Seq<u8>)
    ensures
        round.actions.is_prefix_of(snakes_turns(round, keys, draws).actions),
    decreases draws.len(),
{
    if draws.len() > 0 {
        lemma_turns_grow_the_actions(round, keys, draws.drop_last());
    }
}

/// What a tick keeps. The game stays well formed, with the same snakes of
/// the same kinds. The score never drops. A round that has stopped stays
/// stopped, and a round stops only on a tick in which a snake died. The
/// first action of every tick wipes the screen.
pub proof fn lemma_tick_keeps_the_game(
    game: GameView,
    now: u64,
    keys: Keys,
    arrivals: Seq<SpriteData>,
    draws: Seq<u8>,
)
    requires
        game.wf(),
        draws.len() == game.snakes.len(),
    ensures
        tick(game, now, keys, arrivals, draws).game.wf(),
        tick(game, now, keys, arrivals, draws).game.snakes.len() == game.snakes.len(),
        tick(game, now, keys, arrivals, draws).game.score >= game.score,
        tick(game, now, keys, arrivals, draws).game.running ==> game.running,
        game.running && !tick(game, now, keys, arrivals, draws).game.running ==> snakes_turns(
            round_of(game, seq![Action::Clear]),
            keys,
            draws,
        ).died.is_some(),
        tick(game, now, keys, arrivals, draws).actions.len() > 0,
        tick(game, now, keys, arrivals, draws).actions[0] == Action::Clear,
{
    let start = round_of(game, seq![Action::Clear]);
    lemma_turns_keep_the_round(start, keys, draws);
    let round = snakes_turns(start, keys, draws);
    assert(round.actions[0] == start.actions[0]);
}

/// A game in progress.
pub struct Game {
    snakes: Vec<Snake>,
    food: Vec<Food>,
    /// When food was last asked for, in nanoseconds.
    last_food_fetched: u64,
    running: bool,
    score: u64,
}

impl View for Game {
    type V = GameView;

    closed spec fn view(&self) -> GameView {
        GameView {
            snakes: views_of(self.snakes@),
            food: self.food@,
            last_food_fetched: self.last_food_fetched,
            running: self.running,
            score: self.score,
        }
    }
}

/// Appends one `Draw` for each sprite.
fn push_draws(actions: &mut Vec<Action>, sprites: &Vec<Sprite>)
    ensures
        final(actions)@ == old(actions)@ + draws_of(sprites@),
{
    let mut at: usize = 0;
    while at < sprites.len()
        invariant
            at <= sprites@.len(),
            actions@ == old(actions)@ + draws_of(sprites@.take(at as int)),
        decreases sprites@.len() - at,
    {
        actions.push(Action::Draw(sprites[at]));
        at += 1;
    }
}

/// Lets one snake take its turn on the field: see [`take_turn`].
fn turn_of(
    snake: &mut Snake,
    food: &mut Vec<Food>,
    score: &mut u64,
    keys: &Keys,
    actions: &mut Vec<Action>,
) -> (alive: bool)
    requires
        old(snake)@.wf(),
    ensures
        final(snake)@.wf(),
        exists|draw: u8|
            draw <= DRAW_MAX && turn_led_to(
                #[trigger] take_turn(old(snake)@, old(food)@, *old(score), *keys, draw),
                final(snake)@,
                final(food)@,
                *final(score),
                old(actions)@,
                final(actions)@,
                alive,
            ),
{
    snake.crawl(keys);
    let ghost draw = choose|draw: u8|
        draw <= DRAW_MAX && snake@ == old(snake)@.crawled(*keys, draw);
    // the turn that this draw stands for is the one that is played out below
    let ghost turn = take_turn(old(snake)@, old(food)@, *old(score), *keys, draw);
    let head: Sprite = match snake.head() {
        Some(segment) => segment.sprite,
        None => {
            return true;
        },
    };
    let eaten = food_touched(food, &head);
    if eaten.len() > 0 {
        if snake.dies_from_bad_food() && any_bad(&eaten) {
            return false;
        }
        if snake.is_owned_by_user() {
            *score = score.saturating_add(eaten.len() as u64);
        }
        snake.grow();
        *food = food_untouched(food, &head);
    }
    let sprites = snake.render();
    push_draws(actions, &sprites);
    true
}

impl Game {
    /// Whether the game is well formed.
    pub open spec fn wf(&self) -> bool {
        self@.wf()
    }

    /// Starts a game with the given snakes and food. The clock for food
    /// requests starts at `now`.
    pub fn new(snakes: Vec<Snake>, food: Vec<Food>, now: u64) -> (game: Game)
        requires
            forall|i: int| 0 <= i < snakes@.len() ==> (#[trigger] snakes@[i])@.wf(),
        ensures
            game@ == (GameView {
                snakes: views_of(snakes@),
                food: food@,
                last_food_fetched: now,
                running: true,
                score: 0,
            }),
            game.wf(),
    {
        Game { snakes, food, last_food_fetched: now, running: true, score: 0 }
    }

    /// Whether the round is still on.
    pub fn running(&self) -> (running: bool)
        ensures
            running == self@.running,
    {
        self.running
    }

    /// The score so far.
    pub fn score(&self) -> (score: u64)
        ensures
            score == self@.score,
    {
        self.score
    }

    /// The snakes.
    pub fn snakes(&self) -> (snakes: &Vec<Snake>)
        ensures
            views_of(snakes@) == self@.snakes,
    {
        &self.snakes
    }

    /// The food on the field.
    pub fn food(&self) -> (food: &Vec<Food>)
        ensures
            food@ == self@.food,
    {
        &self.food
    }

    /// Ends the round.
    pub fn stop(&mut self)
        ensures
            final(self)@ == (GameView { running: false, ..old(self)@ }),
    {
        self.running = false;
    }

    /// Ends the round on a death and gives the marker to draw over the head
    /// of the first snake of the kind `User`.
    pub fn die(&mut self) -> (marker: Sprite)
        requires
            old(self).wf(),
            old(self)@.has_user(),
        ensures
            final(self)@ == (GameView { running: false, ..old(self)@ }),
            marker == dead_head(old(self)@.snakes[first_user(old(self)@.snakes)].head().sprite),
    {
        self.stop();
        let mut at: usize = 0;
        while at < self.snakes.len() && self.snakes[at].kind() != SnakeKind::User
            invariant
                at <= self.snakes@.len(),
                self@ == (GameView { running: false, ..old(self)@ }),
                self@.has_user(),
                forall|j: int| 0 <= j < at ==> (#[trigger] self@.snakes[j]).kind != SnakeKind::User,
            decreases self.snakes@.len() - at,
        {
            at += 1;
        }
        assert(is_first_user(self@.snakes, at as int));
        let head: Sprite = match self.snakes[at].head() {
            Some(segment) => segment.sprite,
            None => Sprite { width: 0, height: 0, r: 0, g: 0, b: 0, x: 0, y: 0 },
        };
        Sprite {
            width: head.width,
            height: head.height,
            r: DEAD_HEAD_RED,
            g: DEAD_HEAD_GREEN,
            b: DEAD_HEAD_BLUE,
            x: head.x,
            y: head.y,
        }
    }

    /// Takes away the food that has expired at the moment `now`.
    pub fn remove_expired_food(&mut self, now: u64)
        ensures
            final(self)@ == (GameView { food: unexpired(old(self)@.food, now), ..old(self)@ }),
    {
        self.food = food_unexpired(&self.food, now);
    }

    /// Appends to `new_food` the food made of each arrival, in the order of
    /// arrival.
    pub fn check_new_food_downloaded(
        arrivals: &Vec<SpriteData>,
        now: u64,
        new_food: &mut Vec<Food>,
    )
        ensures
            final(new_food)@ == old(new_food)@ + arrived(arrivals@, now),
    {
        let mut at: usize = 0;
        while at < arrivals.len()
            invariant
                at <= arrivals@.len(),
                new_food@ == old(new_food)@ + arrived(arrivals@.take(at as int), now),
            decreases arrivals@.len() - at,
        {
            new_food.push(Food::from_data(&arrivals[at], now));
            at += 1;
        }
    }

    /// Decides whether food is to be asked for at the moment `now`, and if so
    /// sets the clock for requests anew.
    pub fn request_new_food(&mut self, now: u64) -> (due: bool)
        ensures
            due == request_due(old(self)@.last_food_fetched, now),
            final(self)@ == (GameView {
                last_food_fetched: if due {
                    now
                } else {
                    old(self)@.last_food_fetched
                },
                ..old(self)@
            }),
    {
        if now > self.last_food_fetched && now - self.last_food_fetched > FOOD_UPDATE_NANOS {
            self.last_food_fetched = now;
            true
        } else {
            false
        }
    }

    /// Deals with the food: sweeps out what has expired, takes in what has
    /// arrived, asks for more if that is due, and draws what is there.
    pub fn render_food(&mut self, now: u64, arrivals: &Vec<SpriteData>, actions: &mut Vec<Action>)
        ensures
            final(self)@ == food_served(old(self)@, now, arrivals@),
            final(actions)@ == old(actions)@ + food_actions(old(self)@, now, arrivals@),
    {
        self.remove_expired_food(now);
        let mut new_food: Vec<Food> = Vec::new();
        Game::check_new_food_downloaded(arrivals, now, &mut new_food);
        self.food.append(&mut new_food);
        if self.request_new_food(now) {
            actions.push(Action::RequestFood);
        }
        let ghost requested = actions@;
        let mut at: usize = 0;
        while at < self.food.len()
            invariant
                at <= self.food@.len(),
                self@ == food_served(old(self)@, now, arrivals@),
                actions@ == requested + food_draws(self.food@.take(at as int)),
            decreases self.food@.len() - at,
        {
            actions.push(Action::Draw(self.food[at].sprite));
            at += 1;
        }
    }

    /// Asks for the score to be shown.
    pub fn render_score(&self, actions: &mut Vec<Action>)
        ensures
            final(actions)@ == old(actions)@.push(Action::Score(self@.score)),
    {
        actions.push(Action::Score(self.score));
    }

    /// Lets the snakes take their turns, in order, until one dies: see
    /// [`snakes_turns`].
    pub fn render_snakes(&mut self, keys: &Keys, actions: &mut Vec<Action>) -> (verdict: Result<
        (),
        BadFoodEaten,
    >)
        requires
            old(self).wf(),
        ensures
            final(self).wf(),
            exists|draws: Seq<u8>|
                draws.len() == old(self)@.snakes.len() && draws_ok(draws) && round_led_to(
                    #[trigger] snakes_turns(round_of(old(self)@, old(actions)@), *keys, draws),
                    old(self)@,
                    final(self)@,
                    final(actions)@,
                    verdict,
                ),
    {
        let ghost start = round_of(self@, actions@);
        let ghost mut draws: Seq<u8> = Seq::empty();
        let count = self.snakes.len();
        let mut at: usize = 0;
        while at < count
            invariant
                count == self.snakes@.len(),
                count == start.snakes.len(),
                at <= count,
                draws.len() == at,
                draws_ok(draws),
                self.wf(),
                start == round_of(old(self)@, old(actions)@),
                snakes_turns(start, *keys, draws).died.is_none(),
                round_led_to(
                    snakes_turns(start, *keys, draws),
                    old(self)@,
                    self@,
                    actions@,
                    Ok(()),
                ),
            decreases count - at,
        {
            let ghost before = snakes_turns(start, *keys, draws);
            let ghost snakes_before = self.snakes@;
            let ghost food_before = self.food@;
            let ghost score_before = self.score;
            let ghost actions_before = actions@;
            assert(self@.snakes[at as int].wf());
            let alive = turn_of(
                &mut self.snakes[at],
                &mut self.food,
                &mut self.score,
                keys,
                actions,
            );
            proof {
                let draw = choose|draw: u8|
                    draw <= DRAW_MAX && turn_led_to(
                        #[trigger] take_turn(
                            snakes_before[at as int]@,
                            food_before,
                            score_before,
                            *keys,
                            draw,
                        ),
                        self.snakes@[at as int]@,
                        self.food@,
                        self.score,
                        actions_before,
                        actions@,
                        alive,
                    );
                let longer = draws.push(draw);
                assert(longer.drop_last() =~= draws);
                assert(self@.snakes =~= before.snakes.update(at as int, self.snakes@[at as int]@));
                assert(snakes_turns(start, *keys, longer) == snake_turn(
                    before,
                    at as int,
                    *keys,
                    draw,
                ));
                draws = longer;
            }
            if !alive {
                proof {
                    let rest = Seq::new((count - at - 1) as nat, |i: int| 0u8);
                    lemma_turns_end_at_death(start, *keys, draws, rest);
                    draws = draws + rest;
                }
                return Err(BadFoodEaten { snake: at });
            }
            at += 1;
        }
        Ok(())
    }

    /// Plays one tick. `now` is the clock, `keys` the keyboard, `arrivals`
    /// what the food source has sent since the last tick; the actions that
    /// come back are to be carried out in their order. See [`tick`].
    pub fn render(&mut self, now: u64, keys: &Keys, arrivals: &Vec<SpriteData>) -> (actions: Vec<
        Action,
    >)
        requires
            old(self).wf(),
        ensures
            final(self).wf(),
            exists|draws: Seq<u8>|
                draws.len() == old(self)@.snakes.len() && draws_ok(draws) && tick_led_to(
                    #[trigger] tick(old(self)@, now, *keys, arrivals@, draws),
                    final(self)@,
                    actions@,
                ),
    {
        let mut actions: Vec<Action> = Vec::new();
        actions.push(Action::Clear);
        assert(actions@ =~= seq![Action::Clear]);
        let verdict = self.render_snakes(keys, &mut actions);
        let ghost draws = choose|draws: Seq<u8>|
            draws.len() == old(self)@.snakes.len() && draws_ok(draws) && round_led_to(
                #[trigger] snakes_turns(round_of(old(self)@, seq![Action::Clear]), *keys, draws),
                old(self)@,
                self@,
                actions@,
                verdict,
            );
        let ghost played = tick(old(self)@, now, *keys, arrivals@, draws);
        proof {
            lemma_turns_keep_snakes(round_of(old(self)@, seq![Action::Clear]), *keys, draws);
        }
        match verdict {
            Err(_) => {
                let marker = self.die();
                actions.push(Action::Draw(marker));
                assert(self@ == played.game);
                assert(actions@ =~= played.actions);
            },
            Ok(_) => {
                self.render_food(now, arrivals, &mut actions);
                self.render_score(&mut actions);
                assert(self@ == played.game);
                assert(actions@ =~= played.actions);
            },
        }
        assert(tick_led_to(played, self@, actions@));
        actions
    }
}

} // verus!
