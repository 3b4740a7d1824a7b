use snake_game::food::{Food, FoodType};
use snake_game::game::{Action, Game};
use snake_game::remote::SpriteData;
use snake_game::session::{
    create_snakes, game_main_loop, game_over_loop, new_round, GameOverPass, GameOverScreen, Poll,
    Tint, GAME_OVER_FLASH_NANOS, SPRITE_SIDE, WINDOW_HEIGHT, WINDOW_WIDTH,
};
use snake_game::snake::{Direction, Keys, Snake, SnakeKind, SnakeMovement};
use snake_game::sprite::{Sprite, Window};

const NO_KEYS: Keys = Keys { left: false, right: false, up: false, down: false };

fn seed() -> SpriteData {
    SpriteData { width: 60, height: 70, x: 10_000, y: 15_000, r: 9, g: 8, b: 7 }
}

fn looks(snake: &Snake) -> (SnakeKind, Vec<Sprite>, Direction, i32, i64) {
    (snake.kind(), snake.render(), snake.direction(), snake.speed(), snake.stride())
}

#[test]
fn a_round_starts_with_three_snakes() {
    assert_eq!((WINDOW_WIDTH, WINDOW_HEIGHT, SPRITE_SIDE), (800, 600, 25));
    let mut snakes = Vec::new();
    create_snakes(&mut snakes, &seed());
    assert_eq!(snakes.len(), 3);
    let body = |r, g, b, x, y| vec![Sprite { width: 25, height: 25, r, g, b, x, y }];
    assert_eq!(
        looks(&snakes[0]),
        (SnakeKind::User, body(0, 255, 0, 10_000, 15_000), Direction::Right, 3, 100)
    );
    assert_eq!(
        looks(&snakes[1]),
        (SnakeKind::Buddy, body(25, 25, 25, 12_500, 17_500), Direction::Right, 3, 100)
    );
    assert_eq!(
        looks(&snakes[2]),
        (SnakeKind::Autonomous, body(50, 25, 128, 12_500, 17_500), Direction::Right, 3, 100)
    );
    // more snakes come behind those that are there
    create_snakes(&mut snakes, &SpriteData { x: i32::MAX, y: i32::MIN, ..seed() });
    assert_eq!(snakes.len(), 6);
    assert_eq!(snakes[0].kind(), SnakeKind::User);
    assert_eq!(
        snakes[4].render(),
        body(25, 25, 25, i32::MAX as i64 + 2_500, i32::MIN as i64 + 2_500)
    );
}

#[test]
fn the_snakes_wrap_on_the_field_of_the_round() {
    let mut snakes = Vec::new();
    create_snakes(&mut snakes, &SpriteData { x: 80_001, y: -2_501, ..seed() });
    snakes[0].crawl(&NO_KEYS);
    assert_eq!(snakes[0].render()[0].x, -2_500 + 200);
    snakes[0].crawl(&Keys { up: true, ..NO_KEYS });
    assert_eq!(snakes[0].render()[0].y, 60_000 - 200);
}

#[test]
fn a_new_round_keeps_nothing_of_the_last() {
    let mut game = new_round(&seed(), 77);
    assert!(game.running());
    assert_eq!(game.score(), 0);
    assert!(game.food().is_empty());
    assert_eq!(game.snakes().len(), 3);
    assert_eq!(game.snakes()[0].render()[0].x, 10_000);
    // the clock for food requests starts with the round
    assert!(!game.request_new_food(77 + 500_000_000));
    assert!(game.request_new_food(77 + 500_000_001));
}

#[test]
fn the_main_loop_plays_while_the_round_is_on() {
    let field = Window { width: 800, height: 600, sprite_side: 25 };
    let snake = Snake::new(SnakeKind::User, field, 10_000, 15_000, 25, 25, 0, 255, 0);
    let bad = Food {
        sprite: Sprite { width: 25, height: 25, r: 255, g: 0, b: 0, x: 13_000, y: 15_000 },
        expires: u128::MAX,
        food_type: FoodType::Bad,
    };
    let mut game = Game::new(vec![snake], vec![bad], 0);
    // a window asked to close ends the loop and leaves the game alone
    assert_eq!(game_main_loop(&mut game, true, 1, &NO_KEYS, &vec![]), None);
    assert_eq!(game.snakes()[0].render()[0].x, 10_000);
    assert!(game.running());
    // a tick is played: the head stops short of the food
    let actions = game_main_loop(&mut game, false, 2, &NO_KEYS, &vec![]).unwrap();
    assert_eq!(actions.first(), Some(&Action::Clear));
    assert_eq!(actions.last(), Some(&Action::Score(0)));
    assert!(game.running());
    // the next tick kills the snake
    let actions = game_main_loop(&mut game, false, 3, &NO_KEYS, &vec![]).unwrap();
    assert_eq!(actions.len(), 2);
    assert!(!game.running());
    // and the loop is over
    assert_eq!(game_main_loop(&mut game, false, 4, &NO_KEYS, &vec![]), None);
    assert_eq!(game.snakes()[0].render()[0].x, 10_600);
}

#[test]
fn the_game_over_message_alternates() {
    let (mut screen, first) = GameOverScreen::open(true, 500);
    assert_eq!(first, Tint::Red);
    assert_eq!(screen, GameOverScreen { red: false, last_flash: 500 });
    assert_eq!(screen.render_game_over_message(), Tint::Green);
    assert_eq!(screen.render_game_over_message(), Tint::Red);
    assert_eq!(screen.render_game_over_message(), Tint::Green);
    assert_eq!(screen, GameOverScreen { red: true, last_flash: 500 });
    let (screen, first) = GameOverScreen::open(false, 0);
    assert_eq!(first, Tint::Green);
    assert!(screen.red);
}

#[test]
fn the_game_over_loop_flashes_every_second_and_waits_for_space() {
    assert_eq!(GAME_OVER_FLASH_NANOS, 1_000_000_000);
    let (mut screen, _) = GameOverScreen::open(true, 0);
    let idle = |now| Poll { should_close: false, now, space: false };
    let waiting = GameOverPass { flash: None, restart: None };
    assert_eq!(game_over_loop(&mut screen, &idle(10_000_000)), waiting);
    assert_eq!(game_over_loop(&mut screen, &idle(999_999_999)), waiting);
    assert_eq!(
        game_over_loop(&mut screen, &idle(1_000_000_000)),
        GameOverPass { flash: Some(Tint::Green), restart: None }
    );
    assert_eq!(screen, GameOverScreen { red: true, last_flash: 1_000_000_000 });
    assert_eq!(game_over_loop(&mut screen, &idle(1_999_999_999)), waiting);
    assert_eq!(
        game_over_loop(&mut screen, &idle(2_500_000_000)),
        GameOverPass { flash: Some(Tint::Red), restart: None }
    );
    assert_eq!(game_over_loop(&mut screen, &idle(0)), waiting);
    // space asks for a new round
    assert_eq!(
        game_over_loop(&mut screen, &Poll { should_close: false, now: 2_600_000_000, space: true }),
        GameOverPass { flash: None, restart: Some(true) }
    );
    // a flash that is due is drawn before the loop ends
    assert_eq!(
        game_over_loop(&mut screen, &Poll { should_close: false, now: 3_500_000_000, space: true }),
        GameOverPass { flash: Some(Tint::Green), restart: Some(true) }
    );
}

#[test]
fn a_closing_window_ends_the_game_over_loop_without_a_new_round() {
    let (mut screen, _) = GameOverScreen::open(true, 0);
    let before = screen;
    let poll = Poll { should_close: true, now: 5_000_000_000, space: true };
    assert_eq!(
        game_over_loop(&mut screen, &poll),
        GameOverPass { flash: None, restart: Some(false) }
    );
    assert_eq!(screen, before);
}
