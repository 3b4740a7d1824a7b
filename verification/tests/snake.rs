use rand::rngs::StdRng;
use rand::SeedableRng;
use snake_game::snake::{
    keyed_direction, next_head, sample_turn, turn_for_draw, Direction, Keys, Snake, SnakeKind,
    SnakeMovement, INITIAL_STRIDE, MAX_STRIDE, POSITION_LIMIT, SNAKE_SPEED, STRIDE_GROWTH,
};
use snake_game::sprite::{Sprite, Window, SUBPIXELS};

const FIELD: Window = Window { width: 800, height: 600, sprite_side: 25 };

const NO_KEYS: Keys = Keys { left: false, right: false, up: false, down: false };

fn green(x: i64, y: i64) -> Sprite {
    Sprite { width: 25, height: 25, r: 0, g: 255, b: 0, x, y }
}

fn user_snake(x: i64, y: i64) -> Snake {
    Snake::new(SnakeKind::User, FIELD, x, y, 25, 25, 0, 255, 0)
}

fn xs(snake: &Snake) -> Vec<i64> {
    snake.render().iter().map(|sprite| sprite.x).collect()
}

fn ys(snake: &Snake) -> Vec<i64> {
    snake.render().iter().map(|sprite| sprite.y).collect()
}

#[test]
fn a_new_snake_is_one_segment_heading_right() {
    let snake = user_snake(10_000, 15_000);
    assert_eq!(snake.len(), 1);
    assert_eq!(snake.speed(), SNAKE_SPEED);
    assert_eq!(snake.speed(), 3);
    assert_eq!(snake.stride(), INITIAL_STRIDE);
    assert_eq!(snake.stride(), 100);
    assert_eq!(snake.direction(), Direction::Right);
    assert_eq!(snake.kind(), SnakeKind::User);
    assert_eq!(snake.head().map(|segment| segment.sprite), Some(green(10_000, 15_000)));
    assert_eq!(snake.render(), vec![green(10_000, 15_000)]);
}

#[test]
fn crawl_keeps_the_length_and_takes_speed_steps() {
    let mut snake = user_snake(10_000, 15_000);
    snake.crawl(&NO_KEYS);
    assert_eq!(snake.len(), 1);
    assert_eq!(snake.render(), vec![green(10_300, 15_000)]);
    assert_eq!(snake.stride(), 100);
}

#[test]
fn grow_adds_speed_segments_and_lengthens_the_stride() {
    let mut snake = user_snake(10_000, 15_000);
    snake.grow();
    assert_eq!(snake.len(), 1 + 3);
    assert_eq!(snake.stride(), INITIAL_STRIDE + STRIDE_GROWTH);
    assert_eq!(snake.stride(), 102);
    // the new heads are a stride apart, the latest in front, the old body behind
    assert_eq!(xs(&snake), vec![10_306, 10_204, 10_102, 10_000]);
    assert_eq!(ys(&snake), vec![15_000; 4]);
    snake.grow();
    assert_eq!(snake.len(), 7);
    assert_eq!(snake.stride(), 104);
    assert_eq!(xs(&snake), vec![10_618, 10_514, 10_410, 10_306, 10_204, 10_102, 10_000]);
}

#[test]
fn crawl_of_a_long_snake_drops_the_tail() {
    let mut snake = user_snake(10_000, 15_000);
    snake.grow();
    snake.grow();
    assert_eq!(snake.len(), 7);
    snake.crawl(&Keys { up: true, ..NO_KEYS });
    assert_eq!(snake.len(), 7);
    assert_eq!(snake.direction(), Direction::Up);
    assert_eq!(xs(&snake), vec![10_618, 10_618, 10_618, 10_618, 10_514, 10_410, 10_306]);
    assert_eq!(ys(&snake), vec![14_688, 14_792, 14_896, 15_000, 15_000, 15_000, 15_000]);
}

#[test]
fn every_segment_copies_size_and_colour_from_the_head() {
    let mut snake = Snake::new(SnakeKind::Buddy, FIELD, 0, 0, 11, 13, 25, 26, 27);
    snake.grow();
    for sprite in snake.render() {
        assert_eq!((sprite.width, sprite.height), (11, 13));
        assert_eq!((sprite.r, sprite.g, sprite.b), (25, 26, 27));
    }
}

#[test]
fn head_past_the_left_margin_reappears_at_the_width() {
    for side in [0, 1, 25, 60, 1000] {
        for width in [1, 320, 800, 1920, 100_000] {
            let window = Window { width, height: 600, sprite_side: side };
            let head = green(-((side as i64) + 1) * SUBPIXELS, 4_200);
            for stride in [100, 102, 5_000] {
                let next = next_head(&head, Direction::Left, &window, stride);
                assert_eq!(next.x, width as i64 * SUBPIXELS);
                assert_eq!(next.y, 4_200);
            }
        }
    }
}

#[test]
fn the_other_edges_wrap_too() {
    let right = next_head(&green(80_001, 7), Direction::Right, &FIELD, 100);
    assert_eq!((right.x, right.y), (-2_500, 7));
    let up = next_head(&green(7, -2_501), Direction::Up, &FIELD, 100);
    assert_eq!((up.x, up.y), (7, 60_000));
    let down = next_head(&green(7, 60_001), Direction::Down, &FIELD, 100);
    assert_eq!((down.x, down.y), (7, -2_500));
}

#[test]
fn a_head_on_the_margin_takes_one_more_step() {
    // the tests on the margins are strict: on the margin itself the head still steps
    let left = next_head(&green(-2_500, 0), Direction::Left, &FIELD, 100);
    assert_eq!(left.x, -2_600);
    let right = next_head(&green(80_000, 0), Direction::Right, &FIELD, 100);
    assert_eq!(right.x, 80_100);
    let up = next_head(&green(0, -2_500), Direction::Up, &FIELD, 100);
    assert_eq!(up.y, -2_600);
    let down = next_head(&green(0, 60_000), Direction::Down, &FIELD, 100);
    assert_eq!(down.y, 60_100);
}

#[test]
fn a_step_inside_the_field_moves_by_the_stride() {
    let head = green(40_000, 30_000);
    assert_eq!(next_head(&head, Direction::Left, &FIELD, 102), green(39_898, 30_000));
    assert_eq!(next_head(&head, Direction::Right, &FIELD, 102), green(40_102, 30_000));
    assert_eq!(next_head(&head, Direction::Up, &FIELD, 102), green(40_000, 29_898));
    assert_eq!(next_head(&head, Direction::Down, &FIELD, 102), green(40_000, 30_102));
}

#[test]
fn a_snake_leaving_on_the_left_comes_back_on_the_right() {
    let mut snake = user_snake(-2_600, 15_000);
    snake.crawl(&Keys { left: true, ..NO_KEYS });
    // first step wraps to the width, the two others step on from there
    assert_eq!(xs(&snake), vec![79_800]);
    let mut snake = user_snake(-2_600, 15_000);
    snake.crawl(&Keys { left: true, ..NO_KEYS });
    snake.grow();
    assert_eq!(xs(&snake), vec![79_494, 79_596, 79_698, 79_800]);
}

#[test]
fn steps_stay_in_range_at_the_limits() {
    let window = Window { width: i32::MAX, height: i32::MIN, sprite_side: i32::MIN };
    let head = green(POSITION_LIMIT, -POSITION_LIMIT);
    let right = next_head(&head, Direction::Right, &window, MAX_STRIDE);
    assert_eq!(right.x, -(i32::MIN as i64 * SUBPIXELS));
    let up = next_head(&head, Direction::Up, &window, MAX_STRIDE);
    assert_eq!(up.y, i32::MIN as i64 * SUBPIXELS);
    let left = next_head(&head, Direction::Left, &window, MAX_STRIDE);
    assert_eq!(left.x, POSITION_LIMIT - MAX_STRIDE);
}

#[test]
fn the_last_key_heard_wins() {
    let held = |left, right, up, down| Keys { left, right, up, down };
    assert_eq!(keyed_direction(Direction::Up, &NO_KEYS), Direction::Up);
    assert_eq!(keyed_direction(Direction::Up, &held(true, false, false, false)), Direction::Left);
    assert_eq!(keyed_direction(Direction::Up, &held(true, true, false, false)), Direction::Right);
    assert_eq!(keyed_direction(Direction::Down, &held(true, true, true, false)), Direction::Up);
    assert_eq!(keyed_direction(Direction::Left, &held(true, true, true, true)), Direction::Down);
    assert_eq!(keyed_direction(Direction::Left, &held(false, false, false, true)), Direction::Down);
}

#[test]
fn draws_decode_to_turns() {
    for draw in 0..=46u8 {
        assert_eq!(turn_for_draw(draw), None);
    }
    assert_eq!(turn_for_draw(47), Some(Direction::Left));
    assert_eq!(turn_for_draw(48), Some(Direction::Right));
    assert_eq!(turn_for_draw(49), Some(Direction::Up));
    assert_eq!(turn_for_draw(50), Some(Direction::Down));
    for draw in 51..=u8::MAX {
        assert_eq!(turn_for_draw(draw), None);
    }
}

#[test]
fn autonomous_turns_follow_the_shares() {
    let mut rng = StdRng::seed_from_u64(0x5eed);
    let samples = 10_000;
    let (mut keep, mut left, mut right, mut up, mut down) = (0i64, 0i64, 0i64, 0i64, 0i64);
    for _ in 0..samples {
        match sample_turn(&mut rng) {
            None => keep += 1,
            Some(Direction::Left) => left += 1,
            Some(Direction::Right) => right += 1,
            Some(Direction::Up) => up += 1,
            Some(Direction::Down) => down += 1,
        }
    }
    assert_eq!(keep + left + right + up + down, samples);
    // 47 of 51 draws keep the course, one of 51 goes to each turn
    let expected_keep = samples * 47 / 51;
    let expected_turn = samples / 51;
    assert!((keep - expected_keep).abs() <= 150, "kept course {keep} times");
    for (name, count) in [("left", left), ("right", right), ("up", up), ("down", down)] {
        assert!((count - expected_turn).abs() <= 70, "turned {name} {count} times");
    }
    let turns = left + right + up + down;
    assert!((turns - samples * 4 / 51).abs() <= 150, "turned {turns} times");
}

#[test]
fn the_same_seed_gives_the_same_walk() {
    let walk = |seed: u64| {
        let rng = StdRng::seed_from_u64(seed);
        let mut snake =
            Snake::with_rng(SnakeKind::Autonomous, FIELD, 40_000, 30_000, 25, 25, 50, 25, 128, rng);
        let mut heads = Vec::new();
        for _ in 0..500 {
            snake.crawl(&Keys { left: true, right: true, up: true, down: true });
            heads.push(snake.head().map(|segment| (segment.sprite.x, segment.sprite.y)));
        }
        heads
    };
    assert_eq!(walk(7), walk(7));
    assert_ne!(walk(7), walk(8));
}

#[test]
fn an_autonomous_snake_ignores_the_keyboard_and_keeps_its_length() {
    let rng = StdRng::seed_from_u64(11);
    let mut snake =
        Snake::with_rng(SnakeKind::Autonomous, FIELD, 40_000, 30_000, 25, 25, 50, 25, 128, rng);
    let mut turns = 0;
    let mut course = snake.direction();
    for _ in 0..2_000 {
        let before = snake.head().map(|segment| segment.sprite).unwrap();
        snake.crawl(&Keys { down: true, ..NO_KEYS });
        let after = snake.head().map(|segment| segment.sprite).unwrap();
        assert_eq!(snake.len(), 1);
        if snake.direction() != course {
            turns += 1;
            course = snake.direction();
        }
        // three steps along the course, or a wrap to an edge
        let moved = (after.x - before.x, after.y - before.y);
        let straight = match course {
            Direction::Left => moved == (-300, 0),
            Direction::Right => moved == (300, 0),
            Direction::Up => moved == (0, -300),
            Direction::Down => moved == (0, 300),
        };
        let wrapped = before.x < -2_500 + 300
            || before.x > 80_000 - 300
            || before.y < -2_500 + 300
            || before.y > 60_000 - 300;
        assert!(straight || wrapped);
    }
    // far fewer turns than ticks, and far fewer than a snake that followed the held key
    assert!(turns > 0 && turns < 400, "turned {turns} times");
}

#[test]
fn kinds_decide_who_steers_and_who_dies() {
    let snake = |kind| Snake::new(kind, FIELD, 0, 0, 25, 25, 0, 0, 0);
    assert!(snake(SnakeKind::User).is_owned_by_user());
    assert!(snake(SnakeKind::Buddy).is_owned_by_user());
    assert!(!snake(SnakeKind::Autonomous).is_owned_by_user());
    assert!(snake(SnakeKind::User).dies_from_bad_food());
    assert!(!snake(SnakeKind::Buddy).dies_from_bad_food());
    assert!(!snake(SnakeKind::Autonomous).dies_from_bad_food());
}

#[test]
fn buddy_follows_the_keyboard_like_the_user() {
    let mut buddy = Snake::new(SnakeKind::Buddy, FIELD, 10_000, 10_000, 25, 25, 25, 25, 25);
    buddy.crawl(&Keys { down: true, ..NO_KEYS });
    assert_eq!(buddy.direction(), Direction::Down);
    assert_eq!((xs(&buddy), ys(&buddy)), (vec![10_000], vec![10_300]));
    buddy.crawl(&NO_KEYS);
    assert_eq!(buddy.direction(), Direction::Down);
    assert_eq!(ys(&buddy), vec![10_600]);
}

#[test]
fn stride_grows_by_a_fiftieth_of_a_pixel_each_time() {
    let mut snake = user_snake(0, 0);
    for growths in 1..=50i64 {
        snake.grow();
        assert_eq!(snake.stride(), 100 + 2 * growths);
        assert_eq!(snake.len() as i64, 1 + 3 * growths);
    }
    // fifty growths make the stride two pixels
    assert_eq!(snake.stride(), 2 * SUBPIXELS);
}
