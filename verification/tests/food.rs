use snake_game::food::{
    any_bad, food_touched, food_unexpired, food_untouched, Food, FoodType, BAD_FOOD_THRESHOLD,
    FOOD_SIDE, FOOD_TTL_NANOS,
};
use snake_game::game::Game;
use snake_game::remote::SpriteData;
use snake_game::sprite::Sprite;

const HOUR: u128 = 3_600_000_000_000;

fn data(r: i32, g: i32, b: i32) -> SpriteData {
    SpriteData { width: 40, height: 50, x: 10_000, y: 15_000, r, g, b }
}

fn piece(x: i64, y: i64, expires: u128, food_type: FoodType) -> Food {
    Food { sprite: Sprite { width: 25, height: 25, r: 9, g: 9, b: 9, x, y }, expires, food_type }
}

#[test]
fn red_food_is_bad_and_drawn_in_pure_red() {
    let food = Food::from_data(&data(200, 17, 99), 0);
    assert_eq!(food.food_type, FoodType::Bad);
    assert_eq!((food.sprite.r, food.sprite.g, food.sprite.b), (255, 0, 0));
}

#[test]
fn other_food_is_good_and_keeps_its_colour() {
    let food = Food::from_data(&data(100, 17, 99), 0);
    assert_eq!(food.food_type, FoodType::Good);
    assert_eq!((food.sprite.r, food.sprite.g, food.sprite.b), (100, 17, 99));
}

#[test]
fn the_threshold_itself_is_good() {
    assert_eq!(BAD_FOOD_THRESHOLD, 150);
    let at = Food::from_data(&data(150, 1, 2), 0);
    assert_eq!(at.food_type, FoodType::Good);
    assert_eq!((at.sprite.r, at.sprite.g, at.sprite.b), (150, 1, 2));
    let above = Food::from_data(&data(151, 1, 2), 0);
    assert_eq!(above.food_type, FoodType::Bad);
    assert_eq!((above.sprite.r, above.sprite.g, above.sprite.b), (255, 0, 0));
    let negative = Food::from_data(&data(-300, 1, 2), 0);
    assert_eq!(negative.food_type, FoodType::Good);
    assert_eq!(negative.sprite.r, -300);
}

#[test]
fn food_has_the_usual_size_wherever_the_source_puts_it() {
    let food = Food::from_data(&data(0, 0, 0), 0);
    assert_eq!(FOOD_SIDE, 25);
    assert_eq!((food.sprite.width, food.sprite.height), (25, 25));
    assert_eq!((food.sprite.x, food.sprite.y), (10_000, 15_000));
    let far = SpriteData { width: 0, height: 0, x: i32::MIN, y: i32::MAX, r: 0, g: 0, b: 0 };
    let food = Food::from_data(&far, 0);
    assert_eq!((food.sprite.x, food.sprite.y), (i32::MIN as i64, i32::MAX as i64));
}

#[test]
fn food_expires_a_hundred_seconds_after_it_came() {
    assert_eq!(FOOD_TTL_NANOS, 100_000_000_000);
    let food = Food::from_data(&data(0, 0, 0), 5);
    assert_eq!(food.expires, 100_000_000_005);
    assert!(!food.is_expired(5));
    assert!(!food.is_expired(100_000_000_004));
    assert!(food.is_expired(100_000_000_005));
    assert!(food.is_expired(u64::MAX));
    // at the end of the clock the expiry lies beyond it
    let last = Food::from_data(&data(0, 0, 0), u64::MAX);
    assert_eq!(last.expires, u64::MAX as u128 + 100_000_000_000);
    assert!(!last.is_expired(u64::MAX));
}

#[test]
fn the_sweep_takes_expired_food_and_leaves_the_rest() {
    let now: u64 = 1_000_000_000_000;
    let stale = piece(0, 0, now as u128 - 1, FoodType::Good);
    let due = piece(1, 1, now as u128, FoodType::Bad);
    let fresh = piece(2, 2, now as u128 + HOUR, FoodType::Good);
    assert!(stale.is_expired(now));
    assert!(due.is_expired(now));
    assert!(!fresh.is_expired(now));
    assert_eq!(food_unexpired(&vec![stale, fresh, due, fresh], now), vec![fresh, fresh]);
    let mut game = Game::new(vec![], vec![stale, fresh, due], 0);
    game.remove_expired_food(now);
    assert_eq!(game.food(), &vec![fresh]);
    // an hour later the rest is gone too
    game.remove_expired_food(now + HOUR as u64);
    assert!(game.food().is_empty());
}

#[test]
fn arrivals_become_food_in_their_order() {
    let mut new_food = vec![piece(7, 7, 1, FoodType::Good)];
    let arrivals = vec![data(200, 1, 1), data(10, 20, 30)];
    Game::check_new_food_downloaded(&arrivals, 42, &mut new_food);
    assert_eq!(
        new_food,
        vec![
            piece(7, 7, 1, FoodType::Good),
            Food::from_data(&arrivals[0], 42),
            Food::from_data(&arrivals[1], 42),
        ]
    );
    assert_eq!(new_food[1].food_type, FoodType::Bad);
    assert_eq!(new_food[2].food_type, FoodType::Good);
    assert_eq!(new_food[2].expires, 100_000_000_042);
}

#[test]
fn a_head_eats_what_it_touches() {
    let head = Sprite { width: 25, height: 25, r: 0, g: 255, b: 0, x: 10_300, y: 15_000 };
    let under = piece(10_000, 15_000, 1, FoodType::Good);
    let ahead = piece(12_000, 14_000, 1, FoodType::Bad);
    let away = piece(40_000, 40_000, 1, FoodType::Bad);
    let food = vec![away, under, away, ahead];
    assert_eq!(food_touched(&food, &head), vec![under, ahead]);
    assert_eq!(food_untouched(&food, &head), vec![away, away]);
    assert!(any_bad(&food_touched(&food, &head)));
    assert!(!any_bad(&vec![under]));
    assert!(!any_bad(&vec![]));
    assert!(food_touched(&vec![away], &head).is_empty());
}
