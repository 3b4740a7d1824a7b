//! Food: what a snake eats, how long it lies on the field, and which of it
//! kills.

use crate::remote::SpriteData;
use crate::sprite::{overlaps, overlaps_spec, Sprite};
use vstd::prelude::*;

verus! {

/// The side of a food sprite, in pixels. What the source says of the size is
/// not used.
pub const FOOD_SIDE: i32 = 25;

/// How long food lies on the field: a hundred seconds, in nanoseconds.
pub const FOOD_TTL_NANOS: u64 = 100_000_000_000;

/// Food whose red channel is above this is bad.
pub const BAD_FOOD_THRESHOLD: i32 = 150;

/// Whether food feeds or kills.
#[derive(Clone, Copy, Debug, PartialEq, Eq, Structural)]
pub enum FoodType {
    Good,
    Bad,
}

/// A piece of food. `expires` is the moment, in nanoseconds, from which it is
/// gone; it may lie beyond what the clock can reach.
#[derive(Clone, Copy, Debug, PartialEq, Eq, Structural)]
pub struct Food {
    pub sprite: Sprite,
    pub expires: u128,
    pub food_type: FoodType,
}

/// The kind of food that the source's data stands for.
pub open spec fn classify_spec(data: SpriteData) -> FoodType {
    if data.r > BAD_FOOD_THRESHOLD {
        FoodType::Bad
    } else {
        FoodType::Good
    }
}

/// The food made of the source's data at the moment `now`. Bad food is drawn
/// in pure red, whatever green and blue the source gave; good food keeps its
/// colour.
pub open spec fn food_of(data: SpriteData, now: u64) -> Food {
    let bad = classify_spec(data) == FoodType::Bad;
    Food {
        sprite: Sprite {
            width: FOOD_SIDE,
            height: FOOD_SIDE,
            r: if bad { 255 } else { data.r },
            g: if bad { 0 } else { data.g },
            b: if bad { 0 } else { data.b },
            x: data.x as i64,
            y: data.y as i64,
        },
        expires: (now + FOOD_TTL_NANOS) as u128,
        food_type: classify_spec(data),
    }
}

/// The food made of each arrival, in the order of arrival.
pub open spec fn arrived(arrivals: Seq<SpriteData>, now: u64) -> Seq<Food> {
    Seq::new(arrivals.len(), |i: int| food_of(arrivals[i], now))
}

/// The food that is still there at the moment `now`, in its old order.
pub open spec fn unexpired(food: Seq<Food>, now: u64) -> Seq<Food> {
    food.filter(|item: Food| !item.is_expired_spec(now))
}

/// The food that the head touches, in its old order.
pub open spec fn touched(food: Seq<Food>, head: Sprite) -> Seq<Food> {
    food.filter(|item: Food| overlaps_spec(item.sprite, head))
}

/// The food that the head does not touch, in its old order.
pub open spec fn untouched(food: Seq<Food>, head: Sprite) -> Seq<Food> {
    food.filter(|item: Food| !overlaps_spec(item.sprite, head))
}

/// Whether some of the food is bad.
pub open spec fn holds_bad(food: Seq<Food>) -> bool {
    exists|i: int| 0 <= i < food.len() && (#[trigger] food[i]).food_type == FoodType::Bad
}

impl Food {
    /// Whether the food is gone at the moment `now`.
    pub open spec fn is_expired_spec(self, now: u64) -> bool {
        now >= self.expires
    }

    /// Tests whether the food is gone at the moment `now`.
    pub fn is_expired(&self, now: u64) -> (gone: bool)
        ensures
            gone == self.is_expired_spec(now),
    {
        now as u128 >= self.expires
    }

    /// Makes food of the source's data.
    pub fn from_data(data: &SpriteData, now: u64) -> (food: Food)
        ensures
            food == food_of(*data, now),
    {
        let mut r: i32 = data.r;
        let mut g: i32 = data.g;
        let mut b: i32 = data.b;
        let mut food_type = FoodType::Good;
        if data.r > BAD_FOOD_THRESHOLD {
            r = 255;
            g = 0;
            b = 0;
            food_type = FoodType::Bad;
        }
        Food {
            sprite: Sprite {
                width: FOOD_SIDE,
                height: FOOD_SIDE,
                r,
                g,
                b,
                x: data.x as i64,
                y: data.y as i64,
            },
            expires: now as u128 + FOOD_TTL_NANOS as u128,
            food_type,
        }
    }
}

/// What one more item adds to a filtered sequence.
proof fn lemma_filter_next<A>(items: Seq<A>, keep: spec_fn(A) -> bool, n: int)
    requires
        0 <= n < items.len(),
    ensures
        items.take(n + 1).filter(keep) == if keep(items[n]) {
            items.take(n).filter(keep).push(items[n])
        } else {
            items.take(n).filter(keep)
        },
{
    reveal(Seq::filter);
    assert(items.take(n + 1).drop_last() =~= items.take(n));
}

/// Picks out the food that the head touches.
pub fn food_touched(food: &Vec<Food>, head: &Sprite) -> (eaten: Vec<Food>)
    ensures
        eaten@ == touched(food@, *head),
{
    let ghost hit = |item: Food| overlaps_spec(item.sprite, *head);
    let mut eaten: Vec<Food> = Vec::new();
    let mut at: usize = 0;
    assert(food@.take(0).filter(hit) =~= Seq::<Food>::empty()) by {
        reveal(Seq::filter);
    }
    while at < food.len()
        invariant
            at <= food@.len(),
            hit == |item: Food| overlaps_spec(item.sprite, *head),
            eaten@ == food@.take(at as int).filter(hit),
        decreases food@.len() - at,
    {
        proof {
            lemma_filter_next(food@, hit, at as int);
        }
        if overlaps(&food[at].sprite, head) {
            eaten.push(food[at]);
        }
        at += 1;
    }
    assert(food@.take(at as int) =~= food@);
    eaten
}

/// Picks out the food that the head does not touch.
pub fn food_untouched(food: &Vec<Food>, head: &Sprite) -> (left: Vec<Food>)
    ensures
        left@ == untouched(food@, *head),
{
    let ghost miss = |item: Food| !overlaps_spec(item.sprite, *head);
    let mut left: Vec<Food> = Vec::new();
    let mut at: usize = 0;
    assert(food@.take(0).filter(miss) =~= Seq::<Food>::empty()) by {
        reveal(Seq::filter);
    }
    while at < food.len()
        invariant
            at <= food@.len(),
            miss == |item: Food| !overlaps_spec(item.sprite, *head),
            left@ == food@.take(at as int).filter(miss),
        decreases food@.len() - at,
    {
        proof {
            lemma_filter_next(food@, miss, at as int);
        }
        if !overlaps(&food[at].sprite, head) {
            left.push(food[at]);
        }
        at += 1;
    }
    assert(food@.take(at as int) =~= food@);
    left
}

/// Picks out the food that is still there at the moment `now`.
pub fn food_unexpired(food: &Vec<Food>, now: u64) -> (left: Vec<Food>)
    ensures
        left@ == unexpired(food@, now),
{
    let ghost fresh = |item: Food| !item.is_expired_spec(now);
    let mut left: Vec<Food> = Vec::new();
    let mut at: usize = 0;
    assert(food@.take(0).filter(fresh) =~= Seq::<Food>::empty()) by {
        reveal(Seq::filter);
    }
    while at < food.len()
        invariant
            at <= food@.len(),
            fresh == |item: Food| !item.is_expired_spec(now),
            left@ == food@.take(at as int).filter(fresh),
        decreases food@.len() - at,
    {
        proof {
            lemma_filter_next(food@, fresh, at as int);
        }
        if !food[at].is_expired(now) {
            left.push(food[at]);
        }
        at += 1;
    }
    assert(food@.take(at as int) =~= food@);
    left
}

/// Tests whether some of the food is bad.
pub fn any_bad(food: &Vec<Food>) -> (bad: bool)
    ensures
        bad == holds_bad(food@),
{
    let mut at: usize = 0;
    while at < food.len()
        invariant
            at <= food@.len(),
            forall|i: int| 0 <= i < at ==> (#[trigger] food@[i]).food_type != FoodType::Bad,
        decreases food@.len() - at,
    {
        if food[at].food_type == FoodType::Bad {
            return true;
        }
        at += 1;
    }
    false
}

/// Classification. Data with a red channel above the threshold makes bad
/// food in pure red; any other makes good food in the colour it came in.
/// Either way the food has the usual size, lies where the data says, and
/// expires a full term after `now`.
pub proof fn lemma_red_food_is_bad(data: SpriteData, now: u64)
    ensures
        data.r > BAD_FOOD_THRESHOLD ==> {
            &&& food_of(data, now).food_type == FoodType::Bad
            &&& food_of(data, now).sprite.r == 255
            &&& food_of(data, now).sprite.g == 0
            &&& food_of(data, now).sprite.b == 0
        },
        data.r <= BAD_FOOD_THRESHOLD ==> {
            &&& food_of(data, now).food_type == FoodType::Good
            &&& food_of(data, now).sprite.r == data.r
            &&& food_of(data, now).sprite.g == data.g
            &&& food_of(data, now).sprite.b == data.b
        },
        food_of(data, now).expires == now + FOOD_TTL_NANOS,
        food_of(data, now).sprite.x == data.x && food_of(data, now).sprite.y == data.y,
        food_of(data, now).sprite.width == FOOD_SIDE && food_of(data, now).sprite.height
            == FOOD_SIDE,
{
}

/// Expiry. The sweep takes away exactly the food whose time has come: a piece
/// is there after the sweep if and only if it was there before and expires
/// after `now`.
pub proof fn lemma_sweep_keeps_the_fresh(food: Seq<Food>, now: u64, item: Food)
    ensures
        unexpired(food, now).contains(item) <==> food.contains(item) && now < item.expires,
{
    let fresh = |item: Food| !item.is_expired_spec(now);
    if unexpired(food, now).contains(item) {
        let left = unexpired(food, now);
        let i = choose|i: int| 0 <= i < left.len() && left[i] == item;
        food.lemma_filter_pred(fresh, i);
        food.lemma_filter_contains_rev(fresh, item);
    }
    if food.contains(item) && now < item.expires {
        let i = choose|i: int| 0 <= i < food.len() && food[i] == item;
        food.lemma_filter_contains(fresh, i);
    }
}

/// A meal splits the food in two: each piece is either touched, and eaten,
/// or untouched, and left.
pub proof fn lemma_meal_splits_the_food(food: Seq<Food>, head: Sprite)
    ensures
        touched(food, head).len() + untouched(food, head).len() == food.len(),
        forall|i: int|
            0 <= i < touched(food, head).len() ==> overlaps_spec(
                (#[trigger] touched(food, head)[i]).sprite,
                head,
            ),
        forall|i: int|
            0 <= i < untouched(food, head).len() ==> !overlaps_spec(
                (#[trigger] untouched(food, head)[i]).sprite,
                head,
            ),
    decreases food.len(),
{
    let hit = |item: Food| overlaps_spec(item.sprite, head);
    let miss = |item: Food| !overlaps_spec(item.sprite, head);
    assert forall|i: int| 0 <= i < touched(food, head).len() implies overlaps_spec(
        (#[trigger] touched(food, head)[i]).sprite,
        head,
    ) by {
        food.lemma_filter_pred(hit, i);
    }
    assert forall|i: int| 0 <= i < untouched(food, head).len() implies !overlaps_spec(
        (#[trigger] untouched(food, head)[i]).sprite,
        head,
    ) by {
        food.lemma_filter_pred(miss, i);
    }
    reveal(Seq::filter);
    if food.len() > 0 {
        lemma_meal_splits_the_food(food.drop_last(), head);
    }
}

} // verus!
