use snake_game::sprite::{overlaps, GameSprite, Sprite, SUBPIXELS};

fn rect(x_px: i64, y_px: i64, width: i32, height: i32) -> Sprite {
    Sprite { width, height, r: 0, g: 0, b: 0, x: x_px * SUBPIXELS, y: y_px * SUBPIXELS }
}

#[test]
fn probe_with_a_corner_inside_overlaps() {
    assert!(overlaps(&rect(0, 0, 10, 10), &rect(5, 5, 10, 10)));
}

#[test]
fn probe_far_away_does_not_overlap() {
    assert!(!overlaps(&rect(0, 0, 10, 10), &rect(20, 20, 10, 10)));
}

#[test]
fn probe_that_encloses_the_container_does_not_overlap() {
    let container = rect(5, 5, 2, 2);
    let probe = rect(0, 0, 20, 20);
    assert!(!overlaps(&container, &probe));
    assert!(overlaps(&probe, &container));
}

#[test]
fn right_edge_counts_and_bottom_edge_does_not() {
    let container = rect(0, 0, 10, 10);
    // the probe's top-left corner sits on the container's right edge
    assert!(overlaps(&container, &rect(10, 0, 50, 50)));
    // one subpixel further it is outside
    let mut beyond = rect(10, 0, 50, 50);
    beyond.x += 1;
    assert!(!overlaps(&container, &beyond));
    // the probe's top-left corner sits on the container's bottom edge
    assert!(!overlaps(&container, &rect(0, 10, 50, 50)));
    // one subpixel higher it is inside
    let mut above = rect(0, 10, 50, 50);
    above.y -= 1;
    assert!(overlaps(&container, &above));
}

#[test]
fn each_corner_of_the_probe_can_hit() {
    let container = rect(100, 100, 10, 10);
    // top-left, top-right, bottom-left, bottom-right corner of the probe inside
    assert!(overlaps(&container, &rect(105, 105, 30, 30)));
    assert!(overlaps(&container, &rect(80, 105, 25, 30)));
    assert!(overlaps(&container, &rect(105, 80, 30, 25)));
    assert!(overlaps(&container, &rect(80, 80, 25, 25)));
}

#[test]
fn a_sprite_overlaps_itself() {
    let sprite = rect(100, 150, 25, 25);
    assert!(overlaps(&sprite, &sprite));
}

#[test]
fn overlap_survives_the_largest_coordinates() {
    let far = Sprite { width: i32::MAX, height: i32::MAX, r: 0, g: 0, b: 0, x: i64::MAX, y: i64::MAX };
    let near = Sprite { width: i32::MIN, height: i32::MIN, r: 0, g: 0, b: 0, x: i64::MIN, y: i64::MIN };
    assert!(overlaps(&far, &far));
    assert!(!overlaps(&far, &near));
    assert!(!overlaps(&near, &far));
}

#[test]
fn duplicate_keeps_size_and_colour() {
    let sprite = Sprite { width: 25, height: 30, r: 1, g: 2, b: 3, x: 100, y: 200 };
    let copy = sprite.duplicate_at(-7, 9);
    assert_eq!(copy, Sprite { width: 25, height: 30, r: 1, g: 2, b: 3, x: -7, y: 9 });
}

#[test]
fn from_sprite_wraps_the_sprite() {
    let sprite = rect(1, 2, 3, 4);
    assert_eq!(GameSprite::from_sprite(sprite).sprite, sprite);
}
