use frob::percent::{level_at, Percent};

#[test]
fn a_percentage_rounds_to_the_nearest_whole() {
    assert_eq!(Percent::of(128, 255).rounded(), 50);
    assert_eq!(Percent::of(1, 3).rounded(), 33);
    assert_eq!(Percent::of(2, 3).rounded(), 67);
    assert_eq!(Percent::of(255, 255).rounded(), 100);
    assert_eq!(Percent::of(0, 255).rounded(), 0);
}

#[test]
fn a_tie_rounds_up() {
    assert_eq!(Percent::of(1, 8).rounded(), 13);
    assert_eq!(Percent::of(3, 8).rounded(), 38);
    assert_eq!(Percent::of(1, 200).rounded(), 1);
}

#[test]
fn a_tie_is_shown_as_the_even_neighbour() {
    assert_eq!(Percent::of(1, 8).displayed(), 12);
    assert_eq!(Percent::of(3, 8).displayed(), 38);
    assert_eq!(Percent::of(1, 200).displayed(), 0);
    assert_eq!(Percent::of(3, 200).displayed(), 2);
}

#[test]
fn what_is_shown_is_the_nearest_whole_off_a_tie() {
    assert_eq!(Percent::of(128, 255).displayed(), 50);
    assert_eq!(Percent::of(2, 3).displayed(), 67);
    assert_eq!(Percent::of(98304, 65536).displayed(), 150);
}

#[test]
fn a_maximum_of_zero_gives_zero_percent() {
    assert_eq!(Percent::of(0, 0).rounded(), 0);
    assert_eq!(Percent::of(17, 0).rounded(), 0);
    assert_eq!(Percent::of(17, 0).displayed(), 0);
}

#[test]
fn the_largest_levels_do_not_overflow() {
    assert_eq!(Percent::of(u32::MAX, u32::MAX).rounded(), 100);
    assert_eq!(Percent::of(u32::MAX, 1).rounded(), 429_496_729_500);
    assert_eq!(Percent::of(u32::MAX, 1).displayed(), 429_496_729_500);
    assert_eq!(Percent::of(u32::MAX, u32::MAX).plus(255), 100);
    assert_eq!(Percent::of(u32::MAX, 1).minus(255), 100);
}

#[test]
fn plus_raises_the_whole_percent() {
    assert_eq!(Percent::of(50, 100).plus(10), 60);
    assert_eq!(Percent::of(50, 100).plus(0), 50);
    assert_eq!(Percent::of(1, 3).plus(1), 34);
    assert_eq!(Percent::of(1, 8).plus(1), 14);
}

#[test]
fn plus_stops_at_one_hundred() {
    assert_eq!(Percent::of(95, 100).plus(10), 100);
    assert_eq!(Percent::of(0, 100).plus(100), 100);
    assert_eq!(Percent::of(0, 100).plus(255), 100);
    assert_eq!(Percent::of(150, 100).plus(0), 100);
}

#[test]
fn minus_lowers_the_whole_percent() {
    assert_eq!(Percent::of(50, 100).minus(10), 40);
    assert_eq!(Percent::of(2, 3).minus(7), 60);
    assert_eq!(Percent::of(150, 100).minus(60), 90);
}

#[test]
fn minus_stops_at_zero() {
    assert_eq!(Percent::of(5, 100).minus(10), 0);
    assert_eq!(Percent::of(10, 100).minus(10), 0);
    assert_eq!(Percent::of(0, 100).minus(1), 0);
}

#[test]
fn minus_of_more_than_one_hundred_percent_stops_at_one_hundred() {
    assert_eq!(Percent::of(150, 100).minus(10), 100);
}

#[test]
fn a_level_is_rounded_down() {
    assert_eq!(level_at(50, 255), 127);
    assert_eq!(level_at(100, 255), 255);
    assert_eq!(level_at(0, 255), 0);
    assert_eq!(level_at(1, 50), 0);
    assert_eq!(level_at(33, 65536), 21626);
    assert_eq!(level_at(255, u32::MAX), 10_952_166_602);
}

#[test]
fn plus_is_the_whole_percent_moved_and_kept_in_range() {
    for level in 0..=300u32 {
        let percent = Percent::of(level, 200);
        let whole = u32::from(percent.plus(0));
        for amount in 0..=120u8 {
            let moved = (whole + u32::from(amount)).min(100);
            assert_eq!(u32::from(percent.plus(amount)), moved);
        }
    }
}

#[test]
fn minus_is_the_whole_percent_moved_and_kept_in_range() {
    for level in 0..=200u32 {
        let percent = Percent::of(level, 200);
        let whole = u32::from(percent.plus(0));
        for amount in 0..=120u8 {
            let moved = whole.saturating_sub(u32::from(amount));
            assert_eq!(u32::from(percent.minus(amount)), moved);
        }
    }
}
