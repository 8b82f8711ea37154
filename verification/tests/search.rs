use wallter::{closest_color, EmptyPalette, Theme};

#[test]
fn ties_go_to_the_earlier_color() {
    let theme = Theme::new(vec![(0, 0, 0), (20, 20, 20)]);
    assert_eq!(closest_color(&theme, (10, 10, 10, 255)), Ok((0, 0, 0)));
}

#[test]
fn ties_go_to_the_earlier_color_in_either_order() {
    let theme = Theme::new(vec![(20, 20, 20), (0, 0, 0)]);
    assert_eq!(closest_color(&theme, (10, 10, 10, 255)), Ok((20, 20, 20)));
}

#[test]
fn ties_among_three_go_to_the_first() {
    let theme = Theme::new(vec![(100, 0, 0), (12, 10, 10), (10, 12, 10), (10, 10, 12)]);
    assert_eq!(closest_color(&theme, (10, 10, 10, 0)), Ok((12, 10, 10)));
}

#[test]
fn a_later_color_wins_only_when_strictly_closer() {
    let theme = Theme::new(vec![(0, 0, 0), (20, 20, 20), (11, 10, 10)]);
    assert_eq!(closest_color(&theme, (10, 10, 10, 255)), Ok((11, 10, 10)));
}

#[test]
fn empty_theme_has_no_closest_color() {
    let theme = Theme::new(Vec::new());
    assert_eq!(closest_color(&theme, (0, 0, 0, 0)), Err(EmptyPalette));
    assert_eq!(closest_color(&theme, (10, 10, 10, 255)), Err(EmptyPalette));
    assert_eq!(closest_color(&theme, (255, 255, 255, 255)), Err(EmptyPalette));
}

#[test]
fn distance_is_the_sum_of_squares() {
    // (4, 4, 0) is at 16 + 16 = 32, (0, 0, 6) at 36: by sums of absolute
    // differences the second would be the closer one.
    let theme = Theme::new(vec![(0, 0, 6), (4, 4, 0)]);
    assert_eq!(closest_color(&theme, (0, 0, 0, 255)), Ok((4, 4, 0)));
}

#[test]
fn every_channel_counts() {
    let pixel = (100, 100, 100, 255);
    assert_eq!(closest_color(&Theme::new(vec![(110, 100, 100), (100, 109, 100)]), pixel), Ok((100, 109, 100)));
    assert_eq!(closest_color(&Theme::new(vec![(100, 110, 100), (100, 100, 109)]), pixel), Ok((100, 100, 109)));
    assert_eq!(closest_color(&Theme::new(vec![(100, 100, 110), (109, 100, 100)]), pixel), Ok((109, 100, 100)));
}

#[test]
fn differences_count_in_both_directions() {
    let theme = Theme::new(vec![(90, 100, 100), (105, 100, 100)]);
    assert_eq!(closest_color(&theme, (100, 100, 100, 255)), Ok((105, 100, 100)));
    let theme = Theme::new(vec![(110, 100, 100), (95, 100, 100)]);
    assert_eq!(closest_color(&theme, (100, 100, 100, 255)), Ok((95, 100, 100)));
}

#[test]
fn the_largest_distance_is_handled() {
    // 3 * 255 * 255 = 195075 against 3 * 254 * 254 = 193548.
    let theme = Theme::new(vec![(0, 0, 0), (1, 1, 1)]);
    assert_eq!(closest_color(&theme, (255, 255, 255, 255)), Ok((1, 1, 1)));
    let theme = Theme::new(vec![(255, 255, 255), (254, 254, 254)]);
    assert_eq!(closest_color(&theme, (0, 0, 0, 255)), Ok((254, 254, 254)));
}

#[test]
fn alpha_plays_no_part() {
    let theme = Theme::gruvbox();
    for alpha in [0u8, 1, 127, 128, 254, 255] {
        assert_eq!(closest_color(&theme, (200, 30, 30, alpha)), Ok((204, 36, 29)));
    }
}

#[test]
fn alpha_does_not_count_as_distance() {
    // If alpha were compared with anything, one of these would change.
    let theme = Theme::new(vec![(0, 0, 0), (255, 255, 255)]);
    assert_eq!(closest_color(&theme, (1, 1, 1, 255)), Ok((0, 0, 0)));
    assert_eq!(closest_color(&theme, (254, 254, 254, 0)), Ok((255, 255, 255)));
}

#[test]
fn one_color_is_always_the_closest() {
    let theme = Theme::new(vec![(12, 34, 56)]);
    for pixel in [(0, 0, 0, 0), (255, 255, 255, 255), (12, 34, 56, 7), (200, 1, 90, 128)] {
        assert_eq!(closest_color(&theme, pixel), Ok((12, 34, 56)));
    }
}

#[test]
fn the_closest_color_is_a_theme_color() {
    let theme = Theme::nord();
    for r in [0u8, 51, 102, 153, 204, 255] {
        for g in [0u8, 85, 170, 255] {
            for b in [0u8, 127, 255] {
                let color = closest_color(&theme, (r, g, b, 255)).unwrap();
                assert!(theme.colors().contains(&color));
            }
        }
    }
}

#[test]
fn a_theme_color_is_its_own_closest() {
    let theme = Theme::solarized();
    for color in theme.colors() {
        assert_eq!(closest_color(&theme, (color.0, color.1, color.2, 9)), Ok(*color));
    }
}

#[test]
fn of_two_equal_colors_either_is_the_answer() {
    let theme = Theme::dracula();
    assert_eq!(closest_color(&theme, (68, 71, 90, 255)), Ok((68, 71, 90)));
}

#[test]
fn closest_color_in_gruvbox() {
    let theme = Theme::gruvbox();
    assert_eq!(closest_color(&theme, (0, 0, 0, 255)), Ok((29, 32, 33)));
    assert_eq!(closest_color(&theme, (255, 255, 255, 255)), Ok((251, 241, 199)));
    assert_eq!(closest_color(&theme, (255, 0, 0, 255)), Ok((204, 36, 29)));
}
