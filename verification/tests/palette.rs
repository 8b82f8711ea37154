use wallter::Theme;

#[test]
fn new_keeps_colors_in_order() {
    let theme = Theme::new(vec![(3, 2, 1), (0, 0, 0), (3, 2, 1)]);
    assert_eq!(theme.colors(), &vec![(3, 2, 1), (0, 0, 0), (3, 2, 1)]);
    assert_eq!(theme.len(), 3);
    assert!(!theme.is_empty());
}

#[test]
fn new_accepts_no_colors() {
    let theme = Theme::new(Vec::new());
    assert_eq!(theme.len(), 0);
    assert!(theme.is_empty());
}

#[test]
fn from_vec_groups_bytes_in_threes() {
    let theme = Theme::from_vec(vec![255, 0, 0, 0, 255, 0]);
    assert_eq!(theme, Some(Theme::new(vec![(255, 0, 0), (0, 255, 0)])));
}

#[test]
fn from_vec_keeps_byte_order_within_a_color() {
    let theme = Theme::from_vec(vec![1, 2, 3, 4, 5, 6, 7, 8, 9]).unwrap();
    assert_eq!(theme.colors(), &vec![(1, 2, 3), (4, 5, 6), (7, 8, 9)]);
}

#[test]
fn from_vec_refuses_two_bytes() {
    assert_eq!(Theme::from_vec(vec![1, 2]), None);
}

#[test]
fn from_vec_refuses_lengths_not_divisible_by_three() {
    assert_eq!(Theme::from_vec(vec![9]), None);
    assert_eq!(Theme::from_vec(vec![1, 2, 3, 4]), None);
    assert_eq!(Theme::from_vec(vec![1, 2, 3, 4, 5]), None);
}

#[test]
fn from_vec_of_nothing_is_the_empty_theme() {
    assert_eq!(Theme::from_vec(Vec::new()), Some(Theme::new(Vec::new())));
}

#[test]
fn gruvbox_colors() {
    let theme = Theme::gruvbox();
    assert_eq!(theme.len(), 27);
    assert_eq!(theme.colors()[0], (40, 40, 40));
    assert_eq!(theme.colors()[13], (204, 36, 29));
    assert_eq!(theme.colors()[26], (211, 134, 155));
}

#[test]
fn nord_colors() {
    let theme = Theme::nord();
    assert_eq!(theme.len(), 16);
    assert_eq!(theme.colors()[0], (46, 52, 64));
    assert_eq!(theme.colors()[10], (94, 113, 172));
    assert_eq!(theme.colors()[15], (180, 142, 173));
}

#[test]
fn solarized_colors() {
    let theme = Theme::solarized();
    assert_eq!(theme.len(), 16);
    assert_eq!(theme.colors()[0], (0, 43, 54));
    assert_eq!(theme.colors()[8], (181, 137, 0));
    assert_eq!(theme.colors()[15], (133, 153, 0));
}

#[test]
fn catppuccin_colors() {
    let theme = Theme::catppuccin();
    assert_eq!(theme.len(), 22);
    assert_eq!(theme.colors()[0], (22, 19, 32));
    assert_eq!(theme.colors()[6], (152, 139, 162));
    assert_eq!(theme.colors()[7], (152, 139, 162));
    assert_eq!(theme.colors()[21], (137, 220, 235));
}

#[test]
fn dracula_colors() {
    let theme = Theme::dracula();
    assert_eq!(theme.len(), 12);
    assert_eq!(theme.colors()[0], (40, 42, 54));
    assert_eq!(theme.colors()[1], (68, 71, 90));
    assert_eq!(theme.colors()[2], (68, 71, 90));
    assert_eq!(theme.colors()[11], (241, 250, 140));
}

#[test]
fn bytes_of_a_list_of_colors_give_the_theme_of_the_list() {
    let lists: Vec<Vec<(u8, u8, u8)>> = vec![
        Vec::new(),
        vec![(0, 0, 0)],
        vec![(255, 0, 0), (0, 255, 0)],
        vec![(1, 2, 3), (1, 2, 3), (250, 251, 252), (9, 8, 7)],
        Theme::gruvbox().colors().clone(),
    ];
    for colors in lists {
        let mut bytes = Vec::new();
        for color in &colors {
            bytes.extend_from_slice(&[color.0, color.1, color.2]);
        }
        assert_eq!(Theme::from_vec(bytes), Some(Theme::new(colors)));
    }
}
