use wallter::{apply_theme, EmptyPalette, Raster, Theme};

fn raster(width: u32, height: u32, pixels: &[(u8, u8, u8, u8)]) -> Raster<(u8, u8, u8, u8)> {
    Raster::new(width, height, pixels.to_vec()).unwrap()
}

#[test]
fn a_raster_has_one_pixel_per_position() {
    assert!(Raster::new(2, 3, vec![0u8; 6]).is_some());
    assert!(Raster::new(2, 3, vec![0u8; 5]).is_none());
    assert!(Raster::new(2, 3, vec![0u8; 7]).is_none());
    assert!(Raster::new(0, 3, Vec::<u8>::new()).is_some());
    assert!(Raster::new(3, 0, Vec::<u8>::new()).is_some());
    assert!(Raster::new(0, 0, vec![0u8; 1]).is_none());
    assert!(Raster::new(65536, 65536, vec![0u8; 0]).is_none());
}

#[test]
fn a_raster_is_addressed_by_column_and_row() {
    let grid = Raster::new(3, 2, vec![10, 11, 12, 20, 21, 22]).unwrap();
    assert_eq!(grid.width(), 3);
    assert_eq!(grid.height(), 2);
    assert_eq!(grid.pixels(), &vec![10, 11, 12, 20, 21, 22]);
    assert_eq!(grid.get(0, 0), Some(&10));
    assert_eq!(grid.get(2, 0), Some(&12));
    assert_eq!(grid.get(0, 1), Some(&20));
    assert_eq!(grid.get(1, 1), Some(&21));
    assert_eq!(grid.get(2, 1), Some(&22));
    assert_eq!(grid.get(3, 0), None);
    assert_eq!(grid.get(0, 2), None);
    assert_eq!(grid.get(3, 2), None);
}

#[test]
fn themed_image_has_the_dimensions_of_its_source() {
    let theme = Theme::gruvbox();
    for (width, height) in [(1, 1), (3, 2), (2, 3), (7, 1), (1, 7), (16, 9)] {
        let pixels = vec![(10, 200, 30, 255); (width * height) as usize];
        let themed = apply_theme(&raster(width, height, &pixels), &theme).unwrap();
        assert_eq!((themed.width(), themed.height()), (width, height));
        assert_eq!(themed.pixels().len(), (width * height) as usize);
    }
}

#[test]
fn each_pixel_becomes_the_closest_color_at_its_own_position() {
    let theme = Theme::new(vec![(0, 0, 0), (255, 255, 255), (255, 0, 0)]);
    let image = raster(
        3,
        2,
        &[
            (10, 10, 10, 255),
            (250, 240, 245, 255),
            (200, 30, 30, 255),
            (240, 20, 10, 0),
            (5, 0, 0, 128),
            (130, 130, 130, 255),
        ],
    );
    let themed = apply_theme(&image, &theme).unwrap();
    assert_eq!(
        themed,
        Raster::new(
            3,
            2,
            vec![(0, 0, 0), (255, 255, 255), (255, 0, 0), (255, 0, 0), (0, 0, 0), (255, 255, 255)]
        )
        .unwrap()
    );
    assert_eq!(themed.get(2, 0), Some(&(255, 0, 0)));
    assert_eq!(themed.get(0, 1), Some(&(255, 0, 0)));
    assert_eq!(themed.get(1, 1), Some(&(0, 0, 0)));
}

#[test]
fn the_source_image_is_left_as_it_is() {
    let theme = Theme::new(vec![(9, 9, 9)]);
    let image = raster(2, 1, &[(1, 2, 3, 4), (5, 6, 7, 8)]);
    let themed = apply_theme(&image, &theme).unwrap();
    assert_eq!(image, raster(2, 1, &[(1, 2, 3, 4), (5, 6, 7, 8)]));
    assert_eq!(themed.pixels(), &vec![(9, 9, 9), (9, 9, 9)]);
}

#[test]
fn every_themed_pixel_is_a_theme_color() {
    let theme = Theme::catppuccin();
    let mut pixels = Vec::new();
    for i in 0..64u32 {
        pixels.push(((i * 4) as u8, (255 - i * 3) as u8, (i * 37 % 256) as u8, (i * 11 % 256) as u8));
    }
    let themed = apply_theme(&raster(8, 8, &pixels), &theme).unwrap();
    for color in themed.pixels() {
        assert!(theme.colors().contains(color));
    }
}

#[test]
fn theming_with_the_colors_of_the_image_changes_nothing() {
    let pixels = [
        (10, 20, 30, 255),
        (200, 100, 0, 40),
        (10, 20, 30, 0),
        (0, 0, 0, 255),
        (200, 100, 0, 255),
        (255, 255, 255, 1),
    ];
    let theme = Theme::new(vec![(10, 20, 30), (200, 100, 0), (0, 0, 0), (255, 255, 255)]);
    let themed = apply_theme(&raster(3, 2, &pixels), &theme).unwrap();
    let expected: Vec<(u8, u8, u8)> = pixels.iter().map(|p| (p.0, p.1, p.2)).collect();
    assert_eq!(themed.pixels(), &expected);
}

#[test]
fn theming_twice_is_theming_once() {
    let theme = Theme::dracula();
    let mut pixels = Vec::new();
    for i in 0..30u32 {
        pixels.push(((i * 8) as u8, (i * 5 + 40) as u8, (250 - i * 7) as u8, 255));
    }
    let once = apply_theme(&raster(6, 5, &pixels), &theme).unwrap();
    let opaque: Vec<(u8, u8, u8, u8)> = once.pixels().iter().map(|c| (c.0, c.1, c.2, 255)).collect();
    let twice = apply_theme(&raster(6, 5, &opaque), &theme).unwrap();
    assert_eq!(twice, once);
}

#[test]
fn a_theme_of_one_color_paints_everything_in_it() {
    let theme = Theme::new(vec![(7, 77, 177)]);
    let image = raster(
        2,
        2,
        &[(0, 0, 0, 0), (255, 255, 255, 255), (7, 77, 177, 3), (100, 0, 200, 90)],
    );
    let themed = apply_theme(&image, &theme).unwrap();
    assert_eq!(themed.pixels(), &vec![(7, 77, 177); 4]);
}

#[test]
fn images_that_differ_in_alpha_are_themed_alike() {
    let theme = Theme::nord();
    let colors = [(12, 200, 90), (250, 250, 250), (0, 0, 0), (130, 60, 190)];
    let clear: Vec<(u8, u8, u8, u8)> = colors.iter().map(|c| (c.0, c.1, c.2, 0)).collect();
    let solid: Vec<(u8, u8, u8, u8)> = colors.iter().map(|c| (c.0, c.1, c.2, 255)).collect();
    let themed_clear = apply_theme(&raster(2, 2, &clear), &theme).unwrap();
    let themed_solid = apply_theme(&raster(2, 2, &solid), &theme).unwrap();
    assert_eq!(themed_clear, themed_solid);
}

#[test]
fn ties_in_an_image_go_to_the_earlier_color() {
    let theme = Theme::new(vec![(0, 0, 0), (20, 20, 20)]);
    let themed = apply_theme(&raster(1, 1, &[(10, 10, 10, 255)]), &theme).unwrap();
    assert_eq!(themed.pixels(), &vec![(0, 0, 0)]);
}

#[test]
fn an_empty_theme_cannot_theme_a_pixel() {
    let theme = Theme::new(Vec::new());
    assert_eq!(apply_theme(&raster(1, 1, &[(1, 2, 3, 4)]), &theme), Err(EmptyPalette));
    assert_eq!(apply_theme(&raster(4, 3, &[(9, 9, 9, 9); 12]), &theme), Err(EmptyPalette));
}

#[test]
fn an_image_without_pixels_is_themed_by_any_theme() {
    for (width, height) in [(0, 0), (0, 1), (1, 0), (0, 5), (5, 0)] {
        let image = raster(width, height, &[]);
        let themed = apply_theme(&image, &Theme::new(Vec::new())).unwrap();
        assert_eq!((themed.width(), themed.height()), (width, height));
        assert!(themed.pixels().is_empty());
        let themed = apply_theme(&image, &Theme::gruvbox()).unwrap();
        assert_eq!((themed.width(), themed.height()), (width, height));
    }
}
