//! The built-in themes.

use vstd::prelude::*;
use crate::theme::{Color, Theme};

verus! {

/// The colors of the Gruvbox theme, in order.
pub open spec fn gruvbox_colors() -> Seq<Color> {
    seq![
        (40u8, 40u8, 40u8),
        (29u8, 32u8, 33u8),
        (50u8, 48u8, 47u8),
        (60u8, 56u8, 54u8),
        (80u8, 73u8, 69u8),
        (102u8, 92u8, 84u8),
        (124u8, 111u8, 100u8),
        (235u8, 219u8, 178u8),
        (251u8, 241u8, 199u8),
        (213u8, 196u8, 161u8),
        (189u8, 174u8, 147u8),
        (168u8, 153u8, 132u8),
        (146u8, 131u8, 116u8),
        (204u8, 36u8, 29u8),
        (251u8, 73u8, 52u8),
        (214u8, 93u8, 14u8),
        (254u8, 128u8, 25u8),
        (215u8, 153u8, 33u8),
        (250u8, 189u8, 47u8),
        (152u8, 151u8, 26u8),
        (184u8, 187u8, 38u8),
        (104u8, 157u8, 106u8),
        (142u8, 192u8, 124u8),
        (69u8, 133u8, 136u8),
        (131u8, 165u8, 152u8),
        (177u8, 98u8, 134u8),
        (211u8, 134u8, 155u8),
    ]
}

/// The colors of the Nord theme, in order.
pub open spec fn nord_colors() -> Seq<Color> {
    seq![
        (46u8, 52u8, 64u8),
        (59u8, 66u8, 82u8),
        (67u8, 76u8, 94u8),
        (76u8, 86u8, 106u8),
        (216u8, 222u8, 233u8),
        (229u8, 233u8, 240u8),
        (236u8, 239u8, 244u8),
        (143u8, 188u8, 187u8),
        (136u8, 192u8, 208u8),
        (129u8, 161u8, 193u8),
        (94u8, 113u8, 172u8),
        (191u8, 97u8, 106u8),
        (208u8, 135u8, 112u8),
        (235u8, 203u8, 139u8),
        (163u8, 190u8, 140u8),
        (180u8, 142u8, 173u8),
    ]
}

/// The colors of the Solarized theme, in order.
pub open spec fn solarized_colors() -> Seq<Color> {
    seq![
        (0u8, 43u8, 54u8),
        (7u8, 54u8, 66u8),
        (88u8, 110u8, 117u8),
        (101u8, 123u8, 131u8),
        (131u8, 148u8, 150u8),
        (147u8, 161u8, 161u8),
        (238u8, 232u8, 213u8),
        (253u8, 246u8, 227u8),
        (181u8, 137u8, 0u8),
        (203u8, 75u8, 22u8),
        (220u8, 50u8, 47u8),
        (211u8, 54u8, 130u8),
        (108u8, 113u8, 196u8),
        (38u8, 139u8, 210u8),
        (42u8, 161u8, 152u8),
        (133u8, 153u8, 0u8),
    ]
}

/// The colors of the Catppuccin theme, in order.
pub open spec fn catppuccin_colors() -> Seq<Color> {
    seq![
        (22u8, 19u8, 32u8),
        (26u8, 24u8, 38u8),
        (30u8, 30u8, 46u8),
        (48u8, 45u8, 65u8),
        (87u8, 82u8, 104u8),
        (110u8, 108u8, 126u8),
        (152u8, 139u8, 162u8),
        (152u8, 139u8, 162u8),
        (217u8, 224u8, 238u8),
        (201u8, 203u8, 255u8),
        (245u8, 224u8, 220u8),
        (242u8, 205u8, 205u8),
        (221u8, 182u8, 242u8),
        (245u8, 194u8, 231u8),
        (232u8, 162u8, 175u8),
        (242u8, 143u8, 173u8),
        (248u8, 189u8, 150u8),
        (250u8, 227u8, 176u8),
        (171u8, 233u8, 179u8),
        (181u8, 232u8, 224u8),
        (150u8, 205u8, 251u8),
        (137u8, 220u8, 235u8),
    ]
}

/// The colors of the Dracula theme, in order.
pub open spec fn dracula_colors() -> Seq<Color> {
    seq![
        (40u8, 42u8, 54u8),
        (68u8, 71u8, 90u8),
        (68u8, 71u8, 90u8),
        (248u8, 248u8, 242u8),
        (98u8, 114u8, 164u8),
        (139u8, 233u8, 253u8),
        (80u8, 250u8, 123u8),
        (255u8, 184u8, 108u8),
        (255u8, 121u8, 198u8),
        (189u8, 147u8, 249u8),
        (255u8, 85u8, 85u8),
        (241u8, 250u8, 140u8),
    ]
}

impl Theme {
    /// Gruvbox: warm, retro, earthy tones.
    pub fn gruvbox() -> (theme: Self)
        ensures
            theme@ == gruvbox_colors(),
    {
        let colors: Vec<Color> = vec![
            (40, 40, 40),
            (29, 32, 33),
            (50, 48, 47),
            (60, 56, 54),
            (80, 73, 69),
            (102, 92, 84),
            (124, 111, 100),
            (235, 219, 178),
            (251, 241, 199),
            (213, 196, 161),
            (189, 174, 147),
            (168, 153, 132),
            (146, 131, 116),
            (204, 36, 29),
            (251, 73, 52),
            (214, 93, 14),
            (254, 128, 25),
            (215, 153, 33),
            (250, 189, 47),
            (152, 151, 26),
            (184, 187, 38),
            (104, 157, 106),
            (142, 192, 124),
            (69, 133, 136),
            (131, 165, 152),
            (177, 98, 134),
            (211, 134, 155),
        ];
        assert(colors@ =~= gruvbox_colors());
        Theme::new(colors)
    }

    /// Nord: cool, arctic blues.
    pub fn nord() -> (theme: Self)
        ensures
            theme@ == nord_colors(),
    {
        let colors: Vec<Color> = vec![
            (46, 52, 64),
            (59, 66, 82),
            (67, 76, 94),
            (76, 86, 106),
            (216, 222, 233),
            (229, 233, 240),
            (236, 239, 244),
            (143, 188, 187),
            (136, 192, 208),
            (129, 161, 193),
            (94, 113, 172),
            (191, 97, 106),
            (208, 135, 112),
            (235, 203, 139),
            (163, 190, 140),
            (180, 142, 173),
        ];
        assert(colors@ =~= nord_colors());
        Theme::new(colors)
    }

    /// Solarized: balanced light and dark tones with eight accents.
    pub fn solarized() -> (theme: Self)
        ensures
            theme@ == solarized_colors(),
    {
        let colors: Vec<Color> = vec![
            (0, 43, 54),
            (7, 54, 66),
            (88, 110, 117),
            (101, 123, 131),
            (131, 148, 150),
            (147, 161, 161),
            (238, 232, 213),
            (253, 246, 227),
            (181, 137, 0),
            (203, 75, 22),
            (220, 50, 47),
            (211, 54, 130),
            (108, 113, 196),
            (38, 139, 210),
            (42, 161, 152),
            (133, 153, 0),
        ];
        assert(colors@ =~= solarized_colors());
        Theme::new(colors)
    }

    /// Catppuccin: soft pastels on a dark base.
    pub fn catppuccin() -> (theme: Self)
        ensures
            theme@ == catppuccin_colors(),
    {
        let colors: Vec<Color> = vec![
            (22, 19, 32),
            (26, 24, 38),
            (30, 30, 46),
            (48, 45, 65),
            (87, 82, 104),
            (110, 108, 126),
            (152, 139, 162),
            (152, 139, 162),
            (217, 224, 238),
            (201, 203, 255),
            (245, 224, 220),
            (242, 205, 205),
            (221, 182, 242),
            (245, 194, 231),
            (232, 162, 175),
            (242, 143, 173),
            (248, 189, 150),
            (250, 227, 176),
            (171, 233, 179),
            (181, 232, 224),
            (150, 205, 251),
            (137, 220, 235),
        ];
        assert(colors@ =~= catppuccin_colors());
        Theme::new(colors)
    }

    /// Dracula: vivid accents on a dark base.
    pub fn dracula() -> (theme: Self)
        ensures
            theme@ == dracula_colors(),
    {
        let colors: Vec<Color> = vec![
            (40, 42, 54),
            (68, 71, 90),
            (68, 71, 90),
            (248, 248, 242),
            (98, 114, 164),
            (139, 233, 253),
            (80, 250, 123),
            (255, 184, 108),
            (255, 121, 198),
            (189, 147, 249),
            (255, 85, 85),
            (241, 250, 140),
        ];
        assert(colors@ =~= dracula_colors());
        Theme::new(colors)
    }
}

} // verus!
