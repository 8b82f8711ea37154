//! The palette type and its constructors.

use vstd::prelude::*;

verus! {

/// A color: red, green and blue intensities.
pub type Color = (u8, u8, u8);

/// The colors that a flat byte sequence spells out: every three consecutive
/// bytes, in order, are the red, green and blue of one color.
pub open spec fn triples(bytes: Seq<u8>) -> Seq<Color> {
    Seq::new(
        (bytes.len() / 3) as nat,
        |i: int| (bytes[3 * i], bytes[3 * i + 1], bytes[3 * i + 2]),
    )
}

/// The bytes that spell out the given colors: red, green and blue of each
/// color, in order.
pub open spec fn flattened(colors: Seq<Color>) -> Seq<u8> {
    Seq::new(
        3 * colors.len(),
        |i: int|
            if i % 3 == 0 {
                colors[i / 3].0
            } else if i % 3 == 1 {
                colors[i / 3].1
            } else {
                colors[i / 3].2
            },
    )
}

/// Colors written out as bytes and read back in threes are the same
/// colors: a theme built from the bytes of a list of colors is the theme
/// built from the list.
pub proof fn lemma_triples_of_flattened(colors: Seq<Color>)
    ensures
        flattened(colors).len() % 3 == 0,
        triples(flattened(colors)) == colors,
{
    let bytes = flattened(colors);
    assert(bytes.len() == 3 * colors.len());
    assert forall|k: int| 0 <= k < colors.len() implies triples(bytes)[k] == colors[k] by {
        assert((3 * k) % 3 == 0 && (3 * k) / 3 == k);
        assert((3 * k + 1) % 3 == 1 && (3 * k + 1) / 3 == k);
        assert((3 * k + 2) % 3 == 2 && (3 * k + 2) / 3 == k);
    }
    assert(triples(bytes) =~= colors);
}

/// An ordered list of reference colors. Duplicates are allowed; the order
/// only matters for breaking ties between equally close colors.
#[derive(Clone, Debug, PartialEq, Eq)]
pub struct Theme(Vec<Color>);

impl View for Theme {
    type V = Seq<Color>;

    closed spec fn view(&self) -> Seq<Color> {
        self.0@
    }
}

impl Theme {
    /// A theme holding exactly the given colors, in the given order.
    pub fn new(colors: Vec<Color>) -> (theme: Self)
        ensures
            theme@ == colors@,
    {
        Theme(colors)
    }

    /// A theme read from a flat byte sequence, three bytes per color.
    /// There is no such theme when the number of bytes is not a multiple of
    /// three; nothing is grouped in that case.
    pub fn from_vec(bytes: Vec<u8>) -> (theme: Option<Self>)
        ensures
            theme is Some <==> bytes@.len() % 3 == 0,
            theme matches Some(t) ==> t@ == triples(bytes@),
    {
        if bytes.len() % 3 != 0 {
            return None;
        }
        let mut colors: Vec<Color> = Vec::new();
        let mut i: usize = 0;
        while i < bytes.len()
            invariant
                bytes@.len() % 3 == 0,
                i % 3 == 0,
                i <= bytes@.len(),
                colors@.len() == i / 3,
                forall|k: int|
                    0 <= k < colors@.len() ==> colors@[k] == (
                        bytes@[3 * k],
                        bytes@[3 * k + 1],
                        bytes@[3 * k + 2],
                    ),
            decreases bytes@.len() - i,
        {
            let r: u8 = bytes[i];
            let g: u8 = bytes[i + 1];
            let b: u8 = bytes[i + 2];
            colors.push((r, g, b));
            i = i + 3;
        }
        assert(colors@ =~= triples(bytes@));
        Some(Theme::new(colors))
    }

    /// The colors of the theme, in order.
    pub fn colors(&self) -> (colors: &Vec<Color>)
        ensures
            colors@ == self@,
    {
        &self.0
    }

    /// The number of colors in the theme.
    pub fn len(&self) -> (n: usize)
        ensures
            n == self@.len(),
    {
        self.0.len()
    }

    /// Whether the theme has no color at all.
    pub fn is_empty(&self) -> (empty: bool)
        ensures
            empty <==> self@.len() == 0,
    {
        self.0.len() == 0
    }
}

} // verus!
