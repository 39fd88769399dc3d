//! Color tokens, palettes, and the catalog of pride-flag color sequences.

use vstd::prelude::*;

verus! {

/// A display color understood by the destination document format. The
/// segmenter treats these as opaque symbols: it only cycles through whatever
/// ordered sequence of them a palette supplies.
#[derive(Clone, Copy, Debug, PartialEq, Eq, Structural)]
pub enum ColorToken {
    Default,
    Gray,
    Brown,
    Orange,
    Yellow,
    Green,
    Blue,
    Purple,
    Pink,
    Red,
    GrayBackground,
    BrownBackground,
    OrangeBackground,
    YellowBackground,
    GreenBackground,
    BlueBackground,
    PurpleBackground,
    PinkBackground,
    RedBackground,
}

/// A non-empty ordered sequence of color tokens. The order defines the
/// repeating cycle the segmenter walks through; a palette never changes once
/// constructed.
#[derive(Clone, Debug)]
pub struct ColorPalette {
    colors: Vec<ColorToken>,
}

impl View for ColorPalette {
    type V = Seq<ColorToken>;

    closed spec fn view(&self) -> Seq<ColorToken> {
        self.colors@
    }
}

impl ColorPalette {
    /// A palette is well formed exactly when it holds at least one color.
    pub open spec fn wf(&self) -> bool {
        self@.len() >= 1
    }

    /// Builds a palette from an ordered list of colors; an empty list is
    /// rejected, since a palette must offer at least one color to cycle over.
    pub fn new(colors: Vec<ColorToken>) -> (palette: Option<ColorPalette>)
        ensures
            colors@.len() >= 1 ==> (palette matches Some(p) && p@ == colors@ && p.wf()),
            colors@.len() == 0 ==> palette is None,
    {
        if colors.len() == 0 {
            None
        } else {
            Some(ColorPalette { colors })
        }
    }

    /// The number of colors in the cycle.
    pub fn len(&self) -> (n: usize)
        ensures
            n == self@.len(),
    {
        self.colors.len()
    }

    /// The color assigned to the k-th chunk: the palette repeats
    /// indefinitely, so position `k` wraps around modulo the palette length.
    pub fn color_at(&self, k: usize) -> (color: ColorToken)
        requires
            self.wf(),
        ensures
            color == self@[k as int % self@.len() as int],
    {
        let idx = k % self.colors.len();
        self.colors[idx]
    }
}

/// The six-stripe rainbow flag as text colors.
pub fn gay_pride_rainbow_six() -> (palette: ColorPalette)
    ensures
        palette.wf(),
        palette@ =~= seq![
            ColorToken::Red,
            ColorToken::Orange,
            ColorToken::Yellow,
            ColorToken::Green,
            ColorToken::Blue,
            ColorToken::Purple,
        ],
{
    ColorPalette {
        colors: vec![
            ColorToken::Red,
            ColorToken::Orange,
            ColorToken::Yellow,
            ColorToken::Green,
            ColorToken::Blue,
            ColorToken::Purple,
        ],
    }
}

/// The six-stripe rainbow flag as background colors.
pub fn gay_pride_rainbow_six_background() -> (palette: ColorPalette)
    ensures
        palette.wf(),
        palette@ =~= seq![
            ColorToken::RedBackground,
            ColorToken::OrangeBackground,
            ColorToken::YellowBackground,
            ColorToken::GreenBackground,
            ColorToken::BlueBackground,
            ColorToken::PurpleBackground,
        ],
{
    ColorPalette {
        colors: vec![
            ColorToken::RedBackground,
            ColorToken::OrangeBackground,
            ColorToken::YellowBackground,
            ColorToken::GreenBackground,
            ColorToken::BlueBackground,
            ColorToken::PurpleBackground,
        ],
    }
}

/// The seven-stripe rainbow flag as text colors.
pub fn gay_pride_rainbow_seven() -> (palette: ColorPalette)
    ensures
        palette.wf(),
        palette@ =~= seq![
            ColorToken::Pink,
            ColorToken::Red,
            ColorToken::Orange,
            ColorToken::Yellow,
            ColorToken::Green,
            ColorToken::Blue,
            ColorToken::Purple,
        ],
{
    ColorPalette {
        colors: vec![
            ColorToken::Pink,
            ColorToken::Red,
            ColorToken::Orange,
            ColorToken::Yellow,
            ColorToken::Green,
            ColorToken::Blue,
            ColorToken::Purple,
        ],
    }
}

/// The seven-stripe rainbow flag as background colors.
pub fn gay_pride_rainbow_seven_background() -> (palette: ColorPalette)
    ensures
        palette.wf(),
        palette@ =~= seq![
            ColorToken::PinkBackground,
            ColorToken::RedBackground,
            ColorToken::OrangeBackground,
            ColorToken::YellowBackground,
            ColorToken::GreenBackground,
            ColorToken::BlueBackground,
            ColorToken::PurpleBackground,
        ],
{
    ColorPalette {
        colors: vec![
            ColorToken::PinkBackground,
            ColorToken::RedBackground,
            ColorToken::OrangeBackground,
            ColorToken::YellowBackground,
            ColorToken::GreenBackground,
            ColorToken::BlueBackground,
            ColorToken::PurpleBackground,
        ],
    }
}

/// The bisexual pride flag reduced to three text colors.
pub fn bi_pride_three() -> (palette: ColorPalette)
    ensures
        palette.wf(),
        palette@ =~= seq![ColorToken::Pink, ColorToken::Purple, ColorToken::Blue],
{
    ColorPalette { colors: vec![ColorToken::Pink, ColorToken::Purple, ColorToken::Blue] }
}

/// The bisexual pride flag reduced to three background colors.
pub fn bi_pride_three_background() -> (palette: ColorPalette)
    ensures
        palette.wf(),
        palette@ =~= seq![
            ColorToken::PinkBackground,
            ColorToken::PurpleBackground,
            ColorToken::BlueBackground,
        ],
{
    ColorPalette {
        colors: vec![
            ColorToken::PinkBackground,
            ColorToken::PurpleBackground,
            ColorToken::BlueBackground,
        ],
    }
}

/// The five-stripe lesbian pride flag; the middle stripe falls back to the
/// default color, which only reads as white in dark mode.
pub fn lesbian_pride_five() -> (palette: ColorPalette)
    ensures
        palette.wf(),
        palette@ =~= seq![
            ColorToken::Red,
            ColorToken::Orange,
            ColorToken::Default,
            ColorToken::Pink,
            ColorToken::Purple,
        ],
{
    ColorPalette {
        colors: vec![
            ColorToken::Red,
            ColorToken::Orange,
            ColorToken::Default,
            ColorToken::Pink,
            ColorToken::Purple,
        ],
    }
}

/// The six-stripe lesbian pride flag, with the same default-color fallback
/// for the white stripe.
pub fn lesbian_pride_six() -> (palette: ColorPalette)
    ensures
        palette.wf(),
        palette@ =~= seq![
            ColorToken::Red,
            ColorToken::Orange,
            ColorToken::Yellow,
            ColorToken::Default,
            ColorToken::Pink,
            ColorToken::Purple,
        ],
{
    ColorPalette {
        colors: vec![
            ColorToken::Red,
            ColorToken::Orange,
            ColorToken::Yellow,
            ColorToken::Default,
            ColorToken::Pink,
            ColorToken::Purple,
        ],
    }
}

/// The transgender pride flag.
pub fn trans_pride() -> (palette: ColorPalette)
    ensures
        palette.wf(),
        palette@ =~= seq![
            ColorToken::Blue,
            ColorToken::Pink,
            ColorToken::Default,
            ColorToken::Pink,
            ColorToken::Blue,
        ],
{
    ColorPalette {
        colors: vec![
            ColorToken::Blue,
            ColorToken::Pink,
            ColorToken::Default,
            ColorToken::Pink,
            ColorToken::Blue,
        ],
    }
}

/// The asexual pride flag, approximated with the colors the document format
/// offers.
pub fn ace_pride() -> (palette: ColorPalette)
    ensures
        palette.wf(),
        palette@ =~= seq![
            ColorToken::GrayBackground,
            ColorToken::Gray,
            ColorToken::Default,
            ColorToken::Purple,
        ],
{
    ColorPalette {
        colors: vec![
            ColorToken::GrayBackground,
            ColorToken::Gray,
            ColorToken::Default,
            ColorToken::Purple,
        ],
    }
}

} // verus!
