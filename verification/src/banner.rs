//! The title banner that opens a report.

use crate::style::{Palette, PaletteView};
use vstd::prelude::*;

verus! {

/// The title that the banner draws.
pub const BANNER_TITLE: &'static str = "SysInfo CLI";

/// Where the font of the banner is read from, relative to the directory the
/// program runs in.
pub const BANNER_FONT_PATH: &'static str = "resources/larry3d.flf";

/// The banner around a drawn title: the colour yellow, bold, the figure and
/// the reset sequence, each on a line of its own.
pub open spec fn banner_text(figure: Seq<char>, palette: PaletteView) -> Seq<char> {
    palette.yellow + "\n"@ + palette.bold + "\n"@ + figure + "\n"@ + palette.reset + "\n"@
}

/// The banner of a report around `figure`, the title as a font has drawn
/// it.
pub fn render_banner(figure: &str, palette: &Palette) -> (r: String)
    ensures
        r@ == banner_text(figure@, palette@),
{
    let mut out = String::new();
    out.append(palette.yellow.as_str());
    out.append("\n");
    out.append(palette.bold.as_str());
    out.append("\n");
    out.append(figure);
    out.append("\n");
    out.append(palette.reset.as_str());
    out.append("\n");
    assert(out@ =~= banner_text(figure@, palette@));
    out
}

} // verus!
