//! Dimensions of the monochrome framebuffer.
use vstd::prelude::*;

verus! {

/// Columns of the framebuffer.
pub const WIDTH: usize = 64;

/// Rows of the framebuffer.
pub const HEIGHT: usize = 32;

/// A framebuffer in which no cell is lit: `HEIGHT` rows of `WIDTH` cells.
pub open spec fn blank_screen() -> Seq<Seq<bool>> {
    Seq::new(HEIGHT as nat, |r: int| Seq::new(WIDTH as nat, |c: int| false))
}

/// `screen` has `HEIGHT` rows of `WIDTH` cells each.
pub open spec fn screen_shape(screen: Seq<Seq<bool>>) -> bool {
    &&& screen.len() == HEIGHT
    &&& forall|r: int| 0 <= r < HEIGHT ==> (#[trigger] screen[r]).len() == WIDTH
}

} // verus!
