//! The size of the playing field.

use vstd::prelude::*;

verus! {

/// Number of columns of the playing field.
pub const SCREEN_WIDTH: i32 = 80;

/// Number of rows of the playing field.
pub const SCREEN_HEIGHT: i32 = 50;

} // verus!
