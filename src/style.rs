//! ANSI escape sequences used by the renderer and offered to callers.

use vstd::prelude::*;

verus! {

pub const RESET: &'static str = "\x1B[0m";
pub const BOLD: &'static str = "\x1B[1m";
pub const DIM: &'static str = "\x1B[2m";
pub const ITALIC: &'static str = "\x1B[3m";
pub const UNDERLINE: &'static str = "\x1B[4m";
pub const REVERSED: &'static str = "\x1B[7m";

pub const BLACK: &'static str = "\x1B[30m";
pub const RED: &'static str = "\x1B[31m";
pub const GREEN: &'static str = "\x1B[32m";
pub const YELLOW: &'static str = "\x1B[33m";
pub const BLUE: &'static str = "\x1B[34m";
pub const MAGENTA: &'static str = "\x1B[35m";
pub const CYAN: &'static str = "\x1B[36m";
pub const WHITE: &'static str = "\x1B[37m";

pub const BG_BLACK: &'static str = "\x1B[40m";
pub const BG_RED: &'static str = "\x1B[41m";
pub const BG_GREEN: &'static str = "\x1B[42m";
pub const BG_YELLOW: &'static str = "\x1B[43m";
pub const BG_BLUE: &'static str = "\x1B[44m";
pub const BG_MAGENTA: &'static str = "\x1B[45m";
pub const BG_CYAN: &'static str = "\x1B[46m";
pub const BG_WHITE: &'static str = "\x1B[47m";

} // verus!
