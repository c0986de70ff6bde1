//! What a program needs to know before it asks Windows for a window and
//! fills it with shapes, and nothing of the asking itself.
//!
//! - [`flags`]: window flags and the window styles that they stand for.
//! - [`attributes`]: the attributes of a window and the parameters of its
//!   creation.
//! - [`icon`]: the bitmaps of an icon.
//! - [`wide`]: text as UTF-16 code units, and back.
//! - [`error`]: the errors of window creation and their messages.
//! - [`path`]: figures as path commands, among them the two figures of a
//!   polygon that grows a side.
//! - [`scene`]: where the sprites and shapes of the scene stand, in which
//!   colour, and when they change.

pub mod attributes;
pub mod error;
pub mod flags;
pub mod icon;
pub mod path;
pub mod scene;
pub mod wide;
