//! Verified core of a display-drawing library.
//!
//! One root display is shared by drawing clients that take it in turn
//! ([`target`]); sprites are surfaces of their own, created from the root.
//! Every target takes primitives, images and font settings ([`draw`]) and
//! text ([`text`]), which is measured glyph by glyph ([`layout`],
//! [`metrics`]) and placed by its anchor ([`datum`]). Colours come in two
//! packed encodings ([`color`]), panels in four refresh modes ([`epd`]).
//!
//! What draws is the primitive layer ([`layer`]): the library drives it and
//! states what it asks of it. [`trace`] is a primitive layer in memory, and
//! [`display`] a target seen pixel by pixel.

pub mod color;
pub mod datum;
pub mod display;
pub mod draw;
pub mod epd;
pub mod layer;
pub mod layout;
pub mod metrics;
pub mod target;
pub mod text;
pub mod trace;
