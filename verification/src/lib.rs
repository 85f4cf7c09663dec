//! Legend pictures for Vial keymaps of the YIVU40 split keyboard.
//!
//! A keymap assigns a token to every place of the key grid. This crate turns
//! each token of the base layer into the label printed on its key
//! ([`label`]), knows where the keys of the board sit ([`geometry`]) and how
//! a key is styled ([`style`]), lists the drawing steps that make up the
//! picture ([`scene`]) and carries them out on a pixel buffer ([`render`],
//! [`canvas`]).

pub mod canvas;
pub mod config;
pub mod decimal;
pub mod geometry;
pub mod keycodes;
pub mod label;
pub mod render;
pub mod scene;
pub mod style;
pub mod text;

pub use canvas::{Canvas, Color, Typeface};
pub use config::{Token, VialConfig};
pub use geometry::{get_key_positions, KeyPosition};
pub use keycodes::simple_keycode_to_label;
pub use label::{get_tap_dance_info, keycode_to_label, KeyLabel};
pub use render::{generate_keyboard_image, load_font, render, RenderError};
pub use scene::{legend_ops, DrawOp};
