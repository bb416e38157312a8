//! Generates Rust functions that convert between the string, byte and
//! path types of the standard library, and the parts of a page that
//! documents them.
//!
//! The kinds of data are in [`kind`], the one-step conversions between
//! them in [`transform`], and the chains of steps that lead from one
//! anchor kind to another in [`chains`]. [`generate`] folds a chain into
//! one expression and makes a function of it; [`code`] collects the
//! functions of a pass with their imports. [`html`] and [`highlight`]
//! make the navigation and the content of the page.
//!
//! The modules whose names begin with `from_` hold conversions of the
//! kind that is generated, as functions with contracts.

pub mod chains;
pub mod code;
pub mod comment;
pub mod from_path;
pub mod from_path_buf;
pub mod from_str;
pub mod from_string;
pub mod from_u8_slice;
pub mod from_u8_vec;
pub mod generate;
pub mod highlight;
pub mod html;
pub mod kind;
pub mod path;
pub mod string_set;
pub mod template;
pub mod text;
pub mod transform;
pub mod utf8;
