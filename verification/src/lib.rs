//! The core of a small developer toolbench: for images, the format that a
//! path names, the dimensions that a resize aims at, and what the three
//! image operations report; besides, digests of text, identifiers and
//! passwords.
//!
//! Everything in here is proved against its contract, down to a handful of
//! calls into other libraries whose contracts are taken on trust. Each of
//! those stands in a function or a declaration of its own, with a comment
//! that says what is claimed of it:
//!
//! - in [`text`], letter case, equality and growth of strings;
//! - in [`pathname`], the extension of a path;
//! - in [`raster`], the dimensions and the resampling of a decoded image;
//! - in [`hash`], the three digests;
//! - in [`password`], the draw of a random number;
//! - in [`identifier`], the making of an identifier.
//!
//! Files are not read or written in here.

pub mod dimensions;
pub mod error;
pub mod format;
pub mod hash;
pub mod identifier;
pub mod password;
pub mod pathname;
pub mod pipeline;
pub mod raster;
pub mod text;
