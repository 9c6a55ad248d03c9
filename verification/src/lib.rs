//! The logic of a media library with a video player, proved with Verus.
//!
//! The heart of it is the video scrubber ([`slider`]): how a position on
//! the screen becomes a value, how the pointer, the keyboard and the wheel
//! change the value, and what floats above the track meanwhile. Beside it
//! stand the preview frames ([`thumbnail`]): the conversion of a decoded
//! frame to an image, and where in a video the previews are taken. The rest
//! is what the screens decide: the catalogue with its filter and its order
//! ([`filter`], [`sort`], [`movies`]), the history of pages ([`pages`],
//! [`home`]), the controls of the player ([`player`], [`app`]) and a
//! pop-up menu ([`menu`]).
//!
//! Everything here works on whole numbers. Screen coordinates are whole
//! logical pixels. The values of the scrubber are whole ticks of a unit that
//! the caller chooses; times are in milliseconds or nanoseconds, as each
//! function says. Drawing, the decode pipeline and the playback belong to
//! the caller: the library is told what happened and answers what is to be
//! done.

pub mod app;
pub mod error;
pub mod filter;
pub mod geometry;
pub mod home;
pub mod icons;
pub mod menu;
pub mod movies;
pub mod pages;
pub mod player;
pub mod rounding;
pub mod slider;
pub mod sort;
pub mod text;
pub mod thumbnail;
pub mod video;
