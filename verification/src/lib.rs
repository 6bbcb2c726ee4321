//! A verified model of a browser video player's controls.
//!
//! The host page is held as plain data ([`page::Page`]), and every action of
//! the player is a transition on that data with an exact contract: what it
//! changes on the page, which operations it asks of the host and in what
//! order, what it returns, and when it fails. The behaviour of the controls
//! is thereby proved without a browser; [`laws`] states what holds of the
//! actions taken together.
//!
//! An action tells the console that it was entered before it does anything
//! else, and reports its outcome through the error surface ([`surface`]).
//!
//! Numbers that a browser holds as floating point are held exactly here:
//! speeds in thousandths of the normal speed, times in milliseconds,
//! positions in whole pixels.

pub mod error;
pub mod logger;
pub mod text;
pub mod speed;

pub mod page;
pub mod dom;
pub mod surface;
pub mod state;
pub mod element_ids;

pub mod play_pause;
pub mod mute;
pub mod fullscreen;
pub mod picture_in_picture;
pub mod playback_speed;
pub mod time;
pub mod menu;
pub mod download;
pub mod event_listeners;
pub mod player;

pub mod mock_client;
pub mod post_client;
pub mod example;

pub mod laws;
