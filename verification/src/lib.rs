//! Playback controller of an audio-article player.
//!
//! The controller is a reducer: it takes its state, one message and what the
//! page currently reads, and gives the next state together with the effects
//! that the surrounding program has to carry out on the audio device, the
//! media-control surface and the article store.
//!
//! Times and rates are whole numbers of thousandths: `12_500` is 12.5 seconds,
//! `1_250` is 1.25 times normal speed.

pub mod article;
pub mod device;
pub mod effect;
pub mod error;
pub mod loading;
pub mod player;
pub mod reading;
pub mod seek;
pub mod session;
pub mod speed;
pub mod trace;
