//! A small music tracker: a wavetable synthesis engine and the widgets of its
//! terminal front end, with their behaviour stated and proved.

pub mod button;
pub mod cycle;
pub mod focus;
pub mod interaction;
pub mod label;
pub mod layout;
pub mod oscillator;
pub mod pos;
pub mod sounds;
pub mod synth;
pub mod textbox;
pub mod tracker;
pub mod voice;
pub mod widget;
