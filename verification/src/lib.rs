//! Interaction core of a small terminal front-end: a Unicode-aware
//! single-line editor and the screen/mode state machine that feeds it.

pub mod app;
pub mod key;
pub mod strings;
pub mod widgets;
