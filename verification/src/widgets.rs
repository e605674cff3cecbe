//! What the screens are built from.

pub mod input;
pub mod logo;
