use vstd::prelude::*;

pub mod animation;
pub mod font;
pub mod button;
