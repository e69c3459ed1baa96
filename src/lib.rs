//! Rotation engine of a photo cycler: a live-adjustable rotation interval,
//! the rules that pick which photo is shown next, and the step machine that
//! republishes the chosen photo through a stable alias.

pub mod candidates;
pub mod interval;
pub mod rotation;
