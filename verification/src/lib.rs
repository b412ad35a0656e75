//! Scramble sheets for the fifteen puzzle: move lists wrapped into lines,
//! replayed against the solved board before they are handed out.

pub mod batch;
pub mod board;
pub mod moves;
pub mod row;
pub mod text;
