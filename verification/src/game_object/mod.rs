//! The entities on the field: one ball and two paddles, and the two
//! capabilities they share.

pub mod ball;
pub mod paddle;
pub mod traits;
