//! The internal pose: hands in a fixed digit and bone order.

pub mod bone;
pub mod digit;
pub mod hand;
pub mod palm;
