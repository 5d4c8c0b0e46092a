//! A game of chance on a revolving drum.
//!
//! The player stakes a balance. Each pull of the trigger either meets the
//! target position, and the balance is lost, or doubles the balance and turns
//! the drum by one position. After every pull that was survived the player
//! decides whether to go on.

pub mod balance;
pub mod chance;
pub mod drum;
pub mod message;
pub mod prompt;
pub mod round;
