//! A two-paddle, one-ball arena simulated frame by frame on fixed-point
//! coordinates: paddle control, ball motion, bounce resolution and round
//! outcome, each proved to meet its contract.
pub mod pong;
pub mod bounce;
pub mod paddle;
pub mod balls;
pub mod winner;
pub mod frame;
pub mod laws;
