//! What the calls of the library give.
//!
//! Each function here takes the arguments and the result of a call of an executable
//! function, and states what holds of them: in numbers, positions and plain values, or by
//! comparing two calls.
pub mod allowed;
pub mod layers;
pub mod messages;
pub mod moving;
pub mod screens;
pub mod values;
