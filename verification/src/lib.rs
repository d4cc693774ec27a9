//! Small verified examples of the basics of the language.
//!
//! Each module holds the functions of one chapter, and each function states
//! in its contract what it returns or changes:
//!
//! - `functions`: values returned through a final expression;
//! - `ownership`: strings that move in and out of functions, and a string
//!   changed through a mutable reference;
//! - `structures`: a structure built by a function, methods that borrow or
//!   take `self`, setters and an associated function;
//! - `enumerations`: variants that carry data, and `match`;
//! - `slices`: the first word of a string.

pub mod enumerations;
pub mod functions;
pub mod ownership;
pub mod slices;
pub mod structures;
