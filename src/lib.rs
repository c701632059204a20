use vstd::prelude::*;

pub mod account;
pub mod color;
pub mod laws;
pub mod store;

pub use account::AccountId;
pub use color::{Color, ColorAdded, ColorsClear, Error};
pub use store::{ColorsState, OpenColors, Operation};

verus! {

} // verus!
