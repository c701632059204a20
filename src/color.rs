use vstd::prelude::*;

use crate::account::AccountId;

verus! {

/// A colour: one byte for each of the red, green and blue channels.
#[derive(Clone, Copy, Debug, PartialEq, Eq, Structural)]
pub struct Color {
    pub r: u8,
    pub g: u8,
    pub b: u8,
}

impl Color {
    /// Builds a colour from its three channels.
    pub fn new(r: u8, g: u8, b: u8) -> (c: Color)
        ensures
            c == (Color { r, g, b }),
    {
        Color { r, g, b }
    }
}

/// What can go wrong in an operation on the store.
#[derive(Clone, Copy, Debug, PartialEq, Eq, Structural)]
pub enum Error {
    /// The caller is not the owner of the store.
    NotOwner,
}

/// Recorded when a caller appends a colour.
#[derive(Clone, Copy, Debug, PartialEq, Eq)]
pub struct ColorAdded {
    pub account_id: AccountId,
    pub color: Color,
}

/// Recorded when the owner empties the store.
#[derive(Clone, Copy, Debug, PartialEq, Eq)]
pub struct ColorsClear {
    pub account_id: AccountId,
}

} // verus!
