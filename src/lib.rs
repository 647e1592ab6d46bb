use vstd::prelude::*;

pub mod calendar;
pub mod controller;
pub mod item;
pub mod laws;
pub mod mem_model;
pub mod sqlite_model;
pub mod store;
pub mod text;
pub mod view;

verus! {

/// A calendar day, as its Julian day number.
pub type JulianDay = i32;

} // verus!
