use vstd::prelude::*;

pub mod capture;
pub mod commands;
pub mod config;
pub mod naming;
pub mod region;
pub mod session;
pub mod text;

verus! {

} // verus!
