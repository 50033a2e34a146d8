//! Selective transpiling of marked functions into JavaScript text.
//!
//! `ast` models the parsed program the host hands over, `config` resolves the
//! settings from the program's root attribute, `gen` renders functions,
//! `lint` walks the program, and `util` holds the naming and path helpers.

use vstd::prelude::*;

pub mod ast;
pub mod config;
pub mod gen;
pub mod lint;
pub mod util;

verus! {

} // verus!
