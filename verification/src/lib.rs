//! A client library for the HTTP and JSON interface of a Philips Hue bridge:
//! the addresses of its resources, and the typed reading of its responses.
//!
//! A response is read in three steps. `bridge::decode` reads the body into the
//! outcomes that it holds, each a success or a refusal of the bridge.
//! `success::interpret_batch` reads what each success says was changed.
//! `errors::BridgeError` names the refusals by the numbers of the bridge.

use vstd::prelude::*;

pub mod bridge;
pub mod errors;
pub mod hue;
pub mod json;
pub mod path;
pub mod success;
pub mod text;
pub mod value;

pub use crate::bridge::Bridge;
pub use crate::hue::LightCommand;

verus! {

} // verus!
