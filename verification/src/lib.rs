//! Virtual game controllers, driven over a bridge.
//!
//! A small bridge process hosts the controllers and speaks JSON, one document on
//! each line. This crate holds the rules of a client of that bridge, and of a
//! server that lets an agent use it: the states of controllers, the requests and
//! what becomes of their replies, the tools and what each of them does step by
//! step. The processes, pipes and threads around it are the caller's: a session
//! and a server tell what is to be done next, and take the result.
//!
//! - [`state`], [`gamepad`], [`patch`], [`single`]: the state of a controller.
//! - [`builder`], [`error`], [`events`], [`protocol`], [`session`]: the client.
//! - [`tools`], [`command`], [`message`], [`work`], [`server`]: the server.
//! - [`json`], [`text`]: documents and characters.

use vstd::prelude::*;

pub mod builder;
pub mod command;
pub mod error;
pub mod events;
pub mod gamepad;
pub mod json;
pub mod message;
pub mod patch;
pub mod protocol;
pub mod server;
pub mod session;
pub mod single;
pub mod state;
pub mod text;
pub mod tools;
pub mod work;

pub use builder::{HidMaestroBuilder, BRIDGE_BIN_NAME, BRIDGE_PATH_ENV, PIPE_NAME_ENV};
pub use error::{Error, Result};
pub use gamepad::{ControllerInfo, GamepadState, OutputEvent, Profile, StandardAxes};
pub use session::{Controller, HidMaestro};
pub use single::Single;
pub use state::{Axis, Buttons, Hat};

verus! {

} // verus!
