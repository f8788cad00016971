//! The protocol layer of a tiling window manager: everything that is decided
//! between the window manager's core and the X server, kept free of I/O.
//!
//! - [`xconnection`]: the interface the window manager programs against, and
//!   a stand-in for the server that lives in memory.
//! - [`setup`], [`driver`]: a connection being made ready, and a ready
//!   connection: the requests each operation amounts to.
//! - [`event`]: raw events turned into the events the window manager handles.
//! - [`atoms`]: the names the server has identifiers for.
//! - [`property`], [`query`], [`screen`]: what the replies to reads mean.
//! - [`classify`]: which windows float, and which are managed.
//! - [`request`]: requests as plain data, and the protocol's numbers.
//! - [`data_types`], [`text`]: geometry, keys and text.
pub mod atoms;
pub mod classify;
pub mod data_types;
pub mod driver;
pub mod event;
pub mod property;
pub mod query;
pub mod request;
pub mod screen;
pub mod setup;
pub mod text;
pub mod xconnection;
