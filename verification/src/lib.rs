//! A client for calendars on a CalDAV server, without the network.
//!
//! The crate finds its way from a server to the principal of a user, from
//! there to the user's calendar home, to the calendars in it and to the
//! objects in each calendar. At every step it says what to ask
//! (a [`Request`]) and reads what came back (a [`Reply`]): sending the one
//! and receiving the other is left to the caller.

pub mod auth;
pub mod calendar;
pub mod client;
pub mod home;
pub mod host;
pub mod names;
pub mod object;
pub mod principal;
pub mod resource;
pub mod result;
pub mod text;
pub mod transport;
pub mod xml;

pub use auth::Authorization;
pub use calendar::Calendar;
pub use client::{Client, Discovery, Progress};
pub use home::Home;
pub use names::NameMap;
pub use object::{Iterator, Object};
pub use principal::Principal;
pub use resource::{one, to_map, to_vec, Children, Requestable, Xmlable};
pub use result::{Error, XmlFault};
pub use transport::{Method, Reply, Request};
