//! The `close` event of a DOM: a record that embeds the base event state
//! (type, bubbling, cancelability, trust) and adds the outcome of a
//! connection close (whether it was clean, its code and its reason), with
//! the two creation paths (native factory and script constructor) and the
//! realm that gives each reflected record a stable handle.

#![allow(non_snake_case)]

pub mod closeevent;
pub mod event;
pub mod realm;
