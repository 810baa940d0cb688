//! Logical core of a wall-mounted home-automation remote.
//!
//! Physical and touch inputs are debounced and framed into button events;
//! per-device controllers turn broker messages into display state and button
//! presses into outbound commands; a single event loop owns the paging and
//! display-blanking policy.  Everything here is pure decision logic: the
//! hardware, the display renderer and the broker transport live outside and
//! exchange plain values with this crate.

pub mod button;
pub mod config;
pub mod controllers;
pub mod debounce;
pub mod display;
pub mod event_loop;
pub mod ident;
pub mod input;
pub mod json;
pub mod messages;
pub mod mqtt;
pub mod paging;
pub mod registry;
pub mod status;
pub mod strutil;
pub mod touch_debounce;
pub mod touchscreen;
