//! Coordination core of a battery-powered information display appliance.
//!
//! The device periodically fetches remote content (news feed, weather, stock
//! quote), renders one of several pages to a slow display, reacts to a
//! physical button, persists configuration, and manages power by cycling
//! network connectivity and deep sleep.  This crate holds the verified
//! orchestration logic: the page state machine, the shared application state,
//! the command dispatch step, the interrupt-driven button debouncer, the
//! render-trigger protocol, the data-refresh semantics, the configuration
//! codec with its non-volatile store model, and the power-cycle state
//! machine.  Hardware access, network transport, and page drawing live
//! outside the crate and talk to it through plain values.

pub mod codec;
pub mod command;
pub mod dispatch;
pub mod feed;
pub mod interrupt;
pub mod nvs;
pub mod pages;
pub mod power;
pub mod refresh;
pub mod render;
pub mod server;
pub mod state;
pub mod stock;
pub mod storage;
pub mod trigger;
pub mod weather;
pub mod wifi;

pub use command::Command;
pub use pages::PageType;
