//! Follows the sessions of many BGP peers through recorded routing data.
//!
//! A table dump gives each peer's routes at one moment; the update files
//! after it give, in the order of time, what the peers sent since: open
//! messages, updates, keep-alives, notifications, and changes of session
//! state. From these the library keeps, for each peer, the state of its
//! session and the routes that it announces now, and it sends a peer to
//! idle, and so drops its routes, once the peer has been silent for longer
//! than its hold time allows.
//!
//! Reading and decoding files is not done here: the library takes decoded
//! records as plain values (`models`) and is told the time by them.
//! Every function is verified against a contract over a mathematical view
//! of the data; what is believed of other crates without proof stands in
//! `bgpkit` and, for the calendar, in `timestamp`.

pub mod address;
pub mod announcement;
pub mod bgp_state;
pub mod bgpkit;
pub mod error;
pub mod models;
pub mod mrt_processor;
pub mod mrt_records;
pub mod timestamp;
pub mod util;
