//! Over-the-air firmware update client core.
//!
//! The library holds the decision logic of a small OTA client: semantic
//! version ordering, release-metadata decoding, the flash slot writer with
//! its capacity check, the boot-time acceptance gate, the wireless
//! connectivity state machine, and the periodic update cycle. All I/O
//! (radio, sockets, timers, the flash device itself) stays outside; the
//! library is handed plain bytes and events and returns actions.

pub mod boot;
pub mod error;
pub mod flash;
pub mod release;
pub mod scheduler;
pub mod version;
pub mod wifi;
