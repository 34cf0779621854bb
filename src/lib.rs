//! Core of a current/voltage logger: the bounded sample log, the delivery
//! pipeline with its JSON and HTTP framing, the debounced buttons, the
//! sampling scheduler, and the decoding of the monitor's registers.

pub mod battery;
pub mod currentlogs;
pub mod pushswitch;
pub mod scheduler;
pub mod sensor;
pub mod text;
pub mod transfer;
