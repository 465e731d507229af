//! Verified core of a small image-viewer application.
//!
//! The library holds the parts of the application that are plain logic:
//! the persisted UI state with its textual encoding (`state`, `codec`),
//! and the asynchronous image-fetch flow, modelled as a state machine
//! that the unverified shell drives one event at a time (`fetch`).

pub mod codec;
pub mod fetch;
pub mod state;
