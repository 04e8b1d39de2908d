//! Client-side state machine for an X Input Method (XIM) session.
//!
//! The manager tracks one input-method session and a table of input
//! contexts, one per text-input window.  Every public operation is a pure
//! decision: it updates the manager's state and returns the protocol
//! request, if any, that the caller's transport layer must send.  The
//! transport itself (the connection to the input-method server) is outside
//! this crate.

pub mod handler;
pub mod laws;
pub mod protocol;
pub mod state;

pub use handler::XimHandler;
pub use protocol::{
    CreateIcRequest, ForwardRequest, Point, SetSpotRequest, SpawnOutcome, XimContext, XimError,
    KEY_PRESS_CODE, KEY_RELEASE_CODE, MASK_KEY_PRESS, MASK_KEY_RELEASE,
};
