//! Decision logic of a chat relay between a messaging platform and a hosted
//! assistant service.
//!
//! The crate performs no input or output. Each component is a state machine:
//! it is told what happened outside (an event) and answers with the next thing
//! to do (an action). A driver performs the actions against the chat platform,
//! the assistant service and the session store, and reports back.
pub mod json;
pub mod key;
pub mod reply;
pub mod router;
pub mod router_laws;
pub mod run;
pub mod run_laws;
pub mod session;
pub mod status;
pub mod voice;
