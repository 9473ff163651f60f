//! Session core of a dice-room client: the login form, the negotiation
//! outcome, the event decoder, the session log and the interactive loop's
//! state machine, each with a contract that Verus proves.

pub mod error;
pub mod event;
pub mod flow;
pub mod form;
pub mod input;
pub mod json;
pub mod layout;
pub mod log;
pub mod negotiate;
pub mod session;
pub mod text;
pub mod user;
