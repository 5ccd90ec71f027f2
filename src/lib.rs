//! Client-side session logic of a real-time chat participant: the envelope
//! protocol, the session state (roster, history, theme, input) and the
//! controller decisions taken on inbound frames and local actions.

pub mod envelope;
pub mod json;
pub mod session;
pub mod text;
