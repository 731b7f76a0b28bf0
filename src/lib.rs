//! A client for the session service of the vSphere REST API: logging in,
//! asking the server about the current session, and logging out.
//!
//! The library decides everything that is not the network round trip itself:
//! which request to send, and what the answer means for the session.
//! The caller performs the HTTP exchange and hands the answer back.
pub mod cis;
pub mod common;
pub mod time;
pub mod transport;
