//! Core of a desktop recording assistant: a mutually exclusive recording
//! session with its screenshot buffer, and the redemption of an auth token
//! through a loopback HTTP callback or an OS deep link.

pub mod callback;
pub mod external;
pub mod session;
pub mod text;
