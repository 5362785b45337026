//! Verification of TLS server certificates with the certificate engine of
//! Windows.
//!
//! Emulating what Windows does for every configuration (corporate proxies,
//! custom authorities, trust policies) is out of reach, so the decision is left
//! to the engine itself. This crate holds everything around the engine: which
//! calls are made, with which arguments and in which order, what each reply
//! means, which error a refused certificate is answered with, and when each
//! handle is given back.
//!
//! The calls themselves are made by the embedding program. A [`windows::Verifier`]
//! starts a [`session::Verification`]; the program asks it for the next
//! [`call::Call`], performs it, and hands the [`call::Reply`] back, until the
//! call is `Done`.
pub mod arguments;
pub mod call;
pub mod course;
pub mod decimal;
pub mod error;
pub mod handles;
pub mod layout;
pub mod name;
pub mod os;
pub mod plan;
pub mod policy;
pub mod session;
pub mod store;
pub mod time;
pub mod trust;
pub mod windows;
pub mod verdict;
pub mod wincrypt;
