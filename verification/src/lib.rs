//! A privilege-restricting launcher library.
//!
//! The launcher stands in for a real executable: it decides whether to
//! sandbox the process, assembles an immutable access-control policy,
//! applies it irrevocably through the kernel's Landlock facility, makes
//! sure an on-disk redirection to the real executable exists, and then
//! hands control over.  This crate holds the decision and policy logic,
//! verified; the thin process shell around it (I/O, logging, `exec`)
//! lives outside.

pub mod config;
pub mod enforce;
pub mod handoff;
pub mod policy;
pub mod redirect;
pub mod text;
