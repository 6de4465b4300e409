//! A hash-based router for a single-page application shell: route
//! normalisation, an exact-match route table, the navigation bar's link model
//! and the shell's state machine over navigation events.
pub mod laws;
pub mod navbar;
pub mod route;
pub mod router;
pub mod shell;
pub mod table;
