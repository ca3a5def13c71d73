//! Verified core of a command-line client for the fatcat catalog API:
//! parsing of entity specifiers, the choice of API request for each
//! specifier, and the small decisions the command line makes.

pub mod util;
pub mod text;
pub mod specifier;
pub mod api;
pub mod cli;
pub mod laws;
