//! Clipboard watching as a verified core.
//!
//! A watch polls the clipboard, holds what it reads against what it read
//! before, and sends each change that the filter lets pass to the configured
//! sinks. This library holds the decisions of such a watch; reading the
//! clipboard, sleeping and performing the effects are left to the caller.
//!
//! - [`snapshot`]: what the clipboard held at one instant, and whether two
//!   such contents differ.
//! - [`filter`]: the regular expression that a text must match.
//! - [`template`] and [`decimal`]: the names of image files and the lines of
//!   commands, rendered from templates with a counter in them.
//! - [`dispatch`]: what is sent to which sink.
//! - [`config`]: the options of a watch and their consistency.
//! - [`watch`]: the state that a watch keeps, and what one poll does to it.

pub mod config;
pub mod decimal;
pub mod dispatch;
pub mod filter;
pub mod snapshot;
pub mod template;
pub mod watch;
