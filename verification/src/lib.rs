//! Native support for a game launcher: archive inspection and extraction,
//! Java runtime discovery, and launch command assembly.

pub mod entry;
pub mod error;
pub mod extract;
pub mod format;
pub mod launch;
pub mod locator;
pub mod paths;
pub mod platform;
pub mod roots;
pub mod session;
pub mod tararchive;
pub mod text;
pub mod ziparchive;
