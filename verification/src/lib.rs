//! Provisioning of a local driver bundle and resolution of its entry point.
//!
//! The library decides; its caller performs the filesystem work. A [`Driver`] is a
//! handle over an installation directory, an [`Installation`] is the protocol by
//! which a caller brings that directory into being.

pub mod archive;
pub mod driver;
pub mod install;
pub mod location;
pub mod platform;

pub use archive::{ExtractFault, InstallError};
pub use driver::Driver;
pub use install::{Action, Event, Installation, Stage};
pub use platform::Platform;
