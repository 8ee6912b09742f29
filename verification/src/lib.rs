//! Detection of a `sudo` elevation and the ordered drop back to the invoking
//! user's identity.
//!
//! A tool that was started through `sudo` runs as the superuser, while the
//! environment still names the user who started it. [`SudoContext::detect`]
//! recovers that user, and [`SudoContext::drop_privileges`] gives up the
//! superuser's rights for that user's: the group id first, then the user id.
//!
//! * [`decimal`]: the text of a numeric id and how it is read.
//! * [`identity`]: what is asked of the operating system, and the running
//!   process as its implementation.
//! * [`scripted`]: an implementation that only records, for tests.
//! * [`context`]: the detected user, detection and the drop.

pub mod context;
pub mod decimal;
pub mod identity;
pub mod scripted;

pub use context::{
    IdentityOperation, PrivilegeError, SudoContext, SudoSignals, SUDO_GID, SUDO_UID, SUDO_USER,
};
pub use identity::{IdentityEvent, IdentityInterface, SystemIdentity, ROOT_UID};
pub use scripted::ScriptedIdentity;
