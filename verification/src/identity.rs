//! The operating system's identity interface.
//!
//! Reading the effective user id and changing the group and user ids are the
//! only things this library asks of the operating system. They are gathered
//! in the trait [`IdentityInterface`], so that the logic built on them can be
//! run against the real process ([`SystemIdentity`]) or against a double that
//! records what was asked of it. Every implementation keeps a history of the
//! operations performed through it; the contracts of this library are stated
//! over that history.

use nix::errno::Errno;
use vstd::prelude::*;

verus! {

/// The numeric id of the superuser.
pub const ROOT_UID: u32 = 0;

/// `nix::errno::Errno`, the error number that a failed system call left
/// behind. Its values are opaque here: they are carried unread from the
/// failing operation to the caller.
#[verifier::external_type_specification]
#[verifier::external_body]
pub struct ExErrno(Errno);

/// One operation performed through an [`IdentityInterface`], with its outcome.
#[derive(Debug, Clone, Copy, PartialEq, Eq)]
pub enum IdentityEvent {
    /// The effective user id was read; it was the given id.
    EffectiveUid(u32),
    /// A change of the group id to the given id was attempted.
    SetGroup(u32, Result<(), Errno>),
    /// A change of the user id to the given id was attempted.
    SetUser(u32, Result<(), Errno>),
}

/// The operations that the history `after` holds beyond the earlier history
/// `before`.
pub open spec fn issued_since(before: Seq<IdentityEvent>, after: Seq<IdentityEvent>) -> Seq<
    IdentityEvent,
> {
    after.skip(before.len() as int)
}

/// The platform primitives for reading and changing the process identity.
///
/// The methods take `&mut self` because each of them, the read included,
/// adds to the history.
pub trait IdentityInterface {
    /// Every operation performed through this value so far, oldest first.
    spec fn history(&self) -> Seq<IdentityEvent>;

    /// Reads the effective user id of the process.
    fn effective_uid(&mut self) -> (euid: u32)
        ensures
            final(self).history() == old(self).history().push(IdentityEvent::EffectiveUid(euid)),
    ;

    /// Attempts to change the group id of the process to `gid`.
    fn set_group_id(&mut self, gid: u32) -> (outcome: Result<(), Errno>)
        ensures
            final(self).history() == old(self).history().push(
                IdentityEvent::SetGroup(gid, outcome),
            ),
    ;

    /// Attempts to change the user id of the process to `uid`.
    fn set_user_id(&mut self, uid: u32) -> (outcome: Result<(), Errno>)
        ensures
            final(self).history() == old(self).history().push(IdentityEvent::SetUser(uid, outcome)),
    ;
}

/// The identity of the running process, changed through `nix::unistd`.
pub struct SystemIdentity {
    performed: Ghost<Seq<IdentityEvent>>,
}

impl SystemIdentity {
    /// A handle on the running process through which nothing was done yet.
    pub fn new() -> (os: Self)
        ensures
            os.history() == Seq::<IdentityEvent>::empty(),
    {
        SystemIdentity { performed: Ghost(Seq::empty()) }
    }
}

impl IdentityInterface for SystemIdentity {
    closed spec fn history(&self) -> Seq<IdentityEvent> {
        self.performed@
    }

    fn effective_uid(&mut self) -> (euid: u32) {
        let euid = process_effective_uid();
        self.performed = Ghost(self.performed@.push(IdentityEvent::EffectiveUid(euid)));
        euid
    }

    fn set_group_id(&mut self, gid: u32) -> (outcome: Result<(), Errno>) {
        let outcome = process_set_group_id(gid);
        self.performed = Ghost(self.performed@.push(IdentityEvent::SetGroup(gid, outcome)));
        outcome
    }

    fn set_user_id(&mut self, uid: u32) -> (outcome: Result<(), Errno>) {
        let outcome = process_set_user_id(uid);
        self.performed = Ghost(self.performed@.push(IdentityEvent::SetUser(uid, outcome)));
        outcome
    }
}

/// Calls `nix::unistd::geteuid` and returns the id as a number. The id
/// depends on the state of the process, so nothing is claimed of it.
#[verifier::external_body]
fn process_effective_uid() -> (euid: u32) {
    nix::unistd::geteuid().as_raw()
}

/// Calls `nix::unistd::setgid` with `gid`. Whether the change succeeds is up
/// to the operating system, so nothing is claimed of the outcome.
#[verifier::external_body]
fn process_set_group_id(gid: u32) -> (outcome: Result<(), Errno>) {
    nix::unistd::setgid(nix::unistd::Gid::from_raw(gid))
}

/// Calls `nix::unistd::setuid` with `uid`. Whether the change succeeds is up
/// to the operating system, so nothing is claimed of the outcome.
#[verifier::external_body]
fn process_set_user_id(uid: u32) -> (outcome: Result<(), Errno>) {
    nix::unistd::setuid(nix::unistd::Uid::from_raw(uid))
}

} // verus!
