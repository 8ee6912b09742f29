//! An identity interface that touches nothing: it answers as it was told to
//! and records what was asked of it.

use crate::identity::{IdentityEvent, IdentityInterface};
use nix::errno::Errno;
use vstd::prelude::*;

verus! {

/// A stand-in for the operating system. Its answers are fixed by its fields,
/// and every operation is appended to `events` with the answer it got, so
/// that the order of the operations can be inspected afterwards.
#[derive(Debug)]
pub struct ScriptedIdentity {
    /// The effective user id that is reported.
    pub euid: u32,
    /// The outcome of every attempt to change the group id.
    pub group_outcome: Result<(), Errno>,
    /// The outcome of every attempt to change the user id.
    pub user_outcome: Result<(), Errno>,
    /// The operations performed so far, oldest first.
    pub events: Vec<IdentityEvent>,
}

impl ScriptedIdentity {
    /// A process with effective user id `euid` in which every change of
    /// identity succeeds, and on which nothing was performed yet.
    pub fn new(euid: u32) -> (os: Self)
        ensures
            os.euid == euid,
            os.group_outcome == Ok::<(), Errno>(()),
            os.user_outcome == Ok::<(), Errno>(()),
            os.events@ == Seq::<IdentityEvent>::empty(),
    {
        ScriptedIdentity { euid, group_outcome: Ok(()), user_outcome: Ok(()), events: Vec::new() }
    }

    /// The same process, but every change of the group id fails with `errno`.
    pub fn failing_group_change(self, errno: Errno) -> (os: Self)
        ensures
            os.euid == self.euid,
            os.group_outcome == Err::<(), Errno>(errno),
            os.user_outcome == self.user_outcome,
            os.events == self.events,
    {
        ScriptedIdentity {
            euid: self.euid,
            group_outcome: Err(errno),
            user_outcome: self.user_outcome,
            events: self.events,
        }
    }

    /// The same process, but every change of the user id fails with `errno`.
    pub fn failing_user_change(self, errno: Errno) -> (os: Self)
        ensures
            os.euid == self.euid,
            os.group_outcome == self.group_outcome,
            os.user_outcome == Err::<(), Errno>(errno),
            os.events == self.events,
    {
        ScriptedIdentity {
            euid: self.euid,
            group_outcome: self.group_outcome,
            user_outcome: Err(errno),
            events: self.events,
        }
    }
}

impl IdentityInterface for ScriptedIdentity {
    open spec fn history(&self) -> Seq<IdentityEvent> {
        self.events@
    }

    fn effective_uid(&mut self) -> (euid: u32)
        ensures
            euid == old(self).euid,
            final(self).euid == old(self).euid,
            final(self).group_outcome == old(self).group_outcome,
            final(self).user_outcome == old(self).user_outcome,
    {
        let euid = self.euid;
        self.events.push(IdentityEvent::EffectiveUid(euid));
        euid
    }

    fn set_group_id(&mut self, gid: u32) -> (outcome: Result<(), Errno>)
        ensures
            outcome == old(self).group_outcome,
            final(self).euid == old(self).euid,
            final(self).group_outcome == old(self).group_outcome,
            final(self).user_outcome == old(self).user_outcome,
    {
        let outcome = self.group_outcome;
        self.events.push(IdentityEvent::SetGroup(gid, outcome));
        outcome
    }

    fn set_user_id(&mut self, uid: u32) -> (outcome: Result<(), Errno>)
        ensures
            outcome == old(self).user_outcome,
            final(self).euid == old(self).euid,
            final(self).group_outcome == old(self).group_outcome,
            final(self).user_outcome == old(self).user_outcome,
    {
        let outcome = self.user_outcome;
        self.events.push(IdentityEvent::SetUser(uid, outcome));
        outcome
    }
}

} // verus!
