//! The invoking user's identity under `sudo`: how it is detected and how the
//! process drops to it.

use crate::decimal::{id_of_text, parse_id};
use crate::identity::{issued_since, IdentityEvent, IdentityInterface, ROOT_UID};
use nix::errno::Errno;
use vstd::prelude::*;

verus! {

/// Name of the environment variable that holds the invoking user's name.
pub const SUDO_USER: &'static str = "SUDO_USER";

/// Name of the environment variable that holds the invoking user's numeric id.
pub const SUDO_UID: &'static str = "SUDO_UID";

/// Name of the environment variable that holds the invoking user's numeric
/// group id.
pub const SUDO_GID: &'static str = "SUDO_GID";

/// What the process environment says of the invoking user: the values of
/// [`SUDO_USER`], [`SUDO_UID`] and [`SUDO_GID`], each `None` where the
/// variable is not set.
#[derive(Debug, PartialEq, Eq)]
pub struct SudoSignals {
    pub user: Option<String>,
    pub uid: Option<String>,
    pub gid: Option<String>,
}

/// The signals as text.
pub struct SudoSignalsView {
    pub user: Option<Seq<char>>,
    pub uid: Option<Seq<char>>,
    pub gid: Option<Seq<char>>,
}

impl SudoSignalsView {
    /// All three signals are present.
    pub open spec fn complete(self) -> bool {
        self.user is Some && self.uid is Some && self.gid is Some
    }

    /// All three signals are present and both ids are well-formed.
    pub open spec fn well_formed(self) -> bool {
        self.complete() && id_of_text(self.uid->0) is Some && id_of_text(self.gid->0) is Some
    }
}

/// The text of a signal, where it is present.
pub open spec fn text_of(value: Option<String>) -> Option<Seq<char>> {
    match value {
        Some(text) => Some(text@),
        None => None,
    }
}

impl View for SudoSignals {
    type V = SudoSignalsView;

    open spec fn view(&self) -> SudoSignalsView {
        SudoSignalsView {
            user: text_of(self.user),
            uid: text_of(self.uid),
            gid: text_of(self.gid),
        }
    }
}

/// The user on whose behalf the process was started under `sudo`.
///
/// A value is only made by [`SudoContext::from_signals`] and
/// [`SudoContext::detect`], cannot be changed afterwards, and is used up by
/// [`SudoContext::drop_privileges`].
#[derive(Debug, PartialEq, Eq)]
pub struct SudoContext {
    user: String,
    uid: u32,
    gid: u32,
}

/// What a context holds, with the name as text.
pub struct SudoContextView {
    /// Name of the invoking user, as given; it is not looked up anywhere.
    pub user: Seq<char>,
    /// User id to drop to.
    pub uid: u32,
    /// Group id to drop to.
    pub gid: u32,
}

impl View for SudoContext {
    type V = SudoContextView;

    closed spec fn view(&self) -> SudoContextView {
        SudoContextView { user: self.user@, uid: self.uid, gid: self.gid }
    }
}

/// The view of a context that may be absent.
pub open spec fn context_view(found: Option<SudoContext>) -> Option<SudoContextView> {
    match found {
        Some(context) => Some(context@),
        None => None,
    }
}

/// The context that an effective user id and the signals amount to: one
/// exists only for the superuser with all three signals present and both ids
/// well-formed, and it holds exactly the values of the signals.
pub open spec fn detected(euid: u32, signals: SudoSignalsView) -> Option<SudoContextView> {
    if euid == ROOT_UID && signals.well_formed() {
        Some(
            SudoContextView {
                user: signals.user->0,
                uid: id_of_text(signals.uid->0)->0,
                gid: id_of_text(signals.gid->0)->0,
            },
        )
    } else {
        None
    }
}

/// What one run of [`SudoContext::detect`] leaves in the history and
/// returns: the effective user id is read once, and the answer decides.
pub open spec fn detect_run(
    signals: SudoSignalsView,
    issued: Seq<IdentityEvent>,
    found: Option<SudoContextView>,
) -> bool {
    &&& issued.len() == 1
    &&& issued[0] matches IdentityEvent::EffectiveUid(euid)
    &&& found == detected(euid, signals)
}

/// The identity-changing operation that an error came from.
#[derive(Debug, Clone, Copy, PartialEq, Eq)]
pub enum IdentityOperation {
    SetGroup,
    SetUser,
}

/// The operating system refused to change the group or the user id. The
/// process may still hold elevated rights: the caller must not go on.
#[derive(Debug, Clone, Copy, PartialEq, Eq)]
pub struct PrivilegeError {
    /// The operation that failed.
    pub operation: IdentityOperation,
    /// The error that the operating system gave.
    pub errno: Errno,
}

impl PrivilegeError {
    /// What the outcome of `operation` means for the drop: it may go on after
    /// a success, and stops with the operating system's error after a failure.
    pub open spec fn checked(operation: IdentityOperation, outcome: Result<(), Errno>) -> Result<
        (),
        PrivilegeError,
    > {
        match outcome {
            Ok(_) => Ok(()),
            Err(errno) => Err(PrivilegeError { operation, errno }),
        }
    }

    /// Turns the outcome of `operation` into the result of the drop so far:
    /// `Ok` after a success, the operating system's error, marked with the
    /// operation it came from, after a failure.
    pub fn check(operation: IdentityOperation, outcome: Result<(), Errno>) -> (result: Result<
        (),
        PrivilegeError,
    >)
        ensures
            result == PrivilegeError::checked(operation, outcome),
            result is Ok <==> outcome is Ok,
    {
        match outcome {
            Ok(_) => Ok(()),
            Err(errno) => Err(PrivilegeError { operation, errno }),
        }
    }
}

/// What one run of [`SudoContext::drop_privileges`] leaves in the history
/// and returns. The group change to `context.gid` comes first. If it fails,
/// nothing follows and its error is returned. If it succeeds, the user
/// change to `context.uid` follows and nothing after it, and its outcome is
/// returned.
pub open spec fn drop_run(
    context: SudoContextView,
    issued: Seq<IdentityEvent>,
    result: Result<(), PrivilegeError>,
) -> bool {
    &&& issued.len() >= 1
    &&& issued[0] matches IdentityEvent::SetGroup(gid, group)
    &&& gid == context.gid
    &&& match group {
        Err(_) => {
            &&& issued.len() == 1
            &&& result == PrivilegeError::checked(IdentityOperation::SetGroup, group)
        },
        Ok(_) => {
            &&& issued.len() == 2
            &&& issued[1] matches IdentityEvent::SetUser(uid, user)
            &&& uid == context.uid
            &&& result == PrivilegeError::checked(IdentityOperation::SetUser, user)
        },
    }
}

/// The run in which both changes succeed.
pub open spec fn successful_drop(context: SudoContextView) -> Seq<IdentityEvent> {
    seq![
        IdentityEvent::SetGroup(context.gid, Ok(())),
        IdentityEvent::SetUser(context.uid, Ok(())),
    ]
}

/// No user change is among `events`.
pub open spec fn no_user_change(events: Seq<IdentityEvent>) -> bool {
    forall|i: int| 0 <= i < events.len() ==> !(#[trigger] events[i] is SetUser)
}

/// Every user change among `events` has a successful group change somewhere
/// before it.
pub open spec fn group_change_precedes_user_change(events: Seq<IdentityEvent>) -> bool {
    forall|j: int|
        0 <= j < events.len() && (#[trigger] events[j]) is SetUser ==> exists|i: int|
            0 <= i < j && (#[trigger] events[i]) matches IdentityEvent::SetGroup(_, Ok(_))
}

impl SudoContext {
    /// Name of the invoking user, as the signal gave it.
    pub fn user(&self) -> (user: &str)
        ensures
            user@ == self@.user,
    {
        self.user.as_str()
    }

    /// User id to drop to.
    pub fn uid(&self) -> (uid: u32)
        ensures
            uid == self@.uid,
    {
        self.uid
    }

    /// Group id to drop to.
    pub fn gid(&self) -> (gid: u32)
        ensures
            gid == self@.gid,
    {
        self.gid
    }

    /// Decides from the effective user id and the signals whether the
    /// process runs under `sudo` on behalf of another user.
    ///
    /// A context is returned only for the superuser, with all three signals
    /// present and both ids well-formed; it then holds the values of the
    /// signals. Anything else, a malformed id included, gives `None`: a
    /// superuser without these signals is a plain root login, not an error.
    pub fn from_signals(euid: u32, signals: SudoSignals) -> (found: Option<SudoContext>)
        ensures
            context_view(found) == detected(euid, signals@),
            euid != ROOT_UID ==> found is None,
            !signals@.complete() ==> found is None,
            signals@.complete() && !signals@.well_formed() ==> found is None,
            euid == ROOT_UID && signals@.well_formed() ==> {
                &&& found is Some
                &&& found->0@.user == signals@.user->0
                &&& Some(found->0@.uid) == id_of_text(signals@.uid->0)
                &&& Some(found->0@.gid) == id_of_text(signals@.gid->0)
            },
    {
        if euid != ROOT_UID {
            return None;
        }
        let SudoSignals { user, uid, gid } = signals;
        let user = match user {
            Some(user) => user,
            None => {
                return None;
            },
        };
        let uid = match uid {
            Some(text) => match parse_id(text.as_str()) {
                Some(uid) => uid,
                None => {
                    return None;
                },
            },
            None => {
                return None;
            },
        };
        let gid = match gid {
            Some(text) => match parse_id(text.as_str()) {
                Some(gid) => gid,
                None => {
                    return None;
                },
            },
            None => {
                return None;
            },
        };
        Some(SudoContext { user, uid, gid })
    }

    /// Detects whether the process runs under `sudo` on behalf of another
    /// user: reads the effective user id through `os`, once, and decides from
    /// it and the signals as [`SudoContext::from_signals`] does.
    ///
    /// The effective user id is whatever `os` answers; it is the one recorded
    /// in the history.
    pub fn detect<I: IdentityInterface>(os: &mut I, signals: SudoSignals) -> (found: Option<
        SudoContext,
    >)
        ensures
            old(os).history().is_prefix_of(final(os).history()),
            detect_run(
                signals@,
                issued_since(old(os).history(), final(os).history()),
                context_view(found),
            ),
            final(os).history().last() != IdentityEvent::EffectiveUid(ROOT_UID) ==> found is None,
            !signals@.complete() ==> found is None,
            signals@.complete() && !signals@.well_formed() ==> found is None,
            final(os).history().last() == IdentityEvent::EffectiveUid(ROOT_UID)
                && signals@.well_formed() ==> {
                &&& found is Some
                &&& found->0@.user == signals@.user->0
                &&& Some(found->0@.uid) == id_of_text(signals@.uid->0)
                &&& Some(found->0@.gid) == id_of_text(signals@.gid->0)
            },
    {
        let euid = os.effective_uid();
        assert(issued_since(old(os).history(), os.history()) =~= seq![
            IdentityEvent::EffectiveUid(euid),
        ]);
        SudoContext::from_signals(euid, signals)
    }

    /// Drops the process to the invoking user: changes the group id first,
    /// and the user id only once the group id was changed.
    ///
    /// The order is essential: once the user id is no longer the superuser's,
    /// the group id can no longer be changed. On `Err` the process may still
    /// hold elevated rights; nothing was retried or undone, and the caller
    /// must not go on.
    ///
    /// Whether an operation succeeds is up to `os`. Its outcome is the one
    /// recorded in the history, and the result follows from it.
    pub fn drop_privileges<I: IdentityInterface>(self, os: &mut I) -> (result: Result<
        (),
        PrivilegeError,
    >)
        ensures
            old(os).history().is_prefix_of(final(os).history()),
            drop_run(self@, issued_since(old(os).history(), final(os).history()), result),
            group_change_precedes_user_change(issued_since(old(os).history(), final(os).history())),
            issued_since(old(os).history(), final(os).history())[0] matches IdentityEvent::SetGroup(
                _,
                Err(_),
            ) ==> result is Err && no_user_change(
                issued_since(old(os).history(), final(os).history()),
            ),
            result is Ok <==> issued_since(old(os).history(), final(os).history())
                == successful_drop(self@),
    {
        let ghost before = os.history();
        let group = os.set_group_id(self.gid);
        let ghost after_group = issued_since(before, os.history());
        assert(after_group =~= seq![IdentityEvent::SetGroup(self.gid, group)]);
        if let Err(error) = PrivilegeError::check(IdentityOperation::SetGroup, group) {
            return Err(error);
        }
        let user = os.set_user_id(self.uid);
        proof {
            let issued = issued_since(before, os.history());
            assert(issued =~= after_group.push(IdentityEvent::SetUser(self.uid, user)));
            assert(issued[0] matches IdentityEvent::SetGroup(_, Ok(_)));
            assert(group->Ok_0 == ());
            if user is Ok {
                assert(user->Ok_0 == ());
                assert(issued =~= successful_drop(self@));
            } else {
                assert(issued[1] != successful_drop(self@)[1]);
            }
        }
        PrivilegeError::check(IdentityOperation::SetUser, user)
    }
}

} // verus!
