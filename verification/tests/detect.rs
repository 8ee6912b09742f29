use sudo_privileges::{
    IdentityEvent, ScriptedIdentity, SudoContext, SudoSignals, SystemIdentity, ROOT_UID, SUDO_GID,
    SUDO_UID, SUDO_USER,
};

fn parts(found: Option<SudoContext>) -> Option<(String, u32, u32)> {
    found.map(|context| (String::from(context.user()), context.uid(), context.gid()))
}

fn some(user: &str, uid: u32, gid: u32) -> Option<(String, u32, u32)> {
    Some((String::from(user), uid, gid))
}

fn signals(user: Option<&str>, uid: Option<&str>, gid: Option<&str>) -> SudoSignals {
    SudoSignals {
        user: user.map(String::from),
        uid: uid.map(String::from),
        gid: gid.map(String::from),
    }
}

#[test]
fn variable_names_are_those_of_sudo() {
    assert_eq!(SUDO_USER, "SUDO_USER");
    assert_eq!(SUDO_UID, "SUDO_UID");
    assert_eq!(SUDO_GID, "SUDO_GID");
    assert_eq!(ROOT_UID, 0);
}

#[test]
fn nothing_is_detected_unless_superuser() {
    for euid in [1u32, 2, 999, 1000, 1001, 65534, u32::MAX] {
        let all = signals(Some("alice"), Some("1000"), Some("1000"));
        assert_eq!(SudoContext::from_signals(euid, all), None);
        let none = signals(None, None, None);
        assert_eq!(SudoContext::from_signals(euid, none), None);
        let odd = signals(Some(""), Some("notanumber"), None);
        assert_eq!(SudoContext::from_signals(euid, odd), None);
    }
}

#[test]
fn nothing_is_detected_when_a_signal_is_absent() {
    let present = (Some("alice"), Some("1000"), Some("1000"));
    for mask in 0..7u8 {
        let user = if mask & 1 != 0 { present.0 } else { None };
        let uid = if mask & 2 != 0 { present.1 } else { None };
        let gid = if mask & 4 != 0 { present.2 } else { None };
        assert_eq!(SudoContext::from_signals(0, signals(user, uid, gid)), None, "mask {}", mask);
    }
}

#[test]
fn well_formed_signals_give_exactly_their_values() {
    let found = SudoContext::from_signals(0, signals(Some("alice"), Some("1000"), Some("1000")));
    assert_eq!(parts(found), some("alice", 1000, 1000));

    let found = SudoContext::from_signals(0, signals(Some("carol"), Some("1002"), Some("100")));
    assert_eq!(parts(found), some("carol", 1002, 100));

    let found =
        SudoContext::from_signals(0, signals(Some("max"), Some("4294967295"), Some("+0042")));
    assert_eq!(parts(found), some("max", u32::MAX, 42));
}

#[test]
fn user_name_is_taken_as_given() {
    for name in ["", " ", "root", "no such user", "a\nb", "\u{e9}milie", "0"] {
        let found = SudoContext::from_signals(0, signals(Some(name), Some("1000"), Some("1000")));
        assert_eq!(parts(found), some(name, 1000, 1000));
    }
}

#[test]
fn malformed_uid_gives_nothing() {
    for uid in ["notanumber", "", "-1", "1000 ", "4294967296", "1.0", "+"] {
        let found = SudoContext::from_signals(0, signals(Some("alice"), Some(uid), Some("1000")));
        assert_eq!(found, None, "uid {:?}", uid);
    }
}

#[test]
fn malformed_gid_gives_nothing() {
    for gid in ["notanumber", "", "-1", " 1000", "4294967296", "0x3e8", "+"] {
        let found = SudoContext::from_signals(0, signals(Some("alice"), Some("1000"), Some(gid)));
        assert_eq!(found, None, "gid {:?}", gid);
    }
}

#[test]
fn superuser_ids_in_the_signals_are_accepted() {
    let found = SudoContext::from_signals(0, signals(Some("root"), Some("0"), Some("0")));
    assert_eq!(parts(found), some("root", 0, 0));
}

#[test]
fn detect_reads_the_effective_uid_once() {
    let mut os = ScriptedIdentity::new(0);
    let found = SudoContext::detect(&mut os, signals(Some("bob"), Some("1001"), Some("1001")));
    assert_eq!(parts(found), some("bob", 1001, 1001));
    assert_eq!(os.events, vec![IdentityEvent::EffectiveUid(0)]);

    let mut os = ScriptedIdentity::new(1001);
    let found = SudoContext::detect(&mut os, signals(Some("bob"), Some("1001"), Some("1001")));
    assert_eq!(found, None);
    assert_eq!(os.events, vec![IdentityEvent::EffectiveUid(1001)]);
}

#[test]
fn detect_as_superuser_without_signals_yields_nothing() {
    let mut os = ScriptedIdentity::new(0);
    let found = SudoContext::detect(&mut os, signals(None, None, None));
    assert_eq!(found, None);
    assert_eq!(os.events, vec![IdentityEvent::EffectiveUid(0)]);
}

#[test]
fn detect_with_malformed_uid_yields_nothing() {
    let mut os = ScriptedIdentity::new(0);
    let found =
        SudoContext::detect(&mut os, signals(Some("alice"), Some("notanumber"), Some("1000")));
    assert_eq!(found, None);
    assert_eq!(os.events, vec![IdentityEvent::EffectiveUid(0)]);
}

#[test]
fn detect_changes_no_identity() {
    let mut os = ScriptedIdentity::new(0);
    let _ = SudoContext::detect(&mut os, signals(Some("alice"), Some("1000"), Some("1000")));
    let _ = SudoContext::detect(&mut os, signals(None, None, None));
    assert_eq!(os.events, vec![IdentityEvent::EffectiveUid(0), IdentityEvent::EffectiveUid(0)]);
    assert_eq!(os.euid, 0);
}

#[test]
fn context_hands_out_what_it_holds() {
    let found = SudoContext::from_signals(0, signals(Some("erin"), Some("1234"), Some("5678")));
    let context = found.unwrap();
    assert_eq!(context.user(), "erin");
    assert_eq!(context.uid(), 1234);
    assert_eq!(context.gid(), 5678);
}

#[test]
fn detect_on_the_running_process_follows_its_effective_uid() {
    let mut os = SystemIdentity::new();
    let found = SudoContext::detect(&mut os, signals(Some("frank"), Some("1005"), Some("1006")));
    if nix::unistd::geteuid().is_root() {
        assert_eq!(parts(found), some("frank", 1005, 1006));
    } else {
        assert_eq!(found, None);
    }
}
