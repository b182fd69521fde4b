//! The lifecycle controller: state parsing and the composed attribute
//! writes.

use pru_rproc_user::remoteproc::{RemoteProc, RemoteProcError, RemoteProcState, trim_str};

#[test]
fn state_names_parse_after_trimming() {
    assert_eq!(RemoteProcState::from_str("offline\n"), RemoteProcState::Offline);
    assert_eq!(RemoteProcState::from_str("booting"), RemoteProcState::Booting);
    assert_eq!(RemoteProcState::from_str("  online  "), RemoteProcState::Online);
    assert_eq!(RemoteProcState::from_str("suspended\r\n"), RemoteProcState::Suspended);
}

#[test]
fn unknown_state_text_is_kept_trimmed() {
    match RemoteProcState::from_str(" resetting \n") {
        RemoteProcState::Unknown(s) => assert_eq!(s.as_str(), "resetting"),
        other => panic!("expected an unknown state, got {:?}", other),
    }
}

#[test]
fn trim_strips_both_ends_only() {
    assert_eq!(trim_str("  a b \n"), "a b");
    assert_eq!(trim_str(""), "");
    assert_eq!(trim_str(" \t\r\n"), "");
    assert_eq!(trim_str("solid"), "solid");
}

#[test]
fn open_builds_the_controller_path_or_reports_missing() {
    let p = RemoteProc::open("pruss-core0", true).unwrap();
    assert_eq!(p.path.as_str(), "/sys/class/remoteproc/pruss-core0");
    match RemoteProc::open("nope", false) {
        Err(RemoteProcError::Io(2)) => {}
        other => panic!("expected the missing-directory failure, got {:?}", other),
    }
}

#[test]
fn state_parses_the_read_or_keeps_its_failure() {
    let p = RemoteProc::open("pruss-core0", true).unwrap();
    assert_eq!(p.state(Ok(String::from("online\n"))), Ok(RemoteProcState::Online));
    assert_eq!(p.state(Err(13)), Err(RemoteProcError::Io(13)));
}

#[test]
fn lifecycle_writes_target_the_right_attributes() {
    let p = RemoteProc::open("remoteproc0", true).unwrap();
    let w = p.start();
    assert_eq!(w.path.as_str(), "/sys/class/remoteproc/remoteproc0/state");
    assert_eq!(w.data.as_str(), "start");
    let w = p.stop();
    assert_eq!(w.path.as_str(), "/sys/class/remoteproc/remoteproc0/state");
    assert_eq!(w.data.as_str(), "stop");
    let w = p.remove();
    assert_eq!(w.path.as_str(), "/sys/class/remoteproc/remoteproc0/state");
    assert_eq!(w.data.as_str(), "remove");
    let w = p.set_firmware("am335x-pru0-fw");
    assert_eq!(w.path.as_str(), "/sys/class/remoteproc/remoteproc0/firmware");
    assert_eq!(w.data.as_str(), "am335x-pru0-fw");
}
