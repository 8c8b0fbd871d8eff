use spookylock::check_minus_one_errno;
use spookylock::prompt::{
    auth_service, interface_args, locked_palette, InterfaceProgram, LockPrompt, Options,
    PromptAction, PromptEvent, ShadowColour,
};
use spookylock::session::{SessionAction, Stage, VtSession};
use spookylock::session::SessionAction::{Console, Finished, Run};
use spookylock::stream_switch::{AcquireStep, Acquisition, FdCall};
use spookylock::tty::{TtyCall, TtySetup, TtyStep};
use spookylock::{Vt, VtNumber, VtRequest};

#[test]
fn minus_one_is_an_error() {
    assert!(check_minus_one_errno(-1).is_err());
}

#[test]
fn other_values_pass_through() {
    assert_eq!(check_minus_one_errno(0).unwrap(), 0);
    assert_eq!(check_minus_one_errno(7).unwrap(), 7);
    assert_eq!(check_minus_one_errno(-2).unwrap(), -2);
}

#[test]
fn tty_paths_are_decimal() {
    assert_eq!(Vt::with_number(VtNumber(7)).tty_path(), "/dev/tty7");
    assert_eq!(Vt::with_number(VtNumber(0)).tty_path(), "/dev/tty0");
    assert_eq!(Vt::with_number(VtNumber(10)).tty_path(), "/dev/tty10");
    assert_eq!(Vt::with_number(VtNumber(63)).tty_path(), "/dev/tty63");
    assert_eq!(Vt::allocate_with_number(VtNumber(-1)).tty_path(), "/dev/tty-1");
    assert_eq!(Vt::with_number(VtNumber(i32::MAX)).tty_path(), "/dev/tty2147483647");
    assert_eq!(Vt::with_number(VtNumber(i32::MIN)).tty_path(), "/dev/tty-2147483648");
}

#[test]
fn active_numbers_convert() {
    assert_eq!(VtNumber::from_active(3), VtNumber(3));
    assert_eq!(VtNumber::from_active(u16::MAX), VtNumber(65535));
}

#[test]
fn request_codes_follow_linux() {
    assert_eq!(VtRequest::OpenQuery.code(), 0x5600);
    assert_eq!(VtRequest::GetState.code(), 0x5603);
    assert_eq!(VtRequest::Activate(VtNumber(2)).code(), 0x5606);
    assert_eq!(VtRequest::WaitActive(VtNumber(2)).code(), 0x5607);
    assert_eq!(VtRequest::Disallocate(VtNumber(2)).code(), 0x5608);
    assert_eq!(VtRequest::LockSwitch.code(), 0x560B);
    assert_eq!(VtRequest::UnlockSwitch.code(), 0x560C);
}

#[test]
fn request_arguments() {
    assert_eq!(VtRequest::OpenQuery.argument(), None);
    assert_eq!(VtRequest::GetState.argument(), None);
    assert_eq!(VtRequest::Activate(VtNumber(8)).argument(), Some(8));
    assert_eq!(VtRequest::WaitActive(VtNumber(9)).argument(), Some(9));
    assert_eq!(VtRequest::Disallocate(VtNumber(4)).argument(), Some(4));
    assert_eq!(VtRequest::LockSwitch.argument(), Some(1));
    assert_eq!(VtRequest::UnlockSwitch.argument(), Some(1));
}

#[test]
fn only_allocated_terminals_are_released() {
    assert_eq!(
        Vt::allocate_with_number(VtNumber(8)).release_request(),
        Some(VtRequest::Disallocate(VtNumber(8)))
    );
    assert_eq!(Vt::with_number(VtNumber(2)).release_request(), None);
}

fn drive(locked: bool, free: i32, active: i32) -> Vec<SessionAction> {
    let mut session = VtSession::new(locked);
    let mut actions = Vec::new();
    loop {
        let action = session.next_action();
        actions.push(action);
        if action == SessionAction::Finished {
            break;
        }
        let reply = match action {
            SessionAction::Console(VtRequest::OpenQuery) => VtNumber(free),
            SessionAction::Console(VtRequest::GetState) => VtNumber::from_active(active as u16),
            _ => VtNumber(-99),
        };
        session.advance(reply);
    }
    assert!(session.is_finished());
    assert_eq!(session.stage, Stage::Done);
    actions
}

#[test]
fn locked_session_switches_locks_and_restores() {
    assert_eq!(
        drive(true, 8, 2),
        vec![
            Console(VtRequest::OpenQuery),
            Console(VtRequest::GetState),
            Console(VtRequest::Activate(VtNumber(8))),
            Console(VtRequest::WaitActive(VtNumber(8))),
            Console(VtRequest::LockSwitch),
            Run(VtNumber(8)),
            Console(VtRequest::UnlockSwitch),
            Console(VtRequest::Activate(VtNumber(2))),
            Console(VtRequest::WaitActive(VtNumber(2))),
            Console(VtRequest::Disallocate(VtNumber(8))),
            Finished,
        ]
    );
}

#[test]
fn unlocked_session_never_locks() {
    assert_eq!(
        drive(false, 5, 1),
        vec![
            Console(VtRequest::OpenQuery),
            Console(VtRequest::GetState),
            Console(VtRequest::Activate(VtNumber(5))),
            Console(VtRequest::WaitActive(VtNumber(5))),
            Run(VtNumber(5)),
            Console(VtRequest::Activate(VtNumber(1))),
            Console(VtRequest::WaitActive(VtNumber(1))),
            Console(VtRequest::Disallocate(VtNumber(5))),
            Finished,
        ]
    );
}

#[test]
fn session_runs_on_the_tty_of_the_free_terminal() {
    let mut session = VtSession::new(true);
    session.advance(VtNumber(12));
    assert_eq!(session.target.tty_path(), "/dev/tty12");
    assert!(session.target.allocated);
    session.advance(VtNumber(3));
    assert!(!session.current.allocated);
    assert_eq!(session.current.number, VtNumber(3));
}

#[test]
fn stream_switch_saves_then_redirects() {
    let acq = Acquisition::new(5, 1);
    assert_eq!(acq.next_call(), FdCall::Dup { fd: 1 });
    let acq = match acq.advance::<std::io::Stdout>(10).unwrap() {
        AcquireStep::Continue(a) => a,
        AcquireStep::Acquired(_) => panic!("redirected before saving"),
    };
    assert_eq!(acq.saved, Some(10));
    assert_eq!(acq.next_call(), FdCall::Dup2 { src: 5, dst: 1 });
    let guard = match acq.advance::<std::io::Stdout>(1).unwrap() {
        AcquireStep::Acquired(g) => g,
        AcquireStep::Continue(_) => panic!("not redirected"),
    };
    assert_eq!(guard.old_fd(), 1);
    assert_eq!(guard.temp_fd(), 10);
    assert_eq!(guard.restore_call(), FdCall::Dup2 { src: 10, dst: 1 });
}

#[test]
fn stream_switch_failures_stop_the_acquisition() {
    let acq = Acquisition::new(5, 1);
    assert!(acq.advance::<std::io::Stdout>(-1).is_err());
    let acq = Acquisition { new_fd: 5, old_fd: 1, saved: Some(10) };
    assert!(acq.advance::<std::io::Stdout>(-1).is_err());
}

#[test]
fn strict_tty_setup_checks_setsid() {
    let setup = TtySetup::new(4, true);
    assert_eq!(setup.next_call(), TtyCall::NewSession);
    assert!(setup.advance(-1).is_err());
    let next = match setup.advance(33).unwrap() {
        TtyStep::Continue(s) => s,
        TtyStep::Done(_) => panic!("claimed before the session"),
    };
    assert_eq!(next.next_call(), TtyCall::SetControllingTty { fd: 4 });
    assert_eq!(next.advance(0).unwrap(), TtyStep::Done(0));
    assert!(next.advance(-1).is_err());
}

#[test]
fn lenient_tty_setup_ignores_setsid() {
    let setup = TtySetup::new(4, false);
    match setup.advance(-1).unwrap() {
        TtyStep::Continue(s) => {
            assert_eq!(s.next_call(), TtyCall::SetControllingTty { fd: 4 });
            assert!(s.advance(-1).is_err());
            assert_eq!(s.advance(0).unwrap(), TtyStep::Done(0));
        }
        TtyStep::Done(_) => panic!("claimed before the session"),
    }
}

#[test]
fn interface_is_invoked_with_user() {
    assert_eq!(interface_args("alice"), vec!["--user".to_string(), "alice".to_string()]);
}

#[test]
fn default_options_name_the_interface() {
    let o = Options::default();
    assert!(!o.relative_interface);
    assert_eq!(o.interface_path, "spookylock-interface");
    match o.interface_program() {
        InterfaceProgram::Use(p) => assert_eq!(p, "spookylock-interface"),
        InterfaceProgram::Resolve(_) => panic!("a program name is not resolved"),
    }
}

#[test]
fn relative_interface_is_resolved() {
    let o = Options { relative_interface: true, interface_path: "./bin/iface".to_string() };
    match o.interface_program() {
        InterfaceProgram::Resolve(p) => assert_eq!(p, "./bin/iface"),
        InterfaceProgram::Use(_) => panic!("a relative path is resolved"),
    }
}

#[test]
fn submitting_asks_pam() {
    let prompt = LockPrompt::new("bob".to_string());
    match prompt.handle(PromptEvent::Submit("hunter2".to_string())) {
        PromptAction::Authenticate { service, user, password } => {
            assert_eq!(service, "system-auth");
            assert_eq!(user, "bob");
            assert_eq!(password, "hunter2");
        }
        _ => panic!("a submitted password is checked"),
    }
    assert_eq!(auth_service(), "system-auth");
}

#[test]
fn only_a_right_password_unlocks() {
    let prompt = LockPrompt::new("bob".to_string());
    assert!(matches!(prompt.handle(PromptEvent::AuthResult(true)), PromptAction::Quit));
    assert!(matches!(prompt.handle(PromptEvent::AuthResult(false)), PromptAction::ClearPassword));
    assert!(matches!(prompt.handle(PromptEvent::ClearLine), PromptAction::ClearPassword));
    assert!(matches!(prompt.handle(PromptEvent::AuthUnavailable), PromptAction::Ignore));
}

#[test]
fn lock_palette_inverts_colours() {
    let p = locked_palette('b', 'k', ShadowColour::Primary);
    assert_eq!((p.background, p.shadow, p.primary, p.secondary), ('k', 'k', 'b', 'k'));
    let p = locked_palette('b', 'k', ShadowColour::Background);
    assert_eq!((p.background, p.shadow, p.primary, p.secondary), ('k', 'b', 'b', 'k'));
}

#[test]
fn session_on_given_terminal() {
    let mut session = VtSession::on_vt(&Vt::allocate_with_number(VtNumber(4)), true);
    let mut actions = Vec::new();
    loop {
        let action = session.next_action();
        actions.push(action);
        if action == Finished {
            break;
        }
        session.advance(VtNumber(1));
    }
    assert_eq!(
        actions,
        vec![
            Console(VtRequest::GetState),
            Console(VtRequest::Activate(VtNumber(4))),
            Console(VtRequest::WaitActive(VtNumber(4))),
            Console(VtRequest::LockSwitch),
            Run(VtNumber(4)),
            Console(VtRequest::UnlockSwitch),
            Console(VtRequest::Activate(VtNumber(1))),
            Console(VtRequest::WaitActive(VtNumber(1))),
            Finished,
        ]
    );
}
