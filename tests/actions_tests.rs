use check_vpn::actions::{parse_action, system_call_for, Action, SystemCall};

#[test]
fn parse_action_known_types() {
    assert_eq!(parse_action("reboot", ""), Action::Reboot);
    assert_eq!(
        parse_action("restart-unit", "ssh.service"),
        Action::RestartUnit("ssh.service".to_string())
    );
    assert_eq!(
        parse_action("command", "echo hi"),
        Action::Command("echo hi".to_string())
    );
}

#[test]
fn parse_action_unknown_falls_back_to_command() {
    let a = parse_action("weird", "something");
    assert_eq!(a, Action::Command("something".to_string()));
}

#[test]
fn parse_reboot() {
    let a = parse_action("reboot", "");
    match a {
        Action::Reboot => {}
        _ => panic!("expected Reboot variant"),
    }
}

#[test]
fn parse_restart_unit() {
    let unit = "openvpn.service";
    let a = parse_action("restart-unit", unit);
    match a {
        Action::RestartUnit(s) => assert_eq!(s, unit.to_string()),
        _ => panic!("expected RestartUnit variant"),
    }
}

#[test]
fn parse_command() {
    let cmd = "/usr/bin/true";
    let a = parse_action("command", cmd);
    match a {
        Action::Command(s) => assert_eq!(s, cmd.to_string()),
        _ => panic!("expected Command variant"),
    }
}

#[test]
fn parse_unknown_fallbacks_to_command() {
    let arg = "something";
    let a = parse_action("unknown-thing", arg);
    match a {
        Action::Command(s) => assert_eq!(s, arg.to_string()),
        _ => panic!("expected Command fallback"),
    }
}

#[test]
fn parse_action_is_case_sensitive() {
    assert_eq!(parse_action("Reboot", "x"), Action::Command("x".to_string()));
}

#[test]
fn dry_run_plans_no_system_call() {
    assert_eq!(system_call_for(&Action::Reboot, true), None);
    assert_eq!(system_call_for(&Action::RestartUnit("unit.service".into()), true), None);
    assert_eq!(system_call_for(&Action::Command("echo hi".into()), true), None);
}

#[test]
fn live_run_plans_the_matching_system_call() {
    assert_eq!(system_call_for(&Action::Reboot, false), Some(SystemCall::LogindReboot));
    assert_eq!(
        system_call_for(&Action::RestartUnit("unit.service".into()), false),
        Some(SystemCall::RestartUnit("unit.service".to_string()))
    );
    assert_eq!(
        system_call_for(&Action::Command("echo hi".into()), false),
        Some(SystemCall::Shell("echo hi".to_string()))
    );
}
