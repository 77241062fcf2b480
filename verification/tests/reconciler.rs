use courtyard::reconciler::{
    apply_ollama_models_dir_and_restart, default_ollama_models_dir, get_ollama_models_dir,
    ollama_models_from_daemon_pid, plan_daemon_switch, resolve_ollama_models_dir,
    resolve_ollama_models_dir_for_export, restart_step, running_ollama_daemon_pids,
    running_ollama_models_dir, CommandResult, DaemonSwitch, RestartAction, RestartInput,
    RestartState,
};

fn ok(stdout: &str) -> CommandResult {
    CommandResult::Finished { success: true, stdout: stdout.to_string(), stderr: String::new() }
}

fn failed(stdout: &str, stderr: &str) -> CommandResult {
    CommandResult::Finished { success: false, stdout: stdout.to_string(), stderr: stderr.to_string() }
}

fn some(s: &str) -> Option<String> {
    Some(s.to_string())
}

#[test]
fn the_running_daemon_outranks_shell_and_settings() {
    let r = resolve_ollama_models_dir(some("/A"), some("/B"), some("/C"), "/D".to_string());
    assert_eq!(r, "/A");
}

#[test]
fn without_a_daemon_the_shell_outranks_the_settings_and_the_default() {
    assert_eq!(resolve_ollama_models_dir(None, some("/B"), some("/C"), "/D".to_string()), "/B");
    assert_eq!(resolve_ollama_models_dir(None, None, some("/C"), "/D".to_string()), "/C");
    assert_eq!(resolve_ollama_models_dir(None, None, None, "/D".to_string()), "/D");
    assert_eq!(resolve_ollama_models_dir(None, some("/B"), None, "/D".to_string()), "/B");
}

#[test]
fn the_whole_chain_from_the_output_of_the_commands() {
    let default_dir = default_ollama_models_dir(Some("/Users/u"));
    assert_eq!(default_dir, "/Users/u/.ollama/models");
    let pids = running_ollama_daemon_pids(&ok("501\n 777 \n"));
    assert_eq!(pids, vec!["501", "777"]);
    let listings = vec![
        ok("/usr/bin/ollama serve HOME=/Users/u PATH=/bin"),
        ok("/usr/bin/ollama serve OLLAMA_MODELS=/Volumes/big/models HOME=/Users/u"),
    ];
    let daemon = running_ollama_models_dir(&pids, &listings, &default_dir);
    assert_eq!(daemon.as_deref(), Some("/Volumes/big/models"));
    let shell = get_ollama_models_dir(&ok("/from/shell\n"));
    assert_eq!(shell.as_deref(), Some("/from/shell"));
    let resolved = resolve_ollama_models_dir(daemon, shell, some("/from/config"), default_dir);
    assert_eq!(resolved, "/Volumes/big/models");
}

#[test]
fn a_daemon_started_without_the_variable_uses_the_default() {
    let pids = vec!["501".to_string()];
    let listings = vec![ok("/usr/bin/ollama serve HOME=/Users/u")];
    let daemon = running_ollama_models_dir(&pids, &listings, "/Users/u/.ollama/models");
    assert_eq!(daemon.as_deref(), Some("/Users/u/.ollama/models"));
    let resolved = resolve_ollama_models_dir(daemon, some("/B"), some("/C"), "/Users/u/.ollama/models".to_string());
    assert_eq!(resolved, "/Users/u/.ollama/models");
    let unlisted = running_ollama_models_dir(&pids, &vec![failed("", "no such process")], "/d");
    assert_eq!(unlisted.as_deref(), Some("/d"));
}

#[test]
fn no_process_means_no_running_daemon() {
    assert!(running_ollama_daemon_pids(&ok("")).is_empty());
    assert!(running_ollama_daemon_pids(&ok("\n \n")).is_empty());
    assert!(running_ollama_daemon_pids(&failed("501\n", "")).is_empty());
    assert!(running_ollama_daemon_pids(&CommandResult::Unavailable("no pgrep".to_string())).is_empty());
    let none = running_ollama_models_dir(&vec![], &vec![ok("OLLAMA_MODELS=/x")], "/d");
    assert_eq!(none, None);
}

#[test]
fn the_directory_is_read_from_the_environment_of_the_process() {
    assert_eq!(ollama_models_from_daemon_pid(&ok("ollama serve OLLAMA_MODELS=/m X=1")).as_deref(), Some("/m"));
    assert_eq!(ollama_models_from_daemon_pid(&ok("OLLAMA_MODELS=/first OLLAMA_MODELS=/second")).as_deref(), Some("/first"));
    assert_eq!(ollama_models_from_daemon_pid(&ok("OLLAMA_MODELS= OLLAMA_MODELS=/second")), None);
    assert_eq!(ollama_models_from_daemon_pid(&ok("XOLLAMA_MODELS=/m ollama")), None);
    assert_eq!(ollama_models_from_daemon_pid(&ok("")), None);
    assert_eq!(ollama_models_from_daemon_pid(&failed("OLLAMA_MODELS=/m", "")), None);
    assert_eq!(ollama_models_from_daemon_pid(&CommandResult::Unavailable("x".to_string())), None);
}

#[test]
fn the_shell_value_is_trimmed_and_may_be_missing() {
    assert_eq!(get_ollama_models_dir(&ok("  /m  \n")).as_deref(), Some("/m"));
    assert_eq!(get_ollama_models_dir(&ok("")), None);
    assert_eq!(get_ollama_models_dir(&ok(" \n")), None);
    assert_eq!(get_ollama_models_dir(&failed("/m", "err")).as_deref(), Some("/m"));
    assert_eq!(get_ollama_models_dir(&CommandResult::Unavailable("no zsh".to_string())), None);
}

#[test]
fn the_default_directory_lies_below_home() {
    assert_eq!(default_ollama_models_dir(Some("/home/u")), "/home/u/.ollama/models");
    assert_eq!(default_ollama_models_dir(None), "./.ollama/models");
}

#[test]
fn the_daemon_is_switched_only_when_it_serves_another_directory() {
    assert!(matches!(plan_daemon_switch("/a", "/a", "/d"), DaemonSwitch::Keep));
    assert!(matches!(plan_daemon_switch("/a", "/d", "/d"), DaemonSwitch::Reset));
    match plan_daemon_switch("/a", "/b", "/d") {
        DaemonSwitch::Point(p) => assert_eq!(p, "/b"),
        _ => panic!("the variable should be set"),
    }
    assert!(matches!(plan_daemon_switch("/d", "/d", "/d"), DaemonSwitch::Keep));
}

#[test]
fn an_export_falls_back_to_the_default_directory() {
    let t = resolve_ollama_models_dir_for_export(some("/custom"), true, "/d".to_string());
    assert_eq!(t.dir, "/custom");
    assert_eq!(t.unusable, None);
    let u = resolve_ollama_models_dir_for_export(some("/custom"), false, "/d".to_string());
    assert_eq!(u.dir, "/d");
    assert_eq!(u.unusable.as_deref(), Some("/custom"));
    let v = resolve_ollama_models_dir_for_export(None, false, "/d".to_string());
    assert_eq!(v.dir, "/d");
    assert_eq!(v.unusable, None);
}

fn kinds(actions: &[RestartAction]) -> Vec<String> {
    actions
        .iter()
        .map(|a| match a {
            RestartAction::SetOverride(d) => format!("set {}", d),
            RestartAction::ClearOverride => "clear".to_string(),
            RestartAction::Quit => "quit".to_string(),
            RestartAction::KillServers => "kill".to_string(),
            RestartAction::Sleep(ms) => format!("sleep {}", ms),
            RestartAction::ProbePids => "probe".to_string(),
            RestartAction::Relaunch => "relaunch".to_string(),
        })
        .collect()
}

#[test]
fn a_restart_that_goes_well() {
    let (s, a) = apply_ollama_models_dir_and_restart(Some("/m"));
    assert!(matches!(s, RestartState::Writing));
    assert_eq!(kinds(&a), vec!["set /m"]);
    let (s, a) = restart_step(s, RestartInput::Wrote(ok("")));
    assert!(matches!(s, RestartState::Stopping(0)));
    assert_eq!(kinds(&a), vec!["quit", "kill", "sleep 300", "probe"]);
    let (s, a) = restart_step(s, RestartInput::Pids(vec!["501".to_string()]));
    assert!(matches!(s, RestartState::Stopping(300)));
    assert_eq!(kinds(&a), vec!["sleep 300", "probe"]);
    let (s, a) = restart_step(s, RestartInput::Pids(vec![]));
    assert!(matches!(s, RestartState::Relaunching));
    assert_eq!(kinds(&a), vec!["relaunch"]);
    let (s, a) = restart_step(s, RestartInput::Relaunched(ok("")));
    assert!(matches!(s, RestartState::Starting(0)));
    assert_eq!(kinds(&a), vec!["sleep 500", "probe"]);
    let (s, a) = restart_step(s, RestartInput::Pids(vec![]));
    assert!(matches!(s, RestartState::Starting(500)));
    assert_eq!(kinds(&a), vec!["sleep 500", "probe"]);
    let (s, a) = restart_step(s, RestartInput::Pids(vec!["900".to_string()]));
    assert!(matches!(s, RestartState::Restarted));
    assert!(a.is_empty());
    let (s, a) = restart_step(s, RestartInput::Pids(vec![]));
    assert!(matches!(s, RestartState::Restarted));
    assert!(a.is_empty());
}

#[test]
fn clearing_the_variable_starts_the_same_way() {
    let (s, a) = apply_ollama_models_dir_and_restart(None);
    assert!(matches!(s, RestartState::Writing));
    assert_eq!(kinds(&a), vec!["clear"]);
}

#[test]
fn the_waits_are_bounded() {
    let (s, _) = apply_ollama_models_dir_and_restart(None);
    let (mut s, _) = restart_step(s, RestartInput::Wrote(ok("")));
    let mut looks = 0;
    while matches!(s, RestartState::Stopping(_)) {
        let (next, _) = restart_step(s, RestartInput::Pids(vec!["501".to_string()]));
        s = next;
        looks += 1;
        assert!(looks <= 14);
    }
    assert_eq!(looks, 14);
    assert!(matches!(s, RestartState::Relaunching));
    let (mut s, _) = restart_step(s, RestartInput::Relaunched(ok("")));
    let mut looks = 0;
    while matches!(s, RestartState::Starting(_)) {
        let (next, _) = restart_step(s, RestartInput::Pids(vec![]));
        s = next;
        looks += 1;
        assert!(looks <= 12);
    }
    assert_eq!(looks, 12);
    assert!(matches!(s, RestartState::Restarted));
}

#[test]
fn a_command_that_fails_fails_the_restart() {
    let (s, _) = apply_ollama_models_dir_and_restart(Some("/m"));
    let (s, a) = restart_step(s, RestartInput::Wrote(failed(" out ", " not permitted \n")));
    match &s {
        RestartState::Failed(m) => assert_eq!(m, "launchctl error: not permitted"),
        _ => panic!("the restart should have failed"),
    }
    assert!(a.is_empty());
    let (s, _) = restart_step(RestartState::Writing, RestartInput::Wrote(failed(" only out ", " ")));
    match &s {
        RestartState::Failed(m) => assert_eq!(m, "launchctl error: only out"),
        _ => panic!("the restart should have failed"),
    }
    let (s, _) = restart_step(
        RestartState::Writing,
        RestartInput::Wrote(CommandResult::Unavailable("No such file".to_string())),
    );
    match &s {
        RestartState::Failed(m) => assert_eq!(m, "launchctl failed: No such file"),
        _ => panic!("the restart should have failed"),
    }
    let (s, _) = restart_step(RestartState::Relaunching, RestartInput::Relaunched(failed("", "Unable to find application")));
    match &s {
        RestartState::Failed(m) => assert_eq!(m, "Failed to open Ollama app: Unable to find application"),
        _ => panic!("the restart should have failed"),
    }
    let (s, _) = restart_step(
        RestartState::Relaunching,
        RestartInput::Relaunched(CommandResult::Unavailable("gone".to_string())),
    );
    match &s {
        RestartState::Failed(m) => assert_eq!(m, "Failed to restart Ollama: gone"),
        _ => panic!("the restart should have failed"),
    }
}

#[test]
fn inputs_out_of_turn_do_not_move_the_restart() {
    let (s, a) = restart_step(RestartState::Writing, RestartInput::Pids(vec![]));
    assert!(matches!(s, RestartState::Writing) && a.is_empty());
    let (s, a) = restart_step(RestartState::Stopping(600), RestartInput::Wrote(ok("")));
    assert!(matches!(s, RestartState::Stopping(600)) && a.is_empty());
    let (s, a) = restart_step(RestartState::Stopping(u64::MAX), RestartInput::Pids(vec!["1".to_string()]));
    assert!(matches!(s, RestartState::Relaunching));
    assert_eq!(a.len(), 1);
}
