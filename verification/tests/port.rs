use indextts_launcher::command::{CommandOutput, CommandSpec, Platform};
use indextts_launcher::failure::Failure;
use indextts_launcher::plan::{Reply, Request, Turn};
use indextts_launcher::port::{
    ensure_port_closed, ReclaimPhase, MAX_RECLAIM_ROUNDS, PROBE_TIMEOUT_MS, RECLAIM_DELAY_MS,
};

fn quiet(request: Request) -> Turn {
    Turn { logs: Vec::new(), request }
}

fn probe(port: u16) -> Turn {
    quiet(Request::ProbePort { port, timeout_ms: 200 })
}

fn command(program: &str, args: &[&str]) -> CommandSpec {
    CommandSpec {
        program: program.to_string(),
        args: args.iter().map(|a| a.to_string()).collect(),
        current_dir: None,
        envs: Vec::new(),
        creation_flags: None,
    }
}

fn printed(success: bool, stdout: &str, stderr: &str) -> Reply {
    Reply::Captured(Ok(CommandOutput {
        success,
        status: if success { "exit status: 0".into() } else { "exit status: 1".into() },
        stdout: stdout.as_bytes().to_vec(),
        stderr: stderr.as_bytes().to_vec(),
    }))
}

#[test]
fn constants_of_the_reclaimer() {
    assert_eq!(MAX_RECLAIM_ROUNDS, 5);
    assert_eq!(PROBE_TIMEOUT_MS, 200);
    assert_eq!(RECLAIM_DELAY_MS, 300);
}

#[test]
fn free_port_succeeds_without_any_command() {
    let mut plan = ensure_port_closed(7860, Platform::Linux);
    assert_eq!(plan.phase(), ReclaimPhase::Start);
    assert_eq!(plan.next(Reply::Start), probe(7860));
    assert_eq!(plan.next(Reply::Reachable(false)), quiet(Request::Done));
    assert_eq!(plan.phase(), ReclaimPhase::Done);
    assert_eq!(plan.next(Reply::Reachable(true)), quiet(Request::Done));
    assert_eq!(plan.into_outcome(), Some(Ok(())));
}

#[test]
fn free_port_succeeds_on_unsupported_platform_too() {
    let mut plan = ensure_port_closed(7860, Platform::Other);
    plan.next(Reply::Start);
    assert_eq!(plan.next(Reply::Reachable(false)), quiet(Request::Done));
    assert_eq!(plan.into_outcome(), Some(Ok(())));
}

#[test]
fn bound_port_on_unsupported_platform_fails_at_once() {
    let mut plan = ensure_port_closed(7860, Platform::Other);
    plan.next(Reply::Start);
    assert_eq!(plan.next(Reply::Reachable(true)), quiet(Request::Done));
    let failure = plan.into_outcome().unwrap().unwrap_err();
    assert_eq!(failure.message(), "Force killing ports is not supported on this platform.");
    assert!(matches!(failure, Failure::UnsupportedPlatform { .. }));
}

#[test]
fn holders_are_killed_then_port_is_probed_again() {
    let mut plan = ensure_port_closed(7860, Platform::Linux);
    plan.next(Reply::Start);
    assert_eq!(
        plan.next(Reply::Reachable(true)),
        quiet(Request::Capture(command("lsof", &["-ti", ":7860"])))
    );
    assert_eq!(
        plan.next(printed(true, "1234\n 5678 \n\n", "")),
        quiet(Request::Capture(command("kill", &["-9", "1234"])))
    );
    assert_eq!(plan.phase(), ReclaimPhase::Killing);
    assert_eq!(
        plan.next(printed(true, "", "")),
        quiet(Request::Capture(command("kill", &["-9", "5678"])))
    );
    assert_eq!(plan.next(printed(true, "", "")), quiet(Request::Sleep { millis: 300 }));
    assert_eq!(plan.next(Reply::Slept), probe(7860));
    assert_eq!(plan.next(Reply::Reachable(false)), quiet(Request::Done));
    assert_eq!(plan.into_outcome(), Some(Ok(())));
}

#[test]
fn nothing_found_still_waits_and_probes_again() {
    let mut plan = ensure_port_closed(8000, Platform::MacOs);
    plan.next(Reply::Start);
    plan.next(Reply::Reachable(true));
    assert_eq!(plan.next(printed(false, "", "")), quiet(Request::Sleep { millis: 300 }));
    assert_eq!(plan.next(Reply::Slept), probe(8000));
}

#[test]
fn port_still_bound_after_five_rounds() {
    let mut plan = ensure_port_closed(7860, Platform::Linux);
    assert_eq!(plan.next(Reply::Start), probe(7860));
    let mut listings = 0;
    for _ in 0..5 {
        let turn = plan.next(Reply::Reachable(true));
        assert_eq!(turn, quiet(Request::Capture(command("lsof", &["-ti", ":7860"]))));
        listings += 1;
        assert_eq!(
            plan.next(printed(true, "42\n", "")),
            quiet(Request::Capture(command("kill", &["-9", "42"])))
        );
        assert_eq!(plan.next(printed(true, "", "")), quiet(Request::Sleep { millis: 300 }));
        assert_eq!(plan.next(Reply::Slept), probe(7860));
    }
    assert_eq!(listings, 5);
    assert_eq!(plan.next(Reply::Reachable(true)), quiet(Request::Done));
    let failure = plan.into_outcome().unwrap().unwrap_err();
    assert_eq!(failure, Failure::PortStillBound { port: 7860 });
    assert_eq!(
        failure.message(),
        "Port 7860 is still serving requests. Please close IndexTTS2 manually."
    );
}

#[test]
fn port_freed_at_the_last_probe_succeeds() {
    let mut plan = ensure_port_closed(7860, Platform::Linux);
    plan.next(Reply::Start);
    for _ in 0..5 {
        plan.next(Reply::Reachable(true));
        plan.next(printed(true, "", ""));
        plan.next(Reply::Slept);
    }
    assert_eq!(plan.next(Reply::Reachable(false)), quiet(Request::Done));
    assert_eq!(plan.into_outcome(), Some(Ok(())));
}

#[test]
fn listing_that_cannot_run_fails() {
    let mut plan = ensure_port_closed(7860, Platform::Linux);
    plan.next(Reply::Start);
    plan.next(Reply::Reachable(true));
    plan.next(Reply::Captured(Err("lsof: not found".to_string())));
    assert_eq!(
        plan.into_outcome().unwrap().unwrap_err().message(),
        "Failed to inspect active connections on port 7860: lsof: not found"
    );
}

#[test]
fn kill_that_fails_is_reported_on_unix() {
    let mut plan = ensure_port_closed(7860, Platform::Linux);
    plan.next(Reply::Start);
    plan.next(Reply::Reachable(true));
    plan.next(printed(true, "77\n", ""));
    plan.next(printed(false, "", "kill: (77): Operation not permitted\n"));
    assert_eq!(
        plan.into_outcome().unwrap().unwrap_err().message(),
        "kill -9 77 exited with exit status: 1 for port 7860: kill: (77): Operation not permitted\n"
    );
}

#[test]
fn kill_that_cannot_run_is_reported() {
    let mut plan = ensure_port_closed(7860, Platform::Linux);
    plan.next(Reply::Start);
    plan.next(Reply::Reachable(true));
    plan.next(printed(true, "77\n", ""));
    plan.next(Reply::Captured(Err("denied".to_string())));
    assert_eq!(
        plan.into_outcome().unwrap().unwrap_err().message(),
        "Failed to kill PID 77 on port 7860: denied"
    );
}

#[test]
fn windows_uses_powershell_and_taskkill() {
    let mut plan = ensure_port_closed(7860, Platform::Windows);
    plan.next(Reply::Start);
    assert_eq!(
        plan.next(Reply::Reachable(true)),
        quiet(Request::Capture(command(
            "powershell",
            &[
                "-NoProfile",
                "-Command",
                "Get-NetTCPConnection -LocalPort 7860 -ErrorAction SilentlyContinue | Select-Object -ExpandProperty OwningProcess",
            ]
        )))
    );
    assert_eq!(
        plan.next(printed(true, "4321\r\n", "")),
        quiet(Request::Capture(command("taskkill", &["/PID", "4321", "/F"])))
    );
    plan.next(printed(false, "", "ERROR: Access is denied.\r\n"));
    assert_eq!(
        plan.into_outcome().unwrap().unwrap_err().message(),
        "taskkill failed for PID 4321 on port 7860: ERROR: Access is denied.\r\n"
    );
}

#[test]
fn listing_with_invalid_bytes_is_decoded_lossily() {
    let mut plan = ensure_port_closed(1, Platform::Linux);
    plan.next(Reply::Start);
    plan.next(Reply::Reachable(true));
    let reply = Reply::Captured(Ok(CommandOutput {
        success: true,
        status: "exit status: 0".into(),
        stdout: b"9\xff9\n".to_vec(),
        stderr: Vec::new(),
    }));
    assert_eq!(
        plan.next(reply),
        quiet(Request::Capture(command("kill", &["-9", "9\u{fffd}9"])))
    );
}

#[test]
fn reclaim_reply_out_of_turn_ends_the_plan() {
    let mut plan = ensure_port_closed(7860, Platform::Linux);
    plan.next(Reply::Start);
    assert_eq!(plan.next(Reply::Slept), quiet(Request::Done));
    assert_eq!(plan.into_outcome(), Some(Err(Failure::OutOfTurn)));
}
