use std::time::{Duration, Instant};

use indextts_launcher::command::Platform;
use indextts_launcher::server::{
    get_server_status, server_started, start_index_tts_server, stop_index_tts_server,
    ServerChildProcess, ServerLaunch, ServerStatus,
};
use tokio::process::{Child, Command};
use tokio::runtime::{Builder, Runtime};

fn runtime() -> Runtime {
    Builder::new_current_thread().enable_all().build().expect("runtime")
}

fn launch() -> ServerLaunch {
    ServerLaunch {
        target_dir: ".".to_string(),
        host: "127.0.0.1".to_string(),
        port: 7860,
        device: "cpu".to_string(),
        precision: None,
    }
}

fn supervising(runtime: &Runtime, script: &str) -> ServerChildProcess<Child> {
    let _inside = runtime.enter();
    let child = Command::new("sh").arg("-c").arg(script).spawn().expect("spawn");
    let mut state = ServerChildProcess::new();
    start_index_tts_server(&mut state, &launch(), true, true).expect("start accepted");
    let (answer, refused) = server_started(&mut state, Ok(child));
    assert_eq!(answer, Ok(ServerStatus::Starting));
    assert!(refused.is_none());
    state
}

#[test]
fn live_process_is_reported_running_until_it_is_stopped() {
    let runtime = runtime();
    let mut state = supervising(&runtime, "sleep 30");
    for _ in 0..3 {
        assert_eq!(get_server_status(&mut state), Ok(ServerStatus::Running));
    }
    assert_eq!(state.status(), ServerStatus::Running);
    let (child, _plan) = stop_index_tts_server(&mut state, Platform::Linux);
    let mut child = child.expect("handle");
    runtime.block_on(async {
        child.kill().await.expect("kill");
    });
    assert_eq!(get_server_status(&mut state), Ok(ServerStatus::Stopped));
}

#[test]
fn exited_process_is_reported_stopped_and_stays_stopped() {
    let runtime = runtime();
    let mut state = supervising(&runtime, "exit 0");
    let deadline = Instant::now() + Duration::from_secs(10);
    loop {
        match get_server_status(&mut state) {
            Ok(ServerStatus::Stopped) => break,
            Ok(ServerStatus::Running) => {
                assert!(Instant::now() < deadline, "the process did not exit in time");
                runtime.block_on(async { tokio::time::sleep(Duration::from_millis(20)).await });
            }
            other => panic!("unexpected status {:?}", other),
        }
    }
    assert!(state.handle_mut().is_none());
    for _ in 0..3 {
        assert_eq!(get_server_status(&mut state), Ok(ServerStatus::Stopped));
    }
    assert!(start_index_tts_server(&mut state, &launch(), true, true).is_ok());
}

#[test]
fn status_without_process_is_stopped() {
    let mut state: ServerChildProcess<Child> = ServerChildProcess::new();
    assert_eq!(get_server_status(&mut state), Ok(ServerStatus::Stopped));
    start_index_tts_server(&mut state, &launch(), true, true).expect("start accepted");
    assert_eq!(get_server_status(&mut state), Ok(ServerStatus::Stopped));
    assert_eq!(state.status(), ServerStatus::Starting);
}
