use indextts_launcher::engine::{EngineConfig, EngineManager, EngineStatus, RunMode};

#[test]
fn new_manager_is_stopped_and_unconfigured() {
    let manager = EngineManager::new();
    assert_eq!(
        manager.config(),
        EngineConfig { install_dir: String::new(), model_dir: String::new(), run_mode: RunMode::Cpu }
    );
    assert_eq!(manager.status(), EngineStatus::Stopped);
    let manager = EngineManager::default();
    assert_eq!(manager.status(), EngineStatus::Stopped);
    assert_eq!(manager.config().run_mode, RunMode::Cpu);
}

#[test]
fn manager_keeps_what_was_set() {
    let mut manager = EngineManager::new();
    let config = EngineConfig {
        install_dir: "/opt/engine".to_string(),
        model_dir: "/opt/models".to_string(),
        run_mode: RunMode::Mps,
    };
    manager.update_config(config.clone());
    assert_eq!(manager.config(), config);
    assert_eq!(manager.status(), EngineStatus::Stopped);
    manager.set_status(EngineStatus::Error("out of memory".to_string()));
    assert_eq!(manager.status(), EngineStatus::Error("out of memory".to_string()));
    assert_eq!(manager.config(), config);
    manager.set_status(EngineStatus::Running);
    assert_eq!(manager.status().clone(), EngineStatus::Running);
    manager.update_config(EngineConfig { run_mode: RunMode::Gpu, ..config.clone() });
    assert_eq!(manager.config().run_mode, RunMode::Gpu);
    assert_eq!(manager.status(), EngineStatus::Running);
}
