//! The engine's configuration and status as the user interface sets and
//! reads them.

use vstd::prelude::*;

verus! {

/// On what the engine computes.
#[derive(Clone, Copy, Debug, PartialEq, Eq, Structural)]
pub enum RunMode {
    Gpu,
    Cpu,
    /// Apple silicon.
    Mps,
}

/// Where the engine is installed, where its models are, and on what it runs.
#[derive(Debug, PartialEq, Eq)]
pub struct EngineConfig {
    pub install_dir: String,
    pub model_dir: String,
    pub run_mode: RunMode,
}

pub struct EngineConfigView {
    pub install_dir: Seq<char>,
    pub model_dir: Seq<char>,
    pub run_mode: RunMode,
}

impl View for EngineConfig {
    type V = EngineConfigView;

    open spec fn view(&self) -> EngineConfigView {
        EngineConfigView {
            install_dir: self.install_dir@,
            model_dir: self.model_dir@,
            run_mode: self.run_mode,
        }
    }
}

impl Clone for EngineConfig {
    fn clone(&self) -> (copy: EngineConfig)
        ensures
            copy@ == self@,
    {
        EngineConfig {
            install_dir: self.install_dir.clone(),
            model_dir: self.model_dir.clone(),
            run_mode: self.run_mode,
        }
    }
}

/// What the engine is doing.
#[derive(Debug, PartialEq, Eq)]
pub enum EngineStatus {
    Stopped,
    Starting,
    Running,
    Error(String),
}

pub enum EngineStatusView {
    Stopped,
    Starting,
    Running,
    Error(Seq<char>),
}

impl View for EngineStatus {
    type V = EngineStatusView;

    open spec fn view(&self) -> EngineStatusView {
        match *self {
            EngineStatus::Stopped => EngineStatusView::Stopped,
            EngineStatus::Starting => EngineStatusView::Starting,
            EngineStatus::Running => EngineStatusView::Running,
            EngineStatus::Error(message) => EngineStatusView::Error(message@),
        }
    }
}

impl Clone for EngineStatus {
    fn clone(&self) -> (copy: EngineStatus)
        ensures
            copy@ == self@,
    {
        match self {
            EngineStatus::Stopped => EngineStatus::Stopped,
            EngineStatus::Starting => EngineStatus::Starting,
            EngineStatus::Running => EngineStatus::Running,
            EngineStatus::Error(message) => EngineStatus::Error(message.clone()),
        }
    }
}

/// What an engine manager holds.
pub struct EngineManagerView {
    pub config: EngineConfigView,
    pub status: EngineStatusView,
}

impl EngineManagerView {
    /// A manager before anything was configured: no directories, the
    /// processor as run mode, stopped.
    pub open spec fn initial() -> EngineManagerView {
        EngineManagerView {
            config: EngineConfigView {
                install_dir: Seq::empty(),
                model_dir: Seq::empty(),
                run_mode: RunMode::Cpu,
            },
            status: EngineStatusView::Stopped,
        }
    }
}

/// Keeps the engine's configuration and status.
pub struct EngineManager {
    config: EngineConfig,
    status: EngineStatus,
}

impl View for EngineManager {
    type V = EngineManagerView;

    closed spec fn view(&self) -> EngineManagerView {
        EngineManagerView { config: self.config@, status: self.status@ }
    }
}

impl EngineManager {
    /// A manager before anything was configured.
    pub fn new() -> (manager: EngineManager)
        ensures
            manager@ == EngineManagerView::initial(),
    {
        EngineManager {
            config: EngineConfig {
                install_dir: String::new(),
                model_dir: String::new(),
                run_mode: RunMode::Cpu,
            },
            status: EngineStatus::Stopped,
        }
    }

    /// A copy of the configuration.
    pub fn config(&self) -> (config: EngineConfig)
        ensures
            config@ == self@.config,
    {
        self.config.clone()
    }

    /// A copy of the status.
    pub fn status(&self) -> (status: EngineStatus)
        ensures
            status@ == self@.status,
    {
        self.status.clone()
    }

    /// Replaces the configuration and leaves the status.
    pub fn update_config(&mut self, config: EngineConfig)
        ensures
            final(self)@ == (EngineManagerView { config: config@, ..old(self)@ }),
    {
        self.config = config;
    }

    /// Replaces the status and leaves the configuration.
    pub fn set_status(&mut self, status: EngineStatus)
        ensures
            final(self)@ == (EngineManagerView { status: status@, ..old(self)@ }),
    {
        self.status = status;
    }
}

impl Default for EngineManager {
    fn default() -> (manager: EngineManager)
        ensures
            manager@ == EngineManagerView::initial(),
    {
        EngineManager::new()
    }
}

} // verus!
