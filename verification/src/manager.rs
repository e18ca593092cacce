//! The modules of the receiver, and which of them a command starts.

use vstd::prelude::*;
use crate::text::text_eq;

verus! {

pub const DEFAULT_STATE_DB_URL: &'static str = "sqlite://state.sqlite3";

pub const DEFAULT_LISTEN_HOST: &'static str = "127.0.0.1";

pub const DEFAULT_LISTEN_PORT: u16 = 7871;

/// A module of the receiver: one datalink and its decoder.
#[derive(Clone, Copy, Debug, PartialEq, Eq, Structural)]
pub enum ModuleKind {
    /// The VHF datalink.
    Aoa,
    /// The HF datalink.
    Hfdl,
}

impl ModuleKind {
    /// The command that starts the module.
    pub open spec fn command(self) -> Seq<char> {
        match self {
            ModuleKind::Aoa => "aoa"@,
            ModuleKind::Hfdl => "hfdl"@,
        }
    }

    pub fn id(&self) -> (out: &'static str)
        ensures
            out@ == self.command(),
    {
        match self {
            ModuleKind::Aoa => "aoa",
            ModuleKind::Hfdl => "hfdl",
        }
    }

    /// Seconds without a frame after which a session of the module counts as silent, unless
    /// the settings say otherwise.
    pub fn default_session_timeout_secs(&self) -> (out: u64)
        ensures
            out == (match self {
                ModuleKind::Aoa => crate::aoa::module::DEFAULT_SESSION_TIMEOUT_SECS,
                ModuleKind::Hfdl => crate::hfdl::module::DEFAULT_SESSION_TIMEOUT_SECS,
            }),
    {
        match self {
            ModuleKind::Aoa => crate::aoa::module::DEFAULT_SESSION_TIMEOUT_SECS,
            ModuleKind::Hfdl => crate::hfdl::module::DEFAULT_SESSION_TIMEOUT_SECS,
        }
    }
}

/// The modules that the receiver knows.
#[derive(Debug, PartialEq, Eq)]
pub struct ModuleManager {
    pub modules: Vec<ModuleKind>,
}

/// The module that the command `cmd` starts.
pub open spec fn module_of(cmd: Seq<char>) -> Option<ModuleKind> {
    if cmd == "aoa"@ {
        Some(ModuleKind::Aoa)
    } else if cmd == "hfdl"@ {
        Some(ModuleKind::Hfdl)
    } else {
        None
    }
}

impl ModuleManager {
    /// The manager of both modules.
    pub fn init() -> (out: ModuleManager)
        ensures
            out.modules@ == seq![ModuleKind::Aoa, ModuleKind::Hfdl],
    {
        let mut modules: Vec<ModuleKind> = Vec::new();
        modules.push(ModuleKind::Aoa);
        modules.push(ModuleKind::Hfdl);
        assert(modules@ =~= seq![ModuleKind::Aoa, ModuleKind::Hfdl]);
        ModuleManager { modules }
    }

    /// The module that the command `cmd` starts.
    pub fn module(&self, cmd: &str) -> (out: Option<ModuleKind>)
        ensures
            out == module_of(cmd@),
    {
        if text_eq(cmd, "aoa") {
            Some(ModuleKind::Aoa)
        } else if text_eq(cmd, "hfdl") {
            Some(ModuleKind::Hfdl)
        } else {
            None
        }
    }
}

} // verus!
