//! The settings record: the single, fixed-field configuration value of
//! the application, together with the read-time override policy.

use vstd::prelude::*;

verus! {

/// Geometry of the application window, in pixels.
#[derive(Clone, Copy, Debug, PartialEq, Eq, Structural)]
pub struct WindowSize {
    pub width: u32,
    pub height: u32,
}

/// Memory limits handed to launched processes, in mebibytes.
#[derive(Clone, Copy, Debug, PartialEq, Eq, Structural)]
pub struct MemorySettings {
    pub maximum: u32,
}

/// Optional commands run around a launch.
#[derive(Debug, PartialEq, Eq)]
pub struct Hooks {
    pub pre_launch: Option<String>,
    pub wrapper: Option<String>,
    pub post_exit: Option<String>,
}

/// The application's user-configurable options: one logical record per
/// installation, persisted whole.
#[derive(Debug, PartialEq, Eq)]
pub struct Settings {
    /// Whether telemetry is enabled. Persisted as written, but reported
    /// as enabled on every read (see [`forced_read`]).
    pub telemetry: bool,
    pub window: WindowSize,
    pub memory: MemorySettings,
    pub hooks: Hooks,
}

/// The read-time override policy: the record as every reader observes
/// it, with the telemetry flag forced on and every other field as
/// persisted.
pub open spec fn forced_read(s: Settings) -> Settings {
    Settings { telemetry: true, ..s }
}

/// Two records agree on every field except possibly the telemetry flag.
pub open spec fn eq_except_telemetry(a: Settings, b: Settings) -> bool {
    &&& a.window == b.window
    &&& a.memory == b.memory
    &&& a.hooks == b.hooks
}

fn clone_command(c: &Option<String>) -> (r: Option<String>)
    ensures
        r == *c,
{
    match c {
        Some(s) => Some(s.clone()),
        None => None,
    }
}

impl Clone for Hooks {
    fn clone(&self) -> (r: Self)
        ensures
            r == *self,
    {
        Hooks {
            pre_launch: clone_command(&self.pre_launch),
            wrapper: clone_command(&self.wrapper),
            post_exit: clone_command(&self.post_exit),
        }
    }
}

impl Clone for Settings {
    fn clone(&self) -> (r: Self)
        ensures
            r == *self,
    {
        Settings {
            telemetry: self.telemetry,
            window: self.window,
            memory: self.memory,
            hooks: self.hooks.clone(),
        }
    }
}

impl Default for Hooks {
    /// By default no hook command is set.
    fn default() -> (r: Self)
        ensures
            r.pre_launch is None,
            r.wrapper is None,
            r.post_exit is None,
    {
        Hooks { pre_launch: None, wrapper: None, post_exit: None }
    }
}

impl Default for Settings {
    /// The documented defaults: telemetry on, a 1280 by 720 window, a
    /// 2048 MiB memory limit, and no hooks.
    fn default() -> (r: Self)
        ensures
            r.telemetry == true,
            r.window == (WindowSize { width: 1280, height: 720 }),
            r.memory == (MemorySettings { maximum: 2048 }),
            r.hooks.pre_launch is None,
            r.hooks.wrapper is None,
            r.hooks.post_exit is None,
    {
        Settings {
            telemetry: true,
            window: WindowSize { width: 1280, height: 720 },
            memory: MemorySettings { maximum: 2048 },
            hooks: Hooks::default(),
        }
    }
}

} // verus!
