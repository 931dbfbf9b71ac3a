//! What is registered with the engine before its loop starts.

use vstd::prelude::*;

verus! {

/// A system with the name it is dispatched under and the names of the
/// systems that run before it.
#[derive(Debug)]
pub struct SystemEntry {
    pub system: u64,
    pub name: String,
    pub dependencies: Vec<String>,
}

/// State of the engine during setup.
#[derive(Debug)]
pub struct Setup {
    /// List of processes to run during the game loop.
    pub processes: Vec<u64>,
    /// Systems to dispatch early in the game loop.
    pub early_systems: Vec<SystemEntry>,
    /// Systems to dispatch in the game loop.
    pub systems: Vec<SystemEntry>,
    /// Systems to dispatch late in the game loop.
    pub late_systems: Vec<SystemEntry>,
}

impl Setup {
    /// A setup with nothing registered.
    pub fn new() -> (res: Self)
        ensures
            res.processes@.len() == 0,
            res.early_systems@.len() == 0,
            res.systems@.len() == 0,
            res.late_systems@.len() == 0,
    {
        Setup {
            processes: Vec::new(),
            early_systems: Vec::new(),
            systems: Vec::new(),
            late_systems: Vec::new(),
        }
    }
}

/// The engine: it holds its setup until the loop starts.
#[derive(Debug)]
pub struct Context {
    pub setup: Option<Setup>,
}

impl Context {
    /// An engine that is being set up.
    pub fn new() -> (res: Self)
        ensures
            res.setup is Some,
            res.setup->0.processes@.len() == 0,
            res.setup->0.early_systems@.len() == 0,
            res.setup->0.systems@.len() == 0,
            res.setup->0.late_systems@.len() == 0,
    {
        Context { setup: Some(Setup::new()) }
    }

    /// Whether the engine is still being set up.
    pub fn is_setting_up(&self) -> (res: bool)
        ensures
            res == self.setup is Some,
    {
        self.setup.is_some()
    }

    /// Starts the loop: hands out the setup, after which nothing can be
    /// registered.
    pub fn start(&mut self) -> (res: Option<Setup>)
        ensures
            res == old(self).setup,
            final(self).setup is None,
    {
        self.setup.take()
    }
}

/// Adds a process to the engine that will be run during the game loop.
pub fn add_process(ctx: &mut Context, process: u64)
    requires
        old(ctx).setup is Some,
    ensures
        final(ctx).setup is Some,
        final(ctx).setup->0.processes@ == old(ctx).setup->0.processes@.push(process),
        final(ctx).setup->0.early_systems == old(ctx).setup->0.early_systems,
        final(ctx).setup->0.systems == old(ctx).setup->0.systems,
        final(ctx).setup->0.late_systems == old(ctx).setup->0.late_systems,
{
    let mut setup = ctx.setup.take().unwrap();
    setup.processes.push(process);
    ctx.setup = Some(setup);
}

/// Adds a system to the engine that will be dispatched early in the game
/// loop.
pub fn add_system_early(ctx: &mut Context, system: u64, name: String, dependencies: Vec<String>)
    requires
        old(ctx).setup is Some,
    ensures
        final(ctx).setup is Some,
        final(ctx).setup->0.early_systems@ == old(ctx).setup->0.early_systems@.push(
            SystemEntry { system, name, dependencies },
        ),
        final(ctx).setup->0.processes == old(ctx).setup->0.processes,
        final(ctx).setup->0.systems == old(ctx).setup->0.systems,
        final(ctx).setup->0.late_systems == old(ctx).setup->0.late_systems,
{
    let mut setup = ctx.setup.take().unwrap();
    setup.early_systems.push(SystemEntry { system, name, dependencies });
    ctx.setup = Some(setup);
}

/// Adds a system to the engine that will be dispatched in the game loop.
pub fn add_system(ctx: &mut Context, system: u64, name: String, dependencies: Vec<String>)
    requires
        old(ctx).setup is Some,
    ensures
        final(ctx).setup is Some,
        final(ctx).setup->0.systems@ == old(ctx).setup->0.systems@.push(
            SystemEntry { system, name, dependencies },
        ),
        final(ctx).setup->0.processes == old(ctx).setup->0.processes,
        final(ctx).setup->0.early_systems == old(ctx).setup->0.early_systems,
        final(ctx).setup->0.late_systems == old(ctx).setup->0.late_systems,
{
    let mut setup = ctx.setup.take().unwrap();
    setup.systems.push(SystemEntry { system, name, dependencies });
    ctx.setup = Some(setup);
}

/// Adds a system to the engine that will be dispatched late the game
/// loop.
pub fn add_system_late(ctx: &mut Context, system: u64, name: String, dependencies: Vec<String>)
    requires
        old(ctx).setup is Some,
    ensures
        final(ctx).setup is Some,
        final(ctx).setup->0.late_systems@ == old(ctx).setup->0.late_systems@.push(
            SystemEntry { system, name, dependencies },
        ),
        final(ctx).setup->0.processes == old(ctx).setup->0.processes,
        final(ctx).setup->0.early_systems == old(ctx).setup->0.early_systems,
        final(ctx).setup->0.systems == old(ctx).setup->0.systems,
{
    let mut setup = ctx.setup.take().unwrap();
    setup.late_systems.push(SystemEntry { system, name, dependencies });
    ctx.setup = Some(setup);
}

} // verus!
