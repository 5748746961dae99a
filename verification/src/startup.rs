//! The order in which the shell is brought up, and what it registers on the way.

use vstd::prelude::*;

verus! {

/// A plugin that the shell registers with its host.
#[derive(Clone, Copy, Debug, PartialEq, Eq, Structural)]
pub enum Plugin {
    /// Access to the system shell.
    Shell,
    /// Notifications of the operating system.
    Notification,
    /// The guard that keeps the application to a single running instance.
    SingleInstance,
    /// Launch at login.
    Autostart,
}

/// One step of bringing the shell up. A step that fails ends the startup.
#[derive(Clone, Copy, Debug, PartialEq, Eq, Structural)]
pub enum StartupStep {
    /// Register a plugin.
    Register(Plugin),
    /// Install the commands that the front-end can invoke.
    InstallCommands,
    /// Build the tray icon with its menu.
    BuildTray,
    /// Enter the event loop, which runs until the process ends.
    RunEventLoop,
}

/// The steps of the startup in their order: the four plugins, the commands,
/// the tray, the event loop.
pub open spec fn startup_sequence() -> Seq<StartupStep> {
    seq![
        StartupStep::Register(Plugin::Shell),
        StartupStep::Register(Plugin::Notification),
        StartupStep::Register(Plugin::SingleInstance),
        StartupStep::Register(Plugin::Autostart),
        StartupStep::InstallCommands,
        StartupStep::BuildTray,
        StartupStep::RunEventLoop,
    ]
}

/// Whether `arguments` is what a launch at login passes to the application:
/// the single argument `--minimized`.
pub open spec fn is_autostart_arguments(arguments: Seq<&'static str>) -> bool {
    arguments.len() == 1 && arguments[0]@ == "--minimized"@
}

/// The steps of the startup, first step first.
pub fn startup_plan() -> (plan: Vec<StartupStep>)
    ensures
        plan@ == startup_sequence(),
{
    let mut plan: Vec<StartupStep> = Vec::new();
    plan.push(StartupStep::Register(Plugin::Shell));
    plan.push(StartupStep::Register(Plugin::Notification));
    plan.push(StartupStep::Register(Plugin::SingleInstance));
    plan.push(StartupStep::Register(Plugin::Autostart));
    plan.push(StartupStep::InstallCommands);
    plan.push(StartupStep::BuildTray);
    plan.push(StartupStep::RunEventLoop);
    plan
}

/// The arguments that a launch at login passes to the application.
pub fn autostart_arguments() -> (arguments: Vec<&'static str>)
    ensures
        is_autostart_arguments(arguments@),
{
    let mut arguments: Vec<&'static str> = Vec::new();
    arguments.push("--minimized");
    arguments
}

/// Every plugin is registered before the commands are installed, the
/// commands before the tray is built, and the tray, which is built once,
/// before the event loop is entered as the last step.
pub proof fn lemma_startup_order()
    ensures
        startup_sequence().len() == 7,
        forall|i: int|
            0 <= i < 7 ==> ((#[trigger] startup_sequence()[i]) is Register <==> i < 4),
        forall|i: int|
            0 <= i < 7 ==> (#[trigger] startup_sequence()[i] == StartupStep::InstallCommands <==> i
                == 4),
        forall|i: int|
            0 <= i < 7 ==> (#[trigger] startup_sequence()[i] == StartupStep::BuildTray <==> i == 5),
        forall|i: int|
            0 <= i < 7 ==> (#[trigger] startup_sequence()[i] == StartupStep::RunEventLoop <==> i == 6),
        forall|i: int, j: int|
            0 <= i < j < 4 ==> #[trigger] startup_sequence()[i] != #[trigger] startup_sequence()[j],
{
}

} // verus!
