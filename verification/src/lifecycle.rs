//! The per-plugin lifecycle state machine: what each event does from each
//! state, and which outside action the host must perform for it. The host
//! performs the action — loading or retiring the native library, removing
//! the on-disk directory — and reports the outcome as the next event; the
//! decision itself is made here.

use vstd::prelude::*;
use crate::errors::Error;

verus! {

/// Where a plugin stands in its lifecycle.
#[derive(Clone, Copy, PartialEq, Eq, Structural, Debug)]
pub enum PluginState {
    /// No files, no record.
    Uninstalled,
    /// Installed on disk, disabled.
    Disabled,
    /// Enabled, library not loaded.
    Enabled,
    /// Library loaded and instance initialized.
    Loaded,
}

/// What happens to a plugin.
#[derive(Clone, Copy, PartialEq, Eq, Structural, Debug)]
pub enum LifecycleEvent {
    /// Files and record were put in place.
    Install,
    /// The user enabled the plugin.
    Enable,
    /// The host loaded and initialized the instance.
    LoadSucceeded,
    /// The host could not load or initialize the instance.
    LoadFailed,
    /// The user disabled the plugin.
    Disable,
    /// The user removed the plugin.
    Uninstall,
}

/// What the host must do after a step.
#[derive(Clone, Copy, PartialEq, Eq, Structural, Debug)]
pub enum LifecycleAction {
    Nothing,
    /// Load the native library and initialize the instance, registering its
    /// extensions before any exposed-table metadata is published.
    LoadLibrary,
    /// Unregister the live instance and ask the loader to retire the
    /// library.
    UnloadLibrary,
    /// Remove the plugin's on-disk directory tree and its record.
    RemoveFiles,
}

/// The transition relation. Installation lands in the disabled state;
/// enabling asks for a load; a failed load leaves the plugin exactly in its
/// pre-load state; disabling from the loaded state asks for an unload; an
/// uninstall is taken from any installed state — disabling first is the
/// caller's responsibility — and removes the files.
pub open spec fn spec_step(state: PluginState, event: LifecycleEvent) -> Option<
    (PluginState, LifecycleAction),
> {
    match (state, event) {
        (PluginState::Uninstalled, LifecycleEvent::Install) => Some(
            (PluginState::Disabled, LifecycleAction::Nothing),
        ),
        (PluginState::Disabled, LifecycleEvent::Enable) => Some(
            (PluginState::Enabled, LifecycleAction::LoadLibrary),
        ),
        (PluginState::Enabled, LifecycleEvent::LoadSucceeded) => Some(
            (PluginState::Loaded, LifecycleAction::Nothing),
        ),
        (PluginState::Enabled, LifecycleEvent::LoadFailed) => Some(
            (PluginState::Enabled, LifecycleAction::Nothing),
        ),
        (PluginState::Enabled, LifecycleEvent::Disable) => Some(
            (PluginState::Disabled, LifecycleAction::Nothing),
        ),
        (PluginState::Loaded, LifecycleEvent::Disable) => Some(
            (PluginState::Disabled, LifecycleAction::UnloadLibrary),
        ),
        (PluginState::Disabled, LifecycleEvent::Uninstall) => Some(
            (PluginState::Uninstalled, LifecycleAction::RemoveFiles),
        ),
        (PluginState::Enabled, LifecycleEvent::Uninstall) => Some(
            (PluginState::Uninstalled, LifecycleAction::RemoveFiles),
        ),
        (PluginState::Loaded, LifecycleEvent::Uninstall) => Some(
            (PluginState::Uninstalled, LifecycleAction::RemoveFiles),
        ),
        _ => None,
    }
}

/// Takes one lifecycle step: the next state and the action the host must
/// perform, or a refusal when the event does not exist from this state.
pub fn step(state: PluginState, event: LifecycleEvent) -> (r: Result<
    (PluginState, LifecycleAction),
    Error,
>)
    ensures
        r == (match spec_step(state, event) {
            Some(next) => Ok::<(PluginState, LifecycleAction), Error>(next),
            None => Err::<(PluginState, LifecycleAction), Error>(Error::InvalidLifecycleStep),
        }),
{
    match (state, event) {
        (PluginState::Uninstalled, LifecycleEvent::Install) => Ok(
            (PluginState::Disabled, LifecycleAction::Nothing),
        ),
        (PluginState::Disabled, LifecycleEvent::Enable) => Ok(
            (PluginState::Enabled, LifecycleAction::LoadLibrary),
        ),
        (PluginState::Enabled, LifecycleEvent::LoadSucceeded) => Ok(
            (PluginState::Loaded, LifecycleAction::Nothing),
        ),
        (PluginState::Enabled, LifecycleEvent::LoadFailed) => Ok(
            (PluginState::Enabled, LifecycleAction::Nothing),
        ),
        (PluginState::Enabled, LifecycleEvent::Disable) => Ok(
            (PluginState::Disabled, LifecycleAction::Nothing),
        ),
        (PluginState::Loaded, LifecycleEvent::Disable) => Ok(
            (PluginState::Disabled, LifecycleAction::UnloadLibrary),
        ),
        (PluginState::Disabled, LifecycleEvent::Uninstall) => Ok(
            (PluginState::Uninstalled, LifecycleAction::RemoveFiles),
        ),
        (PluginState::Enabled, LifecycleEvent::Uninstall) => Ok(
            (PluginState::Uninstalled, LifecycleAction::RemoveFiles),
        ),
        (PluginState::Loaded, LifecycleEvent::Uninstall) => Ok(
            (PluginState::Uninstalled, LifecycleAction::RemoveFiles),
        ),
        _ => Err(Error::InvalidLifecycleStep),
    }
}

/// A failed load never moves the plugin: the pre-load state is kept exactly.
pub proof fn lemma_failed_load_keeps_state(state: PluginState)
    ensures
        spec_step(state, LifecycleEvent::LoadFailed) matches Some((next, action)) ==> next == state
            && action == LifecycleAction::Nothing,
{
}

} // verus!
