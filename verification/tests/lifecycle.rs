//! The per-plugin lifecycle state machine.

use plugin_host::errors::Error;
use plugin_host::lifecycle::{step, LifecycleAction, LifecycleEvent, PluginState};

#[test]
fn the_install_enable_load_path() {
    let (s1, a1) = step(PluginState::Uninstalled, LifecycleEvent::Install).unwrap();
    assert_eq!(s1, PluginState::Disabled);
    assert_eq!(a1, LifecycleAction::Nothing);

    let (s2, a2) = step(s1, LifecycleEvent::Enable).unwrap();
    assert_eq!(s2, PluginState::Enabled);
    assert_eq!(a2, LifecycleAction::LoadLibrary);

    let (s3, a3) = step(s2, LifecycleEvent::LoadSucceeded).unwrap();
    assert_eq!(s3, PluginState::Loaded);
    assert_eq!(a3, LifecycleAction::Nothing);

    let (s4, a4) = step(s3, LifecycleEvent::Disable).unwrap();
    assert_eq!(s4, PluginState::Disabled);
    assert_eq!(a4, LifecycleAction::UnloadLibrary);

    let (s5, a5) = step(s4, LifecycleEvent::Uninstall).unwrap();
    assert_eq!(s5, PluginState::Uninstalled);
    assert_eq!(a5, LifecycleAction::RemoveFiles);
}

#[test]
fn a_failed_load_keeps_the_pre_load_state() {
    let (s, a) = step(PluginState::Enabled, LifecycleEvent::LoadFailed).unwrap();
    assert_eq!(s, PluginState::Enabled);
    assert_eq!(a, LifecycleAction::Nothing);
}

#[test]
fn steps_that_do_not_exist_are_refused() {
    assert_eq!(
        step(PluginState::Uninstalled, LifecycleEvent::Enable),
        Err(Error::InvalidLifecycleStep)
    );
    assert_eq!(
        step(PluginState::Disabled, LifecycleEvent::LoadSucceeded),
        Err(Error::InvalidLifecycleStep)
    );
    assert_eq!(
        step(PluginState::Loaded, LifecycleEvent::Install),
        Err(Error::InvalidLifecycleStep)
    );
    assert_eq!(
        step(PluginState::Uninstalled, LifecycleEvent::Uninstall),
        Err(Error::InvalidLifecycleStep)
    );
}
