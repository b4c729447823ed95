//! The plugin runtime: live plugin instances keyed by id, and command
//! routing. A plugin is initialized before it is registered; registration
//! fails on a duplicate id; unregistering signals the instance to shut down
//! and removes it.

use vstd::prelude::*;
use crate::value::{str_eq, ParamValue};

verus! {

/// A plugin's identity as the runtime sees it.
pub struct PluginInfo {
    pub id: String,
    pub name: String,
    pub version: String,
    pub description: Option<String>,
    pub is_builtin: bool,
}

/// What a command invocation on a plugin instance can fail with.
#[derive(Debug, Clone, PartialEq, Eq)]
pub enum CommandError {
    /// The plugin does not recognize the command.
    CommandNotFound,
    /// The plugin recognized the command and failed running it.
    Failed(String),
}

/// What routing a command through the runtime can fail with.
#[derive(Debug, Clone, PartialEq, Eq)]
pub enum InvokeError {
    /// No plugin with this id is registered.
    PluginNotFound,
    /// The plugin does not recognize the command.
    CommandNotFound,
    /// The plugin failed running the command.
    Failed(String),
}

/// A live plugin instance. `A` is the capability object the host hands to
/// the plugin; the plugin never receives raw store access.
pub trait Plugin<A>: Sized {
    /// The plugin's identity, as a specification-level value.
    spec fn spec_info(&self) -> PluginInfo;

    /// The plugin's identity.
    fn info(&self) -> (r: &PluginInfo)
        ensures
            *r == self.spec_info(),
    ;

    /// Called once after loading, with the capability object; the plugin
    /// registers its extensions here.
    fn initialize(&mut self, api: &mut A) -> Result<(), String>;

    /// Runs one named command with a parameter value.
    fn invoke_command(&self, command: &str, params: &ParamValue, api: &mut A) -> Result<
        ParamValue,
        CommandError,
    >;

    /// Called when the plugin is unregistered.
    fn shutdown(&self) -> Result<(), String>;
}

/// The map of plugin id to live instance.
pub struct PluginRegistry<A, P: Plugin<A>> {
    plugins: Vec<(String, P)>,
    _api: core::marker::PhantomData<A>,
}

impl<A, P: Plugin<A>> PluginRegistry<A, P> {
    /// The registered instances, in registration order.
    pub closed spec fn spec_plugins(&self) -> Seq<(String, P)> {
        self.plugins@
    }

    /// Whether an instance with this id is registered.
    pub open spec fn spec_has(&self, id: Seq<char>) -> bool {
        exists|i: int|
            0 <= i < self.spec_plugins().len() && (#[trigger] self.spec_plugins()[i]).0@ == id
    }

    /// Registered ids are pairwise distinct.
    pub open spec fn wf(&self) -> bool {
        forall|i: int, j: int|
            0 <= i < j < self.spec_plugins().len() ==> (#[trigger] self.spec_plugins()[i]).0@ != (
            #[trigger] self.spec_plugins()[j]).0@
    }

    /// An empty runtime.
    pub fn new() -> (r: PluginRegistry<A, P>)
        ensures
            r.spec_plugins().len() == 0,
            r.wf(),
    {
        PluginRegistry { plugins: Vec::new(), _api: core::marker::PhantomData }
    }

    fn find_index(&self, plugin_id: &str) -> (r: Option<usize>)
        ensures
            match r {
                Some(i) => i < self.spec_plugins().len() && self.spec_plugins()[i as int].0@
                    == plugin_id@,
                None => !self.spec_has(plugin_id@),
            },
    {
        let n = self.plugins.len();
        let mut i: usize = 0;
        while i < n
            invariant
                i <= n,
                n == self.plugins@.len(),
                forall|j: int| 0 <= j < i ==> (#[trigger] self.plugins@[j]).0@ != plugin_id@,
            decreases n - i,
        {
            if str_eq(self.plugins[i].0.as_str(), plugin_id) {
                return Some(i);
            }
            i += 1;
        }
        None
    }

    /// Registers a live instance under its own id; a second instance with
    /// the same id is rejected and nothing changes.
    pub fn register(&mut self, plugin: P) -> (r: Result<(), crate::errors::Error>)
        requires
            old(self).wf(),
        ensures
            final (self).wf(),
            r is Err ==> r == Err::<(), crate::errors::Error>(
                crate::errors::Error::AlreadyRegistered,
            ),
            (r is Ok) <==> !old(self).spec_has(plugin.spec_info().id@),
            r is Err ==> final (self).spec_plugins() == old(self).spec_plugins(),
            r is Ok ==> {
                &&& final (self).spec_plugins().len() == old(self).spec_plugins().len() + 1
                &&& final (self).spec_plugins().last().0@ == plugin.spec_info().id@
                &&& final (self).spec_plugins().last().1 == plugin
                &&& final (self).spec_plugins().drop_last() == old(self).spec_plugins()
            },
    {
        let id = plugin.info().id.clone();
        match self.find_index(id.as_str()) {
            Some(_) => Err(crate::errors::Error::AlreadyRegistered),
            None => {
                proof {
                    assert(!old(self).spec_has(id@));
                }
                self.plugins.push((id, plugin));
                proof {
                    let cur = self.spec_plugins();
                    let prev = old(self).spec_plugins();
                    assert(cur.drop_last() =~= prev);
                    assert forall|i: int, j: int| 0 <= i < j < cur.len() implies (
                    #[trigger] cur[i]).0@ != (#[trigger] cur[j]).0@ by {
                        assert(cur[i] == prev[i]);
                        if j < cur.len() - 1 {
                            assert(cur[j] == prev[j]);
                        }
                    }
                }
                Ok(())
            },
        }
    }

    /// Signals the instance to shut down and removes it; its shutdown
    /// failure, if any, does not keep the entry alive.
    pub fn unregister(&mut self, plugin_id: &str) -> (r: Result<(), crate::errors::Error>)
        requires
            old(self).wf(),
        ensures
            final (self).wf(),
            r is Err ==> r == Err::<(), crate::errors::Error>(crate::errors::Error::PluginNotFound),
            (r is Ok) <==> old(self).spec_has(plugin_id@),
            r is Err ==> final (self).spec_plugins() == old(self).spec_plugins(),
            r is Ok ==> !final (self).spec_has(plugin_id@) && final (self).spec_plugins().len()
                == old(self).spec_plugins().len() - 1,
    {
        match self.find_index(plugin_id) {
            None => Err(crate::errors::Error::PluginNotFound),
            Some(i) => {
                let _ = self.plugins[i].1.shutdown();
                self.plugins.remove(i);
                proof {
                    assert forall|j: int|
                        0 <= j < self.plugins@.len() implies (#[trigger] self.plugins@[j]).0@
                        != plugin_id@ by {
                        if j < i {
                            assert(self.plugins@[j] == old(self).plugins@[j]);
                        } else {
                            assert(self.plugins@[j] == old(self).plugins@[j + 1]);
                        }
                    }
                }
                Ok(())
            },
        }
    }

    /// Every registered plugin id, in registration order.
    pub fn get_plugin_ids(&self) -> (r: Vec<String>)
        ensures
            r@.len() == self.spec_plugins().len(),
            forall|i: int|
                0 <= i < r@.len() ==> (#[trigger] r@[i])@ == self.spec_plugins()[i].0@,
    {
        let mut out: Vec<String> = Vec::new();
        let n = self.plugins.len();
        let mut i: usize = 0;
        while i < n
            invariant
                i <= n,
                n == self.plugins@.len(),
                out@.len() == i,
                forall|j: int| 0 <= j < i ==> (#[trigger] out@[j])@ == self.plugins@[j].0@,
            decreases n - i,
        {
            out.push(self.plugins[i].0.clone());
            i += 1;
        }
        out
    }

    /// Whether an instance with this id is registered.
    pub fn is_registered(&self, plugin_id: &str) -> (r: bool)
        ensures
            r == self.spec_has(plugin_id@),
    {
        match self.find_index(plugin_id) {
            Some(_) => true,
            None => false,
        }
    }

    /// Routes a command to the registered instance with this id. Fails with
    /// `PluginNotFound` exactly when no such instance is registered, and
    /// with `CommandNotFound` when the instance does not recognize the
    /// command.
    pub fn invoke_plugin_command(
        &self,
        plugin_id: &str,
        command: &str,
        params: &ParamValue,
        api: &mut A,
    ) -> (r: Result<ParamValue, InvokeError>)
        ensures
            (r == Err::<ParamValue, InvokeError>(InvokeError::PluginNotFound)) <==> !self.spec_has(
                plugin_id@,
            ),
    {
        match self.find_index(plugin_id) {
            None => Err(InvokeError::PluginNotFound),
            Some(i) => {
                match self.plugins[i].1.invoke_command(command, params, api) {
                    Ok(v) => Ok(v),
                    Err(CommandError::CommandNotFound) => Err(InvokeError::CommandNotFound),
                    Err(CommandError::Failed(m)) => Err(InvokeError::Failed(m)),
                }
            },
        }
    }
}

} // verus!
