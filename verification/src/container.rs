//! The set of loaded plugins that the control surface works with, keyed by
//! index, together with the host identity and the audio configuration every
//! plugin is activated against.

use vstd::prelude::*;
use crate::bridge::BridgeSender;
use crate::config::AudioConfiguration;
use crate::errors::{HostError, LifecycleError, LoadError};
use crate::params::{MyParamInfoData, ParamValue};
use crate::plugin_host::{fresh_load, set_value_model, PluginHost};

verus! {

/// The identity of the embedding application, shown to every plugin it
/// loads. It is passed in explicitly at construction time and immutable per
/// process; no global state is involved.
pub struct HostIdentity {
    pub name: String,
    pub vendor: String,
    pub url: String,
    pub version: String,
}

/// What the outside loader found at a bundle path. The loader opens the
/// bundle, resolves the first plugin entry of its factory, instantiates it
/// against the host identity and enumerates its parameters; each way that
/// can fail is reported as its own variant, and `load` turns each into the
/// matching typed error.
pub enum LoadOutcome {
    /// The bundle opened and its first plugin entry instantiated; its
    /// display name and declared parameters were enumerated.
    Found { name: String, params: Vec<MyParamInfoData> },
    /// No bundle exists at the path, or it could not be opened.
    BundleNotFound,
    /// The bundle's factory exposes no plugin entry.
    NoPluginInFactory,
    /// The plugin entry refused to instantiate.
    InstantiationRejected,
}

/// All plugins this host currently has loaded, in load order.
pub struct PluginsContainer {
    /// The identity handed to each plugin at instantiation.
    pub host_info: HostIdentity,
    /// The loaded plugins; a plugin's index is its id on the control
    /// surface.
    pub plugins: Vec<PluginHost>,
    /// The configuration every activation uses. Changing it would require a
    /// full deactivate/activate cycle per plugin.
    pub audio_configuration: AudioConfiguration,
}

impl PluginsContainer {
    /// Every held plugin controller is well-formed, and so is the
    /// configuration.
    pub open spec fn wf(self) -> bool {
        &&& self.audio_configuration.wf()
        &&& forall|i: int| 0 <= i < self.plugins@.len() ==> (#[trigger] self.plugins@[i]).wf()
    }

    /// An empty container for the given host identity and negotiated
    /// configuration.
    pub fn init(host_info: HostIdentity, audio_configuration: AudioConfiguration) -> (c:
        PluginsContainer)
        requires
            audio_configuration.wf(),
        ensures
            c.wf(),
            c.plugins@.len() == 0,
            c.host_info == host_info,
            c.audio_configuration == audio_configuration,
    {
        PluginsContainer { host_info, plugins: Vec::new(), audio_configuration }
    }

    /// Whether no plugin is loaded.
    pub fn is_empty(&self) -> (r: bool)
        ensures
            r == (self.plugins@.len() == 0),
    {
        self.plugins.is_empty()
    }

    /// How many plugins are loaded.
    pub fn len(&self) -> (n: usize)
        ensures
            n == self.plugins@.len(),
    {
        self.plugins.len()
    }

    /// Registers the outcome of loading one bundle. On success the fresh
    /// plugin handle — parameters at their declared defaults, nothing
    /// activated — is appended and its index returned; on any failure the
    /// matching error is returned and the container is left untouched, with
    /// no partial plugin state.
    pub fn load(&mut self, outcome: LoadOutcome) -> (r: Result<usize, LoadError>)
        requires
            old(self).wf(),
            outcome matches LoadOutcome::Found { params, .. } ==> forall|i: int, j: int|
                0 <= i < j < params@.len() ==> params@[i].id != params@[j].id,
        ensures
            final(self).wf(),
            final(self).host_info == old(self).host_info,
            final(self).audio_configuration == old(self).audio_configuration,
            match outcome {
                LoadOutcome::Found { name, params } => {
                    &&& r == Ok::<usize, LoadError>(old(self).plugins@.len() as usize)
                    &&& final(self).plugins@.len() == old(self).plugins@.len() + 1
                    &&& final(self).plugins@.drop_last() == old(self).plugins@
                    &&& fresh_load(final(self).plugins@.last(), name, params@)
                },
                LoadOutcome::BundleNotFound => r == Err::<usize, LoadError>(
                    LoadError::BundleNotFound,
                ) && *final(self) == *old(self),
                LoadOutcome::NoPluginInFactory => r == Err::<usize, LoadError>(
                    LoadError::NoPluginInFactory,
                ) && *final(self) == *old(self),
                LoadOutcome::InstantiationRejected => r == Err::<usize, LoadError>(
                    LoadError::InstantiationRejected,
                ) && *final(self) == *old(self),
            },
    {
        match outcome {
            LoadOutcome::Found { name, params } => {
                let h = PluginHost::new(name, params);
                let index = self.plugins.len();
                self.plugins.push(h);
                proof {
                    assert(self.plugins@.drop_last() =~= old(self).plugins@);
                    assert forall|i: int| 0 <= i < self.plugins@.len() implies (
                    #[trigger] self.plugins@[i]).wf() by {
                        if i < old(self).plugins@.len() {
                            assert(self.plugins@[i] == old(self).plugins@[i]);
                        }
                    }
                }
                Ok(index)
            },
            LoadOutcome::BundleNotFound => Err(LoadError::BundleNotFound),
            LoadOutcome::NoPluginInFactory => Err(LoadError::NoPluginInFactory),
            LoadOutcome::InstantiationRejected => Err(LoadError::InstantiationRejected),
        }
    }

    /// Unloads the plugin at `index`, forcing a stop and a deactivation
    /// first when needed (see `PluginHost::unload`). An out-of-range index
    /// is a quiet no-op, as the control surface may race its own removals.
    /// When the bridge cannot carry the forced stop, nothing changes and
    /// the caller retries later.
    pub fn unload(&mut self, index: usize, bridge: &mut BridgeSender) -> (r: Result<(), HostError>)
        requires
            old(self).wf(),
        ensures
            final(self).wf(),
            final(self).host_info == old(self).host_info,
            final(self).audio_configuration == old(self).audio_configuration,
            index >= old(self).plugins@.len() ==> r is Ok && *final(self) == *old(self),
            index < old(self).plugins@.len() ==> match r {
                Ok(()) => final(self).plugins@ == old(self).plugins@.remove(index as int),
                Err(e) => final(self).plugins@ == old(self).plugins@ && old(self).plugins@[index as int].unload_model(
                    false,
                ).1 == Err::<(), HostError>(e),
            },
    {
        if index >= self.plugins.len() {
            return Ok(());
        }
        let mut h = self.plugins.remove(index);
        match h.unload(bridge) {
            Ok(()) => {
                proof {
                    assert forall|i: int| 0 <= i < self.plugins@.len() implies (
                    #[trigger] self.plugins@[i]).wf() by {
                        assert(self.plugins@[i] == old(self).plugins@.remove(index as int)[i]);
                    }
                }
                Ok(())
            },
            Err(e) => {
                self.plugins.insert(index, h);
                proof {
                    assert(self.plugins@ =~= old(self).plugins@);
                }
                Err(e)
            },
        }
    }

    /// Applies one parameter edit to the plugin at `index` (see
    /// `PluginHost::set_value`). Returns whether such a plugin exists; on an
    /// out-of-range index nothing changes.
    pub fn set_param(
        &mut self,
        index: usize,
        param_id: u32,
        requested: ParamValue,
        readback: Option<ParamValue>,
    ) -> (r: bool)
        requires
            old(self).wf(),
        ensures
            final(self).wf(),
            final(self).host_info == old(self).host_info,
            final(self).audio_configuration == old(self).audio_configuration,
            r == (index < old(self).plugins@.len()),
            !r ==> *final(self) == *old(self),
            r ==> {
                let h0 = old(self).plugins@[index as int];
                let h1 = final(self).plugins@[index as int];
                &&& final(self).plugins@ == old(self).plugins@.update(index as int, h1)
                &&& h1.params@ == set_value_model(h0.params@, param_id, requested, readback)
                &&& h1.name == h0.name
                &&& h1.state == h0.state
                &&& h1.processor == h0.processor
                &&& h1.config == h0.config
                &&& h1.processors_allocated == h0.processors_allocated
            },
    {
        if index >= self.plugins.len() {
            return false;
        }
        self.plugins[index].set_value(param_id, requested, readback);
        proof {
            assert forall|i: int| 0 <= i < self.plugins@.len() implies (
            #[trigger] self.plugins@[i]).wf() by {
                if i != index {
                    assert(self.plugins@[i] == old(self).plugins@[i]);
                }
            }
        }
        true
    }

    /// A snapshot of the parameter list of the plugin at `index`, if such a
    /// plugin exists.
    pub fn list_params(&self, index: usize) -> (r: Option<Vec<MyParamInfoData>>)
        ensures
            index >= self.plugins@.len() ==> r is None,
            index < self.plugins@.len() ==> (r matches Some(ps) && ps@ == self.plugins@[index as int].params@),
    {
        if index < self.plugins.len() {
            Some(self.plugins[index].list_params())
        } else {
            None
        }
    }

    /// Activates the plugin at `index` against the container's audio
    /// configuration (see `PluginHost::activate`). Returns `None` when no
    /// such plugin exists.
    pub fn activate(&mut self, index: usize, plugin_accepted: bool) -> (r: Option<
        Result<(), LifecycleError>,
    >)
        requires
            old(self).wf(),
            index < old(self).plugins@.len() ==> old(self).plugins@[index as int].processors_allocated
                < u64::MAX,
        ensures
            final(self).wf(),
            final(self).host_info == old(self).host_info,
            final(self).audio_configuration == old(self).audio_configuration,
            r is None <==> index >= old(self).plugins@.len(),
            r is None ==> *final(self) == *old(self),
            index < old(self).plugins@.len() ==> {
                let (h1, res) = old(self).plugins@[index as int].activate_model(
                    old(self).audio_configuration,
                    plugin_accepted,
                );
                &&& final(self).plugins@ == old(self).plugins@.update(index as int, h1)
                &&& r == Some(res)
            },
    {
        if index >= self.plugins.len() {
            return None;
        }
        let config = self.audio_configuration;
        let res = self.plugins[index].activate(config, plugin_accepted);
        proof {
            assert forall|i: int| 0 <= i < self.plugins@.len() implies (
            #[trigger] self.plugins@[i]).wf() by {
                if i != index {
                    assert(self.plugins@[i] == old(self).plugins@[i]);
                }
            }
        }
        Some(res)
    }

    /// Deactivates the plugin at `index` (see `PluginHost::deactivate`).
    /// Returns `None` when no such plugin exists.
    pub fn deactivate(&mut self, index: usize) -> (r: Option<Result<(), LifecycleError>>)
        requires
            old(self).wf(),
        ensures
            final(self).wf(),
            final(self).host_info == old(self).host_info,
            final(self).audio_configuration == old(self).audio_configuration,
            r is None <==> index >= old(self).plugins@.len(),
            r is None ==> *final(self) == *old(self),
            index < old(self).plugins@.len() ==> {
                let (h1, res) = old(self).plugins@[index as int].deactivate_model();
                &&& final(self).plugins@ == old(self).plugins@.update(index as int, h1)
                &&& r == Some(res)
            },
    {
        if index >= self.plugins.len() {
            return None;
        }
        let res = self.plugins[index].deactivate();
        proof {
            assert forall|i: int| 0 <= i < self.plugins@.len() implies (
            #[trigger] self.plugins@[i]).wf() by {
                if i != index {
                    assert(self.plugins@[i] == old(self).plugins@[i]);
                }
            }
        }
        Some(res)
    }
}

} // verus!
