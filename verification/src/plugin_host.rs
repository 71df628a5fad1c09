//! One hosted plugin: its metadata, its parameter cache, and the lifecycle
//! controller that is the only component allowed to move the real-time
//! processor between the control thread and the audio thread.
//!
//! Every transition is modelled by a spec function of the current state and
//! the outcome of the outside world's part (whether the plugin accepted
//! activation, whether the bridge had a free slot), and each executable
//! transition is proved to agree with its model exactly. A rejected
//! transition never changes anything.

use vstd::prelude::*;
use crate::bridge::{BridgeMessage, BridgeSender, Processor};
use crate::config::AudioConfiguration;
use crate::errors::{BridgeError, HostError, LifecycleError};
use crate::lifecycle::{LifecycleState, TransitionKind};
use crate::params::{MyParamInfoData, ParamValue};

verus! {

/// Marker for the host state a plugin may reach from any of its threads.
/// The embedding application wires the plugin interface's restart, process
/// and callback requests — and its log relay — to its own copy of this
/// handle; the verified core keeps no such state, so the marker is empty.
#[derive(Clone, Copy, Debug, Default, PartialEq, Eq, Structural)]
pub struct PluginHostShared;

/// The value a parameter cache holds after one flush: the value the plugin
/// read back, or the requested value itself when the plugin offers no
/// read-back.
pub open spec fn confirmed_value(requested: ParamValue, readback: Option<ParamValue>) -> ParamValue {
    match readback {
        Some(v) => v,
        None => requested,
    }
}

/// One parameter after a flush of `requested` for `param_id`: the matching
/// parameter carries the confirmed value, every other one is untouched.
pub open spec fn flushed_param(
    p: MyParamInfoData,
    param_id: u32,
    requested: ParamValue,
    readback: Option<ParamValue>,
) -> MyParamInfoData {
    if p.id == param_id {
        MyParamInfoData {
            id: p.id,
            flags: p.flags,
            name: p.name,
            module: p.module,
            min_value: p.min_value,
            max_value: p.max_value,
            default_value: p.default_value,
            value: confirmed_value(requested, readback),
        }
    } else {
        p
    }
}

/// The whole parameter list after one flush.
pub open spec fn set_value_model(
    params: Seq<MyParamInfoData>,
    param_id: u32,
    requested: ParamValue,
    readback: Option<ParamValue>,
) -> Seq<MyParamInfoData> {
    params.map_values(|p: MyParamInfoData| flushed_param(p, param_id, requested, readback))
}

/// A freshly enumerated parameter list: every descriptor as the plugin
/// declared it, with the declared default as the initial current value.
pub open spec fn params_with_defaults(ps: Seq<MyParamInfoData>) -> Seq<MyParamInfoData> {
    ps.map_values(
        |p: MyParamInfoData|
            MyParamInfoData {
                id: p.id,
                flags: p.flags,
                name: p.name,
                module: p.module,
                min_value: p.min_value,
                max_value: p.max_value,
                default_value: p.default_value,
                value: p.default_value,
            },
    )
}

/// What a just-loaded plugin handle looks like: named as the bundle's first
/// plugin entry declared, holding the enumerated parameters at their
/// defaults, with no processor allocated and nothing activated yet.
pub open spec fn fresh_load(h: PluginHost, name: String, ps: Seq<MyParamInfoData>) -> bool {
    &&& h.state == LifecycleState::Loaded
    &&& h.processor is None
    &&& h.config is None
    &&& h.processors_allocated == 0
    &&& h.name == name
    &&& h.params@ == params_with_defaults(ps)
}

/// One loaded plugin and its lifecycle controller.
///
/// The `processor` field is the control thread's hold on the real-time
/// processor. It is `Some` exactly in state `Activated`: starting processing
/// moves the handle out over the bridge, so while the audio thread may own
/// it the control side provably holds none, and the two can never own it at
/// once.
pub struct PluginHost {
    /// Display name of the loaded plugin.
    pub name: String,
    /// The ordered parameter cache, in enumeration order, stable for the
    /// life of the instance.
    pub params: Vec<MyParamInfoData>,
    /// Where in the lifecycle this plugin stands.
    pub state: LifecycleState,
    /// The processor the control thread currently holds, if any.
    pub processor: Option<Processor>,
    /// The configuration of the current activation, if any.
    pub config: Option<AudioConfiguration>,
    /// How many processors this handle has ever allocated; also the next
    /// processor identity.
    pub processors_allocated: u64,
}

impl PluginHost {
    /// Parameter ids are unique within a plugin instance.
    pub open spec fn params_unique(self) -> bool {
        forall|i: int, j: int|
            0 <= i < j < self.params@.len() ==> self.params@[i].id != self.params@[j].id
    }

    /// The controller's invariant: parameter ids are unique, the control
    /// side holds a processor exactly in `Activated`, and a configuration is
    /// held exactly while an activation exists (`Activated`, `Processing`,
    /// `Stopped`) and is well-formed.
    pub open spec fn wf(self) -> bool {
        &&& self.params_unique()
        &&& (self.state == LifecycleState::Activated <==> self.processor is Some)
        &&& (match self.state {
            LifecycleState::Activated
            | LifecycleState::Processing
            | LifecycleState::Stopped => self.config is Some,
            LifecycleState::Loaded
            | LifecycleState::Deactivated
            | LifecycleState::Unloaded => self.config is None,
        })
        &&& (self.config matches Some(c) ==> c.wf())
    }

    /// Builds the handle for a freshly loaded plugin from the bundle's
    /// enumeration: the plugin's display name and its declared parameters.
    /// Each parameter's current value starts at its declared default.
    pub fn new(name: String, params: Vec<MyParamInfoData>) -> (h: PluginHost)
        requires
            forall|i: int, j: int|
                0 <= i < j < params@.len() ==> params@[i].id != params@[j].id,
        ensures
            h.wf(),
            fresh_load(h, name, params@),
    {
        let ghost orig = params@;
        let mut ps = params;
        let n = ps.len();
        let mut i: usize = 0;
        while i < n
            invariant
                n == ps@.len(),
                ps@.len() == orig.len(),
                i <= n,
                forall|k: int| 0 <= k < i ==> ps@[k] == params_with_defaults(orig)[k],
                forall|k: int| i <= k < n ==> ps@[k] == orig[k],
            decreases n - i,
        {
            let d = ps[i].default_value;
            ps[i].value = d;
            i = i + 1;
        }
        proof {
            assert(ps@ =~= params_with_defaults(orig));
        }
        PluginHost {
            name,
            params: ps,
            state: LifecycleState::Loaded,
            processor: None,
            config: None,
            processors_allocated: 0,
        }
    }

    /// The plugin's display name.
    pub fn name(&self) -> (r: &str)
        ensures
            r@ == self.name@,
    {
        self.name.as_str()
    }

    /// How many processors this handle has ever allocated. Re-entrant
    /// activation does not raise it.
    pub fn allocation_count(&self) -> (n: u64)
        ensures
            n == self.processors_allocated,
    {
        self.processors_allocated
    }

    /// The model of `activate`: from `Loaded` or `Deactivated`, a processor
    /// is allocated for `config` if the plugin accepts — otherwise the
    /// activation failure is reported and nothing changes. When an
    /// activation already exists (`Activated` or `Processing`) the call is a
    /// no-op success and must not allocate a second processor. From
    /// `Stopped` or `Unloaded` the transition is rejected.
    pub open spec fn activate_model(self, config: AudioConfiguration, plugin_accepted: bool) -> (
        PluginHost,
        Result<(), LifecycleError>,
    ) {
        match self.state {
            LifecycleState::Activated | LifecycleState::Processing => (self, Ok(())),
            LifecycleState::Loaded | LifecycleState::Deactivated => {
                if plugin_accepted {
                    (
                        PluginHost {
                            name: self.name,
                            params: self.params,
                            state: LifecycleState::Activated,
                            processor: Some(Processor { id: self.processors_allocated }),
                            config: Some(config),
                            processors_allocated: (self.processors_allocated + 1) as u64,
                        },
                        Ok(()),
                    )
                } else {
                    (self, Err(LifecycleError::ActivationFailed))
                }
            },
            LifecycleState::Stopped | LifecycleState::Unloaded => (
                self,
                Err(
                    LifecycleError::InvalidTransition {
                        from: self.state,
                        attempted: TransitionKind::Activate,
                    },
                ),
            ),
        }
    }

    /// Activates the plugin against `config`. `plugin_accepted` is the
    /// outcome of the plugin's own activation call, which the embedding
    /// application performs on the control thread — and only needs to
    /// perform when no activation exists yet.
    pub fn activate(&mut self, config: AudioConfiguration, plugin_accepted: bool) -> (r: Result<
        (),
        LifecycleError,
    >)
        requires
            old(self).wf(),
            config.wf(),
            old(self).processors_allocated < u64::MAX,
        ensures
            final(self).wf(),
            (*final(self), r) == old(self).activate_model(config, plugin_accepted),
            r is Err ==> *final(self) == *old(self),
    {
        match self.state {
            LifecycleState::Activated | LifecycleState::Processing => Ok(()),
            LifecycleState::Loaded | LifecycleState::Deactivated => {
                if plugin_accepted {
                    self.processor = Some(Processor { id: self.processors_allocated });
                    self.config = Some(config);
                    self.state = LifecycleState::Activated;
                    self.processors_allocated = self.processors_allocated + 1;
                    Ok(())
                } else {
                    Err(LifecycleError::ActivationFailed)
                }
            },
            LifecycleState::Stopped | LifecycleState::Unloaded => Err(
                LifecycleError::InvalidTransition {
                    from: self.state,
                    attempted: TransitionKind::Activate,
                },
            ),
        }
    }

    /// The model of `start_processing`: only from `Activated`, and only if
    /// the bridge accepted the `Swap` message (`send_ok`), does the plugin
    /// enter `Processing` — with the processor moved out of the control
    /// side's hands. A full bridge changes nothing; the caller retries.
    pub open spec fn start_model(self, send_ok: bool) -> (PluginHost, Result<(), HostError>) {
        if self.state != LifecycleState::Activated {
            (
                self,
                Err(
                    HostError::Lifecycle(
                        LifecycleError::InvalidTransition {
                            from: self.state,
                            attempted: TransitionKind::StartProcessing,
                        },
                    ),
                ),
            )
        } else if send_ok {
            (
                PluginHost {
                    name: self.name,
                    params: self.params,
                    state: LifecycleState::Processing,
                    processor: None,
                    config: self.config,
                    processors_allocated: self.processors_allocated,
                },
                Ok(()),
            )
        } else {
            (self, Err(HostError::Bridge(BridgeError::Full)))
        }
    }

    /// Hands the processor to the audio thread as a `Swap` message and
    /// enters `Processing`. The transfer is fire-and-forget: the control
    /// thread does not wait for the audio thread to pick the message up.
    /// When the bridge is full, the processor comes back out of the
    /// rejected message and everything is left as it was.
    pub fn start_processing(&mut self, bridge: &mut BridgeSender) -> (r: Result<(), HostError>)
        requires
            old(self).wf(),
        ensures
            final(self).wf(),
            r is Ok ==> (*final(self), r) == old(self).start_model(true),
            r is Err ==> (*final(self), r) == old(self).start_model(false),
            r is Err ==> *final(self) == *old(self),
    {
        match self.state {
            LifecycleState::Activated => {
                let taken = self.processor.take();
                let handle = taken.unwrap();
                match bridge.send(BridgeMessage::Swap(handle)) {
                    Ok(()) => {
                        self.state = LifecycleState::Processing;
                        Ok(())
                    },
                    Err(m) => {
                        match m {
                            BridgeMessage::Swap(returned) => {
                                self.processor = Some(returned);
                            },
                            BridgeMessage::Clear => {
                                proof {
                                    assert(false);
                                }
                            },
                        }
                        Err(HostError::Bridge(BridgeError::Full))
                    },
                }
            },
            _ => Err(
                HostError::Lifecycle(
                    LifecycleError::InvalidTransition {
                        from: self.state,
                        attempted: TransitionKind::StartProcessing,
                    },
                ),
            ),
        }
    }

    /// The model of `stop_processing`: only from `Processing`, and only if
    /// the bridge accepted the `Clear` message, does the plugin enter
    /// `Stopped`. From then on the control thread is committed to never
    /// using the old processor again; the audio thread drops it on its next
    /// drain.
    pub open spec fn stop_model(self, send_ok: bool) -> (PluginHost, Result<(), HostError>) {
        if self.state != LifecycleState::Processing {
            (
                self,
                Err(
                    HostError::Lifecycle(
                        LifecycleError::InvalidTransition {
                            from: self.state,
                            attempted: TransitionKind::StopProcessing,
                        },
                    ),
                ),
            )
        } else if send_ok {
            (
                PluginHost {
                    name: self.name,
                    params: self.params,
                    state: LifecycleState::Stopped,
                    processor: None,
                    config: self.config,
                    processors_allocated: self.processors_allocated,
                },
                Ok(()),
            )
        } else {
            (self, Err(HostError::Bridge(BridgeError::Full)))
        }
    }

    /// Requests the audio thread to relinquish the processor by sending
    /// `Clear`. Stopping is a request, not an interrupt: the transition is
    /// complete once the control thread has committed to not using that
    /// processor again, which the move-only processor handle enforces.
    pub fn stop_processing(&mut self, bridge: &mut BridgeSender) -> (r: Result<(), HostError>)
        requires
            old(self).wf(),
        ensures
            final(self).wf(),
            r is Ok ==> (*final(self), r) == old(self).stop_model(true),
            r is Err ==> (*final(self), r) == old(self).stop_model(false),
            r is Err ==> *final(self) == *old(self),
    {
        match self.state {
            LifecycleState::Processing => {
                match bridge.send(BridgeMessage::Clear) {
                    Ok(()) => {
                        self.state = LifecycleState::Stopped;
                        Ok(())
                    },
                    Err(_) => Err(HostError::Bridge(BridgeError::Full)),
                }
            },
            _ => Err(
                HostError::Lifecycle(
                    LifecycleError::InvalidTransition {
                        from: self.state,
                        attempted: TransitionKind::StopProcessing,
                    },
                ),
            ),
        }
    }

    /// The model of `deactivate`: from `Activated` or `Stopped` the
    /// activation's resources are released — the held processor, if any, and
    /// the configuration are dropped. When no activation exists (`Loaded`,
    /// `Deactivated`) the call is a no-op success. While `Processing`, and
    /// after unload, the transition is rejected: processing must stop
    /// first, so a processor still owned by the audio thread can never be
    /// released under it.
    pub open spec fn deactivate_model(self) -> (PluginHost, Result<(), LifecycleError>) {
        match self.state {
            LifecycleState::Activated | LifecycleState::Stopped => (
                PluginHost {
                    name: self.name,
                    params: self.params,
                    state: LifecycleState::Deactivated,
                    processor: None,
                    config: None,
                    processors_allocated: self.processors_allocated,
                },
                Ok(()),
            ),
            LifecycleState::Loaded | LifecycleState::Deactivated => (self, Ok(())),
            LifecycleState::Processing | LifecycleState::Unloaded => (
                self,
                Err(
                    LifecycleError::InvalidTransition {
                        from: self.state,
                        attempted: TransitionKind::Deactivate,
                    },
                ),
            ),
        }
    }

    /// Releases the plugin-side activation resources.
    pub fn deactivate(&mut self) -> (r: Result<(), LifecycleError>)
        requires
            old(self).wf(),
        ensures
            final(self).wf(),
            (*final(self), r) == old(self).deactivate_model(),
            r is Err ==> *final(self) == *old(self),
    {
        match self.state {
            LifecycleState::Activated | LifecycleState::Stopped => {
                self.processor = None;
                self.config = None;
                self.state = LifecycleState::Deactivated;
                Ok(())
            },
            LifecycleState::Loaded | LifecycleState::Deactivated => Ok(()),
            LifecycleState::Processing | LifecycleState::Unloaded => Err(
                LifecycleError::InvalidTransition {
                    from: self.state,
                    attempted: TransitionKind::Deactivate,
                },
            ),
        }
    }

    /// The model of `unload`: the terminal transition. Unloading while
    /// `Processing` is a programming error that is repaired, not obeyed
    /// blindly: a stop (`Clear` over the bridge) and a deactivation are
    /// forced first, so no dangling cross-thread processor reference can
    /// survive — and if the bridge cannot carry the `Clear` yet, nothing
    /// changes and the caller retries. From any other live state the handle
    /// is released directly; a second unload is rejected.
    pub open spec fn unload_model(self, send_ok: bool) -> (PluginHost, Result<(), HostError>) {
        if self.state == LifecycleState::Unloaded {
            (
                self,
                Err(
                    HostError::Lifecycle(
                        LifecycleError::InvalidTransition {
                            from: self.state,
                            attempted: TransitionKind::Unload,
                        },
                    ),
                ),
            )
        } else if self.state == LifecycleState::Processing && !send_ok {
            (self, Err(HostError::Bridge(BridgeError::Full)))
        } else {
            (
                PluginHost {
                    name: self.name,
                    params: self.params,
                    state: LifecycleState::Unloaded,
                    processor: None,
                    config: None,
                    processors_allocated: self.processors_allocated,
                },
                Ok(()),
            )
        }
    }

    /// Drops the plugin handle, forcing a stop and a deactivation first if
    /// needed.
    pub fn unload(&mut self, bridge: &mut BridgeSender) -> (r: Result<(), HostError>)
        requires
            old(self).wf(),
        ensures
            final(self).wf(),
            r is Ok ==> (*final(self), r) == old(self).unload_model(true),
            r is Err ==> (*final(self), r) == old(self).unload_model(false),
            r is Err ==> *final(self) == *old(self),
    {
        match self.state {
            LifecycleState::Unloaded => Err(
                HostError::Lifecycle(
                    LifecycleError::InvalidTransition {
                        from: self.state,
                        attempted: TransitionKind::Unload,
                    },
                ),
            ),
            LifecycleState::Processing => {
                match bridge.send(BridgeMessage::Clear) {
                    Ok(()) => {
                        self.processor = None;
                        self.config = None;
                        self.state = LifecycleState::Unloaded;
                        Ok(())
                    },
                    Err(_) => Err(HostError::Bridge(BridgeError::Full)),
                }
            },
            _ => {
                self.processor = None;
                self.config = None;
                self.state = LifecycleState::Unloaded;
                Ok(())
            },
        }
    }

    /// Applies one parameter edit on the control thread. The embedding
    /// application submits exactly one change event for `param_id` with
    /// `requested` through the plugin's flush call, immediately re-queries
    /// the authoritative value, and passes it here as `readback`. The cache
    /// then holds what the plugin actually accepted — it may have clamped or
    /// quantized the request — or the requested value itself when the plugin
    /// offers no read-back. Nothing but the one parameter's current value
    /// changes.
    pub fn set_value(&mut self, param_id: u32, requested: ParamValue, readback: Option<ParamValue>)
        requires
            old(self).wf(),
        ensures
            final(self).wf(),
            final(self).params@ == set_value_model(
                old(self).params@,
                param_id,
                requested,
                readback,
            ),
            final(self).name == old(self).name,
            final(self).state == old(self).state,
            final(self).processor == old(self).processor,
            final(self).config == old(self).config,
            final(self).processors_allocated == old(self).processors_allocated,
    {
        let ghost orig = self.params@;
        let confirmed: ParamValue = match readback {
            Some(v) => v,
            None => requested,
        };
        let n = self.params.len();
        let mut i: usize = 0;
        while i < n
            invariant
                n == self.params@.len(),
                self.params@.len() == orig.len(),
                i <= n,
                confirmed == confirmed_value(requested, readback),
                forall|k: int|
                    0 <= k < i ==> self.params@[k] == flushed_param(
                        orig[k],
                        param_id,
                        requested,
                        readback,
                    ),
                forall|k: int| i <= k < n ==> self.params@[k] == orig[k],
                self.name == old(self).name,
                self.state == old(self).state,
                self.processor == old(self).processor,
                self.config == old(self).config,
                self.processors_allocated == old(self).processors_allocated,
            decreases n - i,
        {
            if self.params[i].id == param_id {
                self.params[i].value = confirmed;
            }
            i = i + 1;
        }
        proof {
            assert(self.params@ =~= set_value_model(orig, param_id, requested, readback));
        }
    }

    /// A snapshot of the parameter list, in enumeration order.
    pub fn list_params(&self) -> (r: Vec<MyParamInfoData>)
        ensures
            r@ == self.params@,
    {
        let mut out: Vec<MyParamInfoData> = Vec::new();
        let n = self.params.len();
        let mut i: usize = 0;
        while i < n
            invariant
                n == self.params@.len(),
                i <= n,
                out@ == self.params@.subrange(0, i as int),
            decreases n - i,
        {
            out.push(self.params[i].snapshot());
            proof {
                assert(self.params@.subrange(0, i + 1 as int) =~= self.params@.subrange(
                    0,
                    i as int,
                ).push(self.params@[i as int]));
            }
            i = i + 1;
        }
        proof {
            assert(out@ =~= self.params@);
        }
        out
    }
}

/// Lifecycle safety: every transition, whatever the plugin and the bridge
/// did, keeps the controller well-formed — in particular the control side
/// holds a processor exactly in `Activated`, so while the audio thread may
/// own one (`Processing`) the control side provably holds none, and the
/// processor is never owned by both sides at once — and every rejected
/// transition leaves the controller exactly as it was, with no partial
/// transition.
pub proof fn lemma_lifecycle_safety(
    h: PluginHost,
    config: AudioConfiguration,
    plugin_accepted: bool,
    send_ok: bool,
)
    requires
        h.wf(),
        config.wf(),
    ensures
        ({
            let (h2, r) = h.activate_model(config, plugin_accepted);
            h2.wf() && (r is Err ==> h2 == h)
        }),
        ({
            let (h2, r) = h.start_model(send_ok);
            h2.wf() && (r is Err ==> h2 == h)
        }),
        ({
            let (h2, r) = h.stop_model(send_ok);
            h2.wf() && (r is Err ==> h2 == h)
        }),
        ({
            let (h2, r) = h.deactivate_model();
            h2.wf() && (r is Err ==> h2 == h)
        }),
        ({
            let (h2, r) = h.unload_model(send_ok);
            h2.wf() && (r is Err ==> h2 == h)
        }),
{
}

/// One lifecycle request of any kind, applied to the controller's model:
/// the state it leaves behind, whatever the plugin (`plugin_accepted`) and
/// the bridge (`send_ok`) did.
pub open spec fn lifecycle_step(
    h: PluginHost,
    t: TransitionKind,
    config: AudioConfiguration,
    plugin_accepted: bool,
    send_ok: bool,
) -> PluginHost {
    match t {
        TransitionKind::Activate => h.activate_model(config, plugin_accepted).0,
        TransitionKind::StartProcessing => h.start_model(send_ok).0,
        TransitionKind::StopProcessing => h.stop_model(send_ok).0,
        TransitionKind::Deactivate => h.deactivate_model().0,
        TransitionKind::Unload => h.unload_model(send_ok).0,
    }
}

/// A whole script of lifecycle requests applied in order; each entry is one
/// request together with the plugin's and the bridge's behaviour at that
/// step.
pub open spec fn lifecycle_run(
    h: PluginHost,
    script: Seq<(TransitionKind, AudioConfiguration, bool, bool)>,
) -> PluginHost
    decreases script.len(),
{
    if script.len() == 0 {
        h
    } else {
        lifecycle_run(
            lifecycle_step(h, script[0].0, script[0].1, script[0].2, script[0].3),
            script.drop_first(),
        )
    }
}

/// Lifecycle safety over every call sequence: whatever sequence of
/// `activate`, `start_processing`, `stop_processing`, `deactivate` and
/// `unload` requests is issued, and however the plugin and the bridge
/// behave at each step, the controller stays well-formed throughout — so at
/// every point the control side holds a processor exactly in `Activated`,
/// and the processor can never be owned by both sides at once.
pub proof fn lemma_lifecycle_safety_sequences(
    h: PluginHost,
    script: Seq<(TransitionKind, AudioConfiguration, bool, bool)>,
)
    requires
        h.wf(),
        forall|i: int| 0 <= i < script.len() ==> (#[trigger] script[i]).1.wf(),
    ensures
        lifecycle_run(h, script).wf(),
    decreases script.len(),
{
    if script.len() > 0 {
        lemma_lifecycle_safety(h, script[0].1, script[0].2, script[0].3);
        let h1 = lifecycle_step(h, script[0].0, script[0].1, script[0].2, script[0].3);
        let rest = script.drop_first();
        assert forall|i: int| 0 <= i < rest.len() implies (#[trigger] rest[i]).1.wf() by {
            assert(rest[i] == script[i + 1]);
        }
        lemma_lifecycle_safety_sequences(h1, rest);
    }
}

/// Re-entrant activation is safe: activating from `Loaded` or `Deactivated`
/// allocates exactly one processor, and a second `activate` right after —
/// with the same or any other configuration — succeeds, changes nothing,
/// and allocates no second processor.
pub proof fn lemma_activate_idempotent(
    h: PluginHost,
    config: AudioConfiguration,
    config_again: AudioConfiguration,
    accepted_again: bool,
)
    requires
        h.wf(),
        h.state == LifecycleState::Loaded || h.state == LifecycleState::Deactivated,
        h.processors_allocated < u64::MAX,
    ensures
        ({
            let (h1, r1) = h.activate_model(config, true);
            let (h2, r2) = h1.activate_model(config_again, accepted_again);
            &&& r1 is Ok
            &&& h1.processors_allocated == h.processors_allocated + 1
            &&& r2 is Ok
            &&& h2 == h1
        }),
{
}

/// Parameter round-trip: after a flush of `requested` for `param_id` with
/// plugin read-back `readback`, the parameter list — which is exactly what
/// `list_params` snapshots — holds the plugin-confirmed value for that id
/// (the read-back value when the plugin reports one, even if the request
/// was out of range and got clamped; the requested value only when the
/// plugin offers no read-back), and every other parameter is untouched.
pub proof fn lemma_param_round_trip(
    params: Seq<MyParamInfoData>,
    param_id: u32,
    requested: ParamValue,
    readback: Option<ParamValue>,
    i: int,
)
    requires
        0 <= i < params.len(),
    ensures
        ({
            let after = set_value_model(params, param_id, requested, readback);
            &&& after.len() == params.len()
            &&& (params[i].id == param_id ==> after[i].value == confirmed_value(
                requested,
                readback,
            ))
            &&& (params[i].id != param_id ==> after[i] == params[i])
        }),
{
}

} // verus!
