use clap_host::bridge::{bridge, BridgeMessage, Processor, BRIDGE_CAPACITY};
use clap_host::config::AudioConfiguration;
use clap_host::errors::{BridgeError, HostError, LifecycleError};
use clap_host::lifecycle::{LifecycleState, TransitionKind};
use clap_host::plugin_host::PluginHost;

fn test_config() -> AudioConfiguration {
    AudioConfiguration { sample_rate: 48000, min_frames: 32, max_frames: 32 }
}

fn loaded_host() -> PluginHost {
    PluginHost::new("Test Plugin".to_string(), vec![])
}

#[test]
fn new_host_is_loaded_with_nothing_allocated() {
    let host = loaded_host();
    assert_eq!(host.state, LifecycleState::Loaded);
    assert!(host.processor.is_none());
    assert!(host.config.is_none());
    assert_eq!(host.allocation_count(), 0);
    assert_eq!(host.name(), "Test Plugin");
}

#[test]
fn activate_allocates_exactly_once() {
    // A counting double: the plugin accepts every activation request, and
    // the allocation count observes how many processors were ever made.
    let mut host = loaded_host();
    assert_eq!(host.allocation_count(), 0);
    assert_eq!(host.activate(test_config(), true), Ok(()));
    assert_eq!(host.state, LifecycleState::Activated);
    assert_eq!(host.allocation_count(), 1);
    // Re-entrant activation with the same configuration: success, but no
    // second processor.
    assert_eq!(host.activate(test_config(), true), Ok(()));
    assert_eq!(host.state, LifecycleState::Activated);
    assert_eq!(host.allocation_count(), 1);
}

#[test]
fn activate_rejected_by_plugin_leaves_state_unchanged() {
    let mut host = loaded_host();
    assert_eq!(host.activate(test_config(), false), Err(LifecycleError::ActivationFailed));
    assert_eq!(host.state, LifecycleState::Loaded);
    assert!(host.processor.is_none());
    assert!(host.config.is_none());
    assert_eq!(host.allocation_count(), 0);
}

#[test]
fn full_lifecycle_walk() {
    let (mut tx, mut adapter) = bridge(BRIDGE_CAPACITY);
    let mut host = loaded_host();
    assert_eq!(host.activate(test_config(), true), Ok(()));
    assert_eq!(host.state, LifecycleState::Activated);

    assert_eq!(host.start_processing(&mut tx), Ok(()));
    assert_eq!(host.state, LifecycleState::Processing);
    // The processor left the control side and arrives on the audio side.
    assert!(host.processor.is_none());
    adapter.drain();
    assert_eq!(adapter.current_processor_id(), Some(0));

    assert_eq!(host.stop_processing(&mut tx), Ok(()));
    assert_eq!(host.state, LifecycleState::Stopped);
    adapter.drain();
    assert!(!adapter.has_processor());

    assert_eq!(host.deactivate(), Ok(()));
    assert_eq!(host.state, LifecycleState::Deactivated);
    assert!(host.config.is_none());

    // A second activation allocates a fresh processor.
    assert_eq!(host.activate(test_config(), true), Ok(()));
    assert_eq!(host.allocation_count(), 2);
    assert_eq!(host.state, LifecycleState::Activated);

    assert_eq!(host.unload(&mut tx), Ok(()));
    assert_eq!(host.state, LifecycleState::Unloaded);
}

#[test]
fn invalid_transitions_are_rejected_and_change_nothing() {
    let (mut tx, _adapter) = bridge(BRIDGE_CAPACITY);

    // start_processing before activation
    let mut host = loaded_host();
    assert_eq!(
        host.start_processing(&mut tx),
        Err(HostError::Lifecycle(LifecycleError::InvalidTransition {
            from: LifecycleState::Loaded,
            attempted: TransitionKind::StartProcessing,
        }))
    );
    assert_eq!(host.state, LifecycleState::Loaded);

    // stop_processing while merely activated
    assert_eq!(host.activate(test_config(), true), Ok(()));
    assert_eq!(
        host.stop_processing(&mut tx),
        Err(HostError::Lifecycle(LifecycleError::InvalidTransition {
            from: LifecycleState::Activated,
            attempted: TransitionKind::StopProcessing,
        }))
    );
    assert_eq!(host.state, LifecycleState::Activated);
    assert_eq!(host.allocation_count(), 1);

    // deactivate while processing
    assert_eq!(host.start_processing(&mut tx), Ok(()));
    assert_eq!(
        host.deactivate(),
        Err(LifecycleError::InvalidTransition {
            from: LifecycleState::Processing,
            attempted: TransitionKind::Deactivate,
        })
    );
    assert_eq!(host.state, LifecycleState::Processing);

    // activate from Stopped needs a full deactivate/activate cycle
    assert_eq!(host.stop_processing(&mut tx), Ok(()));
    assert_eq!(
        host.activate(test_config(), true),
        Err(LifecycleError::InvalidTransition {
            from: LifecycleState::Stopped,
            attempted: TransitionKind::Activate,
        })
    );
    assert_eq!(host.state, LifecycleState::Stopped);
    assert_eq!(host.allocation_count(), 1);
}

#[test]
fn deactivate_is_a_noop_when_not_activated() {
    let mut host = loaded_host();
    assert_eq!(host.deactivate(), Ok(()));
    assert_eq!(host.state, LifecycleState::Loaded);
    assert_eq!(host.activate(test_config(), true), Ok(()));
    assert_eq!(host.deactivate(), Ok(()));
    assert_eq!(host.state, LifecycleState::Deactivated);
    // Deactivating again stays a quiet success.
    assert_eq!(host.deactivate(), Ok(()));
    assert_eq!(host.state, LifecycleState::Deactivated);
}

#[test]
fn full_bridge_blocks_start_and_state_is_kept() {
    // One slot, already occupied: the Swap cannot be sent, the transition is
    // rolled back completely, and the processor stays on the control side.
    let (mut tx, mut adapter) = bridge(1);
    assert!(tx.send(BridgeMessage::Clear).is_ok());
    let mut host = loaded_host();
    assert_eq!(host.activate(test_config(), true), Ok(()));
    assert_eq!(host.start_processing(&mut tx), Err(HostError::Bridge(BridgeError::Full)));
    assert_eq!(host.state, LifecycleState::Activated);
    assert!(host.processor.is_some());
    assert_eq!(host.allocation_count(), 1);
    // After the audio side drained, the retry succeeds.
    adapter.drain();
    assert_eq!(host.start_processing(&mut tx), Ok(()));
    assert_eq!(host.state, LifecycleState::Processing);
    adapter.drain();
    assert_eq!(adapter.current_processor_id(), Some(0));
}

#[test]
fn full_bridge_blocks_stop_and_state_is_kept() {
    let (mut tx, mut adapter) = bridge(1);
    let mut host = loaded_host();
    assert_eq!(host.activate(test_config(), true), Ok(()));
    assert_eq!(host.start_processing(&mut tx), Ok(()));
    // Fill the single slot so the Clear cannot be sent.
    adapter.drain();
    assert!(tx.send(BridgeMessage::Swap(Processor { id: 99 })).is_ok());
    assert_eq!(host.stop_processing(&mut tx), Err(HostError::Bridge(BridgeError::Full)));
    assert_eq!(host.state, LifecycleState::Processing);
    adapter.drain();
    assert_eq!(host.stop_processing(&mut tx), Ok(()));
    assert_eq!(host.state, LifecycleState::Stopped);
}

#[test]
fn unload_while_processing_forces_stop() {
    let (mut tx, mut adapter) = bridge(BRIDGE_CAPACITY);
    let mut host = loaded_host();
    assert_eq!(host.activate(test_config(), true), Ok(()));
    assert_eq!(host.start_processing(&mut tx), Ok(()));
    adapter.drain();
    assert!(adapter.has_processor());
    // Unloading mid-processing must send the Clear itself rather than leave
    // a dangling cross-thread processor.
    assert_eq!(host.unload(&mut tx), Ok(()));
    assert_eq!(host.state, LifecycleState::Unloaded);
    adapter.drain();
    assert!(!adapter.has_processor());
}

#[test]
fn unload_twice_is_rejected(){
    let (mut tx, _adapter) = bridge(BRIDGE_CAPACITY);
    let mut host = loaded_host();
    assert_eq!(host.unload(&mut tx), Ok(()));
    assert_eq!(
        host.unload(&mut tx),
        Err(HostError::Lifecycle(LifecycleError::InvalidTransition {
            from: LifecycleState::Unloaded,
            attempted: TransitionKind::Unload,
        }))
    );
}

#[test]
fn processors_from_consecutive_activations_are_distinct() {
    let (mut tx, mut adapter) = bridge(BRIDGE_CAPACITY);
    let mut host = loaded_host();
    assert_eq!(host.activate(test_config(), true), Ok(()));
    assert_eq!(host.start_processing(&mut tx), Ok(()));
    assert_eq!(host.stop_processing(&mut tx), Ok(()));
    assert_eq!(host.deactivate(), Ok(()));
    assert_eq!(host.activate(test_config(), true), Ok(()));
    assert_eq!(host.start_processing(&mut tx), Ok(()));
    adapter.drain();
    // The second activation's processor, not the first, is current.
    assert_eq!(adapter.current_processor_id(), Some(1));
    assert!(tx.send(BridgeMessage::Clear).is_ok());
    adapter.drain();
    assert!(!adapter.has_processor());
}
