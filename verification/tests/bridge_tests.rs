use clap_host::adapter::AudioAdapter;
use clap_host::bridge::{bridge, BridgeMessage, Processor, BRIDGE_CAPACITY};
use clap_host::errors::ProcessingFault;

fn fresh(capacity: usize) -> (clap_host::bridge::BridgeSender, AudioAdapter) {
    bridge(capacity)
}

#[test]
fn fresh_adapter_has_no_processor() {
    let (_tx, adapter) = fresh(BRIDGE_CAPACITY);
    assert!(!adapter.has_processor());
    assert_eq!(adapter.current_processor_id(), None);
    assert_eq!(adapter.fault_count, 0);
}

#[test]
fn drain_on_empty_bridge_changes_nothing() {
    let (_tx, mut adapter) = fresh(BRIDGE_CAPACITY);
    adapter.drain();
    assert!(!adapter.has_processor());
    assert_eq!(adapter.current_processor_id(), None);
}

#[test]
fn swap_then_drain_installs_processor() {
    let (mut tx, mut adapter) = fresh(BRIDGE_CAPACITY);
    assert!(tx.send(BridgeMessage::Swap(Processor { id: 7 })).is_ok());
    adapter.drain();
    assert!(adapter.has_processor());
    assert_eq!(adapter.current_processor_id(), Some(7));
}

#[test]
fn clear_wins_over_preceding_swaps() {
    // A burst of Swap(a), Swap(b), Clear before one drain has exactly the
    // effect of Clear: no processor active, neither a nor b ever observed.
    let (mut tx, mut adapter) = fresh(BRIDGE_CAPACITY);
    assert!(tx.send(BridgeMessage::Swap(Processor { id: 1 })).is_ok());
    assert!(tx.send(BridgeMessage::Swap(Processor { id: 2 })).is_ok());
    assert!(tx.send(BridgeMessage::Clear).is_ok());
    adapter.drain();
    assert!(!adapter.has_processor());
    assert_eq!(adapter.current_processor_id(), None);
}

#[test]
fn last_swap_wins_over_earlier_swaps() {
    let (mut tx, mut adapter) = fresh(BRIDGE_CAPACITY);
    assert!(tx.send(BridgeMessage::Swap(Processor { id: 1 })).is_ok());
    assert!(tx.send(BridgeMessage::Swap(Processor { id: 2 })).is_ok());
    assert!(tx.send(BridgeMessage::Swap(Processor { id: 3 })).is_ok());
    adapter.drain();
    assert_eq!(adapter.current_processor_id(), Some(3));
}

#[test]
fn swap_after_clear_wins() {
    let (mut tx, mut adapter) = fresh(BRIDGE_CAPACITY);
    assert!(tx.send(BridgeMessage::Clear).is_ok());
    assert!(tx.send(BridgeMessage::Swap(Processor { id: 4 })).is_ok());
    adapter.drain();
    assert_eq!(adapter.current_processor_id(), Some(4));
}

#[test]
fn drained_state_persists_across_empty_drains() {
    let (mut tx, mut adapter) = fresh(BRIDGE_CAPACITY);
    assert!(tx.send(BridgeMessage::Swap(Processor { id: 5 })).is_ok());
    adapter.drain();
    adapter.drain();
    adapter.drain();
    assert_eq!(adapter.current_processor_id(), Some(5));
}

#[test]
fn full_bridge_returns_message_with_processor() {
    let (mut tx, _adapter) = fresh(1);
    assert!(tx.send(BridgeMessage::Clear).is_ok());
    // The queue holds one slot; the second send must fail fast and hand the
    // message - and the processor it carries - back to the caller.
    let rejected = tx.send(BridgeMessage::Swap(Processor { id: 9 }));
    match rejected {
        Err(BridgeMessage::Swap(p)) => assert_eq!(p.id, 9),
        _ => panic!("a full bridge must return the swap message unchanged"),
    }
}

#[test]
fn full_bridge_recovers_after_drain() {
    let (mut tx, mut adapter) = fresh(1);
    assert!(tx.send(BridgeMessage::Clear).is_ok());
    assert!(tx.send(BridgeMessage::Swap(Processor { id: 3 })).is_err());
    adapter.drain();
    assert!(tx.send(BridgeMessage::Swap(Processor { id: 3 })).is_ok());
    adapter.drain();
    assert_eq!(adapter.current_processor_id(), Some(3));
}

#[test]
fn callback_without_processor_leaves_buffer_untouched() {
    // The audio callback adapter decides whether plugin processing runs.
    // With no processor active a period over 512 zero-initialized samples
    // must leave the buffer exactly as the device delivered it.
    let (_tx, mut adapter) = fresh(BRIDGE_CAPACITY);
    let mut buffer = [0.0f32; 512];
    adapter.drain();
    if adapter.has_processor() {
        for sample in buffer.iter_mut() {
            *sample = 1.0;
        }
    }
    assert!(buffer.iter().all(|s| *s == 0.0));
}

#[test]
fn processing_fault_is_swallowed_and_counted() {
    let (mut tx, mut adapter) = fresh(BRIDGE_CAPACITY);
    assert!(tx.send(BridgeMessage::Swap(Processor { id: 1 })).is_ok());
    adapter.drain();
    adapter.finish_period(Ok(()));
    assert_eq!(adapter.fault_count, 0);
    adapter.finish_period(Err(ProcessingFault));
    assert_eq!(adapter.fault_count, 1);
    // The processor stays current: one bad period degrades, never unloads.
    assert_eq!(adapter.current_processor_id(), Some(1));
    adapter.finish_period(Err(ProcessingFault));
    assert_eq!(adapter.fault_count, 2);
}

#[test]
fn fault_count_saturates_instead_of_wrapping() {
    let (_tx, mut adapter) = fresh(BRIDGE_CAPACITY);
    adapter.fault_count = u64::MAX;
    adapter.finish_period(Err(ProcessingFault));
    assert_eq!(adapter.fault_count, u64::MAX);
}
