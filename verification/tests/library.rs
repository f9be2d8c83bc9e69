use access_sync::codec::{from_node_id, root_node_id, to_node_id};
use access_sync::focus::{handle_focus, LastFocus};
use access_sync::queue::{poll_receivers, window_closed, Handlers, WinitActionHandler};
use access_sync::registry::Adapters;
use access_sync::sync::{
    remove_accessibility_nodes, update_accessibility_nodes, AccessibilityNode, NodePayload,
    TreeUpdateBatch,
};
use access_sync::{AccessError, AccessibilityPlugin, Stage, PRIMARY_WINDOW};

fn primary_adapters() -> Adapters<u8> {
    let mut adapters: Adapters<u8> = Adapters::new();
    adapters.register(PRIMARY_WINDOW, 0u8);
    adapters
}

#[test]
fn encode_never_zero_and_decodes_back() {
    for h in [0u64, 1, 5, 9, 12345, u64::MAX - 1, u64::MAX] {
        let id = to_node_id(h);
        assert_ne!(id, 0);
        assert_eq!(from_node_id(id), Ok(h));
    }
    assert_eq!(to_node_id(0), 1);
    assert_eq!(to_node_id(u64::MAX), u64::MAX as u128 + 1);
}

#[test]
fn decode_zero_fails() {
    assert_eq!(from_node_id(0), Err(AccessError::InvalidIdentifier));
}

#[test]
fn decode_above_handle_domain_fails() {
    assert_eq!(from_node_id(u64::MAX as u128 + 1), Ok(u64::MAX));
    assert_eq!(
        from_node_id(u64::MAX as u128 + 2),
        Err(AccessError::InvalidIdentifier)
    );
    assert_eq!(from_node_id(u128::MAX), Err(AccessError::InvalidIdentifier));
}

#[test]
fn root_id_is_window_id() {
    assert_eq!(root_node_id(PRIMARY_WINDOW), PRIMARY_WINDOW);
    assert_eq!(root_node_id(PRIMARY_WINDOW + 5), PRIMARY_WINDOW + 5);
}

#[test]
fn primary_root_never_collides_with_entity_ids() {
    // The window range starts above the image of the handle domain.
    assert!(PRIMARY_WINDOW > u64::MAX as u128 + 1);
    for h in [0u64, 1, 5, u64::MAX] {
        assert_ne!(root_node_id(PRIMARY_WINDOW), to_node_id(h));
    }
    // In particular the root identifier decodes to no entity handle.
    assert_eq!(
        from_node_id(root_node_id(PRIMARY_WINDOW)),
        Err(AccessError::InvalidIdentifier)
    );
}

#[test]
fn entity_zero_update_keeps_root_out_of_children() {
    let adapters = primary_adapters();
    let changed = vec![(0u64, AccessibilityNode(1u32))];
    let live = vec![0u64];
    let batch = update_accessibility_nodes(&adapters, changed, &live).unwrap();
    assert_eq!(batch.nodes[0].0, root_node_id(PRIMARY_WINDOW));
    match &batch.nodes[0].1 {
        NodePayload::WindowRoot { children } => {
            assert_eq!(children, &vec![to_node_id(0)]);
            assert!(!children.contains(&root_node_id(PRIMARY_WINDOW)));
        }
        NodePayload::Content(_) => panic!("expected the root entry"),
    }
}

#[test]
fn update_batch_two_nodes_root_first() {
    let adapters = primary_adapters();
    let changed = vec![
        (5u64, AccessibilityNode(10u32)),
        (9u64, AccessibilityNode(20u32)),
    ];
    let live = vec![5u64, 9u64];
    let batch = update_accessibility_nodes(&adapters, changed, &live).unwrap();
    assert_eq!(batch.focus, None);
    assert_eq!(batch.nodes.len(), 3);
    assert_eq!(batch.nodes[0].0, root_node_id(PRIMARY_WINDOW));
    assert_eq!(
        batch.nodes[0].1,
        NodePayload::WindowRoot {
            children: vec![to_node_id(5), to_node_id(9)],
        }
    );
    assert_eq!(batch.nodes[1].0, to_node_id(5));
    assert_eq!(batch.nodes[1].1, NodePayload::Content(AccessibilityNode(10)));
    assert_eq!(batch.nodes[2].0, to_node_id(9));
    assert_eq!(batch.nodes[2].1, NodePayload::Content(AccessibilityNode(20)));
}

#[test]
fn update_root_children_cover_all_live_nodes() {
    let adapters = primary_adapters();
    // Only entity 5 changed, but 3 and 9 are also live: the root's
    // child list must name all three.
    let changed = vec![(5u64, AccessibilityNode(1u32))];
    let live = vec![3u64, 5u64, 9u64];
    let batch = update_accessibility_nodes(&adapters, changed, &live).unwrap();
    assert_eq!(batch.nodes.len(), 2);
    assert_eq!(
        batch.nodes[0].1,
        NodePayload::WindowRoot {
            children: vec![to_node_id(3), to_node_id(5), to_node_id(9)],
        }
    );
}

#[test]
fn empty_changed_set_emits_nothing() {
    let adapters = primary_adapters();
    let changed: Vec<(u64, AccessibilityNode<u32>)> = Vec::new();
    let live = vec![3u64];
    assert_eq!(update_accessibility_nodes(&adapters, changed, &live), None);
}

#[test]
fn update_without_primary_adapter_emits_nothing() {
    let adapters: Adapters<u8> = Adapters::new();
    let changed = vec![(5u64, AccessibilityNode(1u32))];
    let live = vec![5u64];
    assert_eq!(update_accessibility_nodes(&adapters, changed, &live), None);
}

#[test]
fn removing_focused_entity_clears_focus_and_falls_back_to_root() {
    let adapters = primary_adapters();
    let mut last_focus = LastFocus::default();
    last_focus.from_entity(Some(7));
    let removed = vec![7u64];
    let remaining = vec![3u64];
    let batch: TreeUpdateBatch<u32> =
        remove_accessibility_nodes(&adapters, &mut last_focus, &removed, &remaining).unwrap();
    assert_eq!(last_focus.0, None);
    assert_eq!(batch.focus, Some(root_node_id(PRIMARY_WINDOW)));
    assert_eq!(batch.nodes.len(), 1);
    assert_eq!(
        batch.nodes[0],
        (
            root_node_id(PRIMARY_WINDOW),
            NodePayload::WindowRoot {
                children: vec![to_node_id(3)],
            }
        )
    );
}

#[test]
fn removing_other_entity_keeps_focus() {
    let adapters = primary_adapters();
    let mut last_focus = LastFocus::default();
    last_focus.from_entity(Some(9));
    let removed = vec![5u64];
    let remaining = vec![9u64];
    let batch: TreeUpdateBatch<u32> =
        remove_accessibility_nodes(&adapters, &mut last_focus, &removed, &remaining).unwrap();
    assert_eq!(last_focus.0, Some(to_node_id(9)));
    assert_eq!(batch.focus, Some(to_node_id(9)));
    assert_eq!(
        batch.nodes[0].1,
        NodePayload::WindowRoot {
            children: vec![to_node_id(9)],
        }
    );
}

#[test]
fn removal_children_never_name_removed_entities() {
    let adapters = primary_adapters();
    let mut last_focus = LastFocus::default();
    let removed = vec![4u64, 6u64];
    let remaining = vec![2u64, 8u64];
    let batch: TreeUpdateBatch<u32> =
        remove_accessibility_nodes(&adapters, &mut last_focus, &removed, &remaining).unwrap();
    match &batch.nodes[0].1 {
        NodePayload::WindowRoot { children } => {
            for r in &removed {
                assert!(!children.contains(&to_node_id(*r)));
            }
            assert_eq!(children, &vec![to_node_id(2), to_node_id(8)]);
        }
        NodePayload::Content(_) => panic!("expected the root entry"),
    }
}

#[test]
fn empty_removed_set_emits_nothing_and_keeps_focus() {
    let adapters = primary_adapters();
    let mut last_focus = LastFocus::default();
    last_focus.from_entity(Some(3));
    let removed: Vec<u64> = Vec::new();
    let remaining = vec![3u64];
    let r: Option<TreeUpdateBatch<u32>> =
        remove_accessibility_nodes(&adapters, &mut last_focus, &removed, &remaining);
    assert_eq!(r, None);
    assert_eq!(last_focus.0, Some(to_node_id(3)));
}

#[test]
fn focus_gained_without_memory_targets_window_root() {
    let adapters = primary_adapters();
    let last_focus = LastFocus::default();
    let events = vec![(PRIMARY_WINDOW, true)];
    let updates = handle_focus(&last_focus, &adapters, &events);
    assert_eq!(updates, vec![Some(root_node_id(PRIMARY_WINDOW))]);
}

#[test]
fn focus_events_in_order_gain_and_loss() {
    let adapters = primary_adapters();
    let mut last_focus = LastFocus::default();
    last_focus.from_entity(Some(4));
    let events = vec![
        (PRIMARY_WINDOW, true),
        (PRIMARY_WINDOW, false),
        (PRIMARY_WINDOW, true),
    ];
    let updates = handle_focus(&last_focus, &adapters, &events);
    assert_eq!(
        updates,
        vec![Some(to_node_id(4)), None, Some(to_node_id(4))]
    );
}

#[test]
fn focus_events_of_other_windows_are_ignored() {
    let adapters = primary_adapters();
    let last_focus = LastFocus::default();
    let events = vec![
        (PRIMARY_WINDOW + 7, true),
        (PRIMARY_WINDOW, true),
        (PRIMARY_WINDOW + 9, false),
    ];
    let updates = handle_focus(&last_focus, &adapters, &events);
    assert_eq!(updates, vec![Some(root_node_id(PRIMARY_WINDOW))]);
}

#[test]
fn focus_events_without_adapter_emit_nothing() {
    let adapters: Adapters<u8> = Adapters::new();
    let last_focus = LastFocus::default();
    let events = vec![(PRIMARY_WINDOW, true), (PRIMARY_WINDOW, false)];
    let updates = handle_focus(&last_focus, &adapters, &events);
    assert!(updates.is_empty());
}

#[test]
fn last_focus_entity_round_trip() {
    let mut last_focus = LastFocus::default();
    assert_eq!(last_focus.entity(), None);
    last_focus.from_entity(Some(12));
    assert_eq!(last_focus.entity(), Some(12));
    last_focus.note_focus(to_node_id(8));
    assert_eq!(last_focus.entity(), Some(8));
    last_focus.from_entity(None);
    assert_eq!(last_focus.entity(), None);
}

#[test]
fn queue_preserves_fifo_order_exactly_once() {
    let mut queue: WinitActionHandler<&str> = WinitActionHandler::new();
    queue.do_action("a");
    queue.do_action("b");
    queue.do_action("c");
    assert_eq!(queue.drain_all(), vec!["a", "b", "c"]);
    // A second drain delivers nothing: no request twice.
    assert_eq!(queue.drain_all(), Vec::<&str>::new());
}

#[test]
fn poll_receivers_drains_every_queue_in_order() {
    let mut handlers: Handlers<u32> = Handlers::new();
    let mut q1: WinitActionHandler<u32> = WinitActionHandler::new();
    q1.do_action(1);
    q1.do_action(2);
    let mut q2: WinitActionHandler<u32> = WinitActionHandler::new();
    q2.do_action(3);
    handlers.register(PRIMARY_WINDOW, q1);
    handlers.register(PRIMARY_WINDOW + 9, q2);
    let forwarded = poll_receivers(&mut handlers);
    assert_eq!(forwarded, vec![1, 2, 3]);
    // Queues stay registered and are now empty.
    let again = poll_receivers(&mut handlers);
    assert_eq!(again, Vec::<u32>::new());
}

#[test]
fn window_closed_evicts_adapter_and_queue() {
    let mut adapters: Adapters<u8> = Adapters::new();
    adapters.register(PRIMARY_WINDOW, 10u8);
    adapters.register(PRIMARY_WINDOW + 2, 20u8);
    let mut handlers: Handlers<u32> = Handlers::new();
    let mut q: WinitActionHandler<u32> = WinitActionHandler::new();
    q.do_action(5);
    handlers.register(PRIMARY_WINDOW, q);
    handlers.register(PRIMARY_WINDOW + 2, WinitActionHandler::new());

    window_closed(&mut adapters, &mut handlers, &vec![PRIMARY_WINDOW]);

    // The primary adapter and its queue are gone; pushes can no longer
    // target the closed window, and nothing of it is drained.
    assert!(adapters.get_primary_adapter().is_none());
    assert_eq!(poll_receivers(&mut handlers), Vec::<u32>::new());
    // The other window keeps its adapter untouched.
    assert_eq!(adapters.map.get(PRIMARY_WINDOW + 2), Some(&20u8));
}

#[test]
fn register_replaces_existing_adapter() {
    let mut adapters: Adapters<char> = Adapters::new();
    adapters.register(PRIMARY_WINDOW, 'a');
    adapters.register(PRIMARY_WINDOW, 'b');
    assert_eq!(adapters.get_primary_adapter(), Some(&'b'));
    adapters.remove(PRIMARY_WINDOW);
    assert_eq!(adapters.get_primary_adapter(), None);
    // Removing an absent key is a no-op.
    adapters.remove(PRIMARY_WINDOW);
    assert_eq!(adapters.get_primary_adapter(), None);
}

#[test]
fn accessibility_node_from_content() {
    let node = AccessibilityNode::from(42u32);
    assert_eq!(node, AccessibilityNode(42u32));
}

#[test]
fn plugin_schedules_passes_in_pipeline_order() {
    let plugin = AccessibilityPlugin;
    assert_eq!(
        plugin.schedule(),
        vec![
            Stage::HandleFocus,
            Stage::WindowClosed,
            Stage::PollReceivers,
            Stage::UpdateNodes,
            Stage::RemoveNodes,
        ]
    );
}
