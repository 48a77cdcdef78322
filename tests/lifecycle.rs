use std::sync::Arc;

use bonsai::control::{
    control_enabled, ControlButton, Node, NodeMessage, NodeStatus, NodeTask, FETCH_STATISTICS_TIME,
};
use bonsai::error::BonsaiNodeError;
use bonsai::shell::{App, BonsaiMessage, BonsaiTask, Tab};
use bonsai::statistics::{
    AccumulatorDigest, NodeReadings, NodeStatistics, PeerInfo, TransportProtocol,
};
use bonsai::tasks::{
    block_outcome, connect_outcome, disconnect_outcome, launch_outcome, prepare_shutdown,
    conflict_message, statistics_outcome, stop_outcome,
};

type TestNode = Node<u32, u32>;
type Msg = NodeMessage<u32, u32>;

fn mock_readings(peers: usize) -> NodeReadings {
    NodeReadings {
        in_ibd: false,
        headers: 1000,
        blocks: 1000,
        accumulator: AccumulatorDigest { leaves: 0, roots: vec![] },
        accumulator_bytes: Some(vec![0u8; 16]),
        user_agent: "/Floresta/".to_string(),
        peers: (0..peers)
            .map(|i| PeerInfo {
                address: format!("10.0.0.{i}:8333"),
                services: 1,
                user_agent: "/Satoshi:26.0.0/".to_string(),
                initial_height: 900,
                state: "Ready".to_string(),
                kind: "Regular".to_string(),
                transport_protocol: TransportProtocol::V1,
            })
            .collect(),
    }
}

fn stats_with_peers(peers: usize) -> NodeStatistics {
    match statistics_outcome::<u32, u32>(Ok(mock_readings(peers)), Some(0), 10) {
        NodeMessage::Statistics(s) => s,
        _ => panic!("expected a snapshot"),
    }
}

fn running_node(handle: Arc<u32>) -> TestNode {
    let mut node = TestNode::new();
    assert!(matches!(node.update(Msg::Start), NodeTask::Launch));
    assert!(matches!(node.update(Msg::Running(handle, 100)), NodeTask::Idle));
    node
}

fn run_stop(task: NodeTask<u32, u32>) -> Msg {
    match task {
        NodeTask::Stop { handle, restart } => {
            let result = prepare_shutdown(handle).map(|_| ()).map_err(BonsaiNodeError::from);
            stop_outcome(result, restart)
        }
        _ => panic!("expected a stop task"),
    }
}

#[test]
fn start_run_shutdown_ends_inactive_without_handle() {
    let mut node = running_node(Arc::new(7));
    assert!(matches!(node.status(), NodeStatus::Running));
    assert!(node.has_handle());
    let task = node.update(Msg::Shutdown);
    assert!(matches!(node.status(), NodeStatus::ShuttingDown));
    assert!(!node.has_handle());
    assert!(!node.subscription_active());
    let done = run_stop(task);
    assert!(matches!(done, NodeMessage::ShutdownComplete));
    node.update(done);
    assert!(matches!(node.status(), NodeStatus::Inactive));
    assert!(!node.has_handle());
    assert!(!node.subscription_active());
}

#[test]
fn shutdown_without_handle_completes_at_once() {
    let mut node = TestNode::new();
    let task = node.update(Msg::Shutdown);
    assert!(matches!(task, NodeTask::Done(NodeMessage::ShutdownComplete)));
}

#[test]
fn sole_holder_may_shut_down() {
    let handle = Arc::new(42u32);
    assert_eq!(prepare_shutdown(handle), Ok(42));
}

#[test]
fn shared_handle_refuses_shutdown() {
    let handle = Arc::new(42u32);
    let other = Arc::clone(&handle);
    assert_eq!(
        prepare_shutdown(handle),
        Err("Cannot shutdown: 2 references remain".to_string())
    );
    assert_eq!(*other, 42);
    assert_eq!(Arc::strong_count(&other), 1);
}

#[test]
fn shutdown_with_extra_holder_reports_count_and_stays_shutting_down() {
    let handle = Arc::new(1u32);
    let retained = Arc::clone(&handle);
    let mut node = running_node(handle);
    let task = node.update(Msg::Shutdown);
    let outcome = run_stop(task);
    match &outcome {
        NodeMessage::Error(e) => {
            let text = e.message();
            assert!(text.contains("2 references remain"), "{text}");
        }
        _ => panic!("expected an error"),
    }
    node.update(outcome);
    assert!(matches!(node.status(), NodeStatus::ShuttingDown));
    assert_eq!(*retained, 1);
}

#[test]
fn restart_passes_through_shutting_down_and_runs_again() {
    let mut node = running_node(Arc::new(1));
    let task = node.update(Msg::Restart);
    assert!(matches!(node.status(), NodeStatus::ShuttingDown));
    assert!(!node.subscription_active());
    let next = run_stop(task);
    assert!(matches!(next, NodeMessage::Start));
    assert!(matches!(node.update(next), NodeTask::Launch));
    assert!(matches!(node.status(), NodeStatus::Starting));
    let running = launch_outcome::<u32, u32>(Ok(Arc::new(2)), 500);
    node.update(running);
    assert!(matches!(node.status(), NodeStatus::Running));
    assert_eq!(node.handle().as_deref(), Some(&2));
    assert_eq!(node.start_time(), Some(500));
}

#[test]
fn restart_without_handle_starts_directly() {
    let mut node = TestNode::new();
    assert!(matches!(node.update(Msg::Restart), NodeTask::Done(NodeMessage::Start)));
}

#[test]
fn statistics_after_shutdown_complete_are_dropped() {
    let mut node = running_node(Arc::new(3));
    node.update(Msg::Statistics(stats_with_peers(2)));
    assert_eq!(node.statistics().as_ref().unwrap().peer_informations.len(), 2);
    node.update(Msg::ShutdownComplete);
    assert_eq!(node.statistics().as_ref().unwrap().peer_informations.len(), 0);
    node.update(Msg::Statistics(stats_with_peers(4)));
    assert_eq!(node.statistics().as_ref().unwrap().peer_informations.len(), 0);
}

#[test]
fn shutting_down_clears_peers_at_once() {
    let mut node = running_node(Arc::new(3));
    node.update(Msg::Statistics(stats_with_peers(2)));
    node.update(Msg::ShuttingDown);
    assert!(matches!(node.status(), NodeStatus::ShuttingDown));
    assert_eq!(node.statistics().as_ref().unwrap().peer_informations.len(), 0);
    assert_eq!(node.statistics().as_ref().unwrap().headers, 1000);
}

#[test]
fn start_then_running_then_fetch_gives_snapshot() {
    let mut node = TestNode::new();
    assert!(matches!(node.update(Msg::Start), NodeTask::Launch));
    assert!(matches!(node.status(), NodeStatus::Starting));
    node.update(launch_outcome(Ok(Arc::new(9)), 1_000));
    assert!(matches!(node.status(), NodeStatus::Running));
    assert!(node.has_handle());
    assert_eq!(node.start_time(), Some(1_000));
    let task = node.update(Msg::GetStatistics);
    let (handle, start) = match task {
        NodeTask::FetchStatistics { handle, start_time } => (handle, start_time),
        _ => panic!("expected a fetch"),
    };
    assert_eq!(*handle, 9);
    assert_eq!(start, Some(1_000));
    let msg = statistics_outcome::<u32, u32>(Ok(mock_readings(0)), start, 2_500);
    node.update(msg);
    let stats = node.statistics().as_ref().unwrap();
    assert!(!stats.in_ibd);
    assert_eq!(stats.headers, 1000);
    assert_eq!(stats.blocks, 1000);
    assert!(stats.peer_informations.is_empty());
    assert!(stats.uptime > 0);
    assert_eq!(stats.uptime, 1_500);
}

#[test]
fn no_fetch_without_polling_or_handle() {
    let mut node = TestNode::new();
    assert!(matches!(node.update(Msg::GetStatistics), NodeTask::Idle));
    let mut polling_off = running_node(Arc::new(1));
    polling_off.unsubscribe();
    assert!(matches!(polling_off.update(Msg::GetStatistics), NodeTask::Idle));
}

#[test]
fn launch_failure_marks_failed_and_allows_start() {
    let mut node = TestNode::new();
    node.update(Msg::Start);
    node.update(launch_outcome(Err("no data dir".to_string()), 0));
    assert!(matches!(node.status(), NodeStatus::Failed(_)));
    assert_eq!(node.status().label(), "FAILED [Generic Error: no data dir]");
    assert!(control_enabled(node.status(), ControlButton::Start));
    assert!(!control_enabled(node.status(), ControlButton::Shutdown));
}

#[test]
fn operation_error_while_running_keeps_running() {
    let mut node = running_node(Arc::new(1));
    node.update(Msg::Error(BonsaiNodeError::NodeExecError("peer gone".to_string())));
    assert!(matches!(node.status(), NodeStatus::Running));
}

#[test]
fn status_labels_and_controls() {
    assert_eq!(NodeStatus::Inactive.label(), "INACTIVE");
    assert_eq!(NodeStatus::ShuttingDown.label(), "SHUTTING DOWN");
    assert!(control_enabled(&NodeStatus::Inactive, ControlButton::Start));
    assert!(!control_enabled(&NodeStatus::Running, ControlButton::Start));
    assert!(control_enabled(&NodeStatus::Running, ControlButton::Restart));
    assert!(control_enabled(&NodeStatus::Running, ControlButton::Shutdown));
    assert!(!control_enabled(&NodeStatus::Starting, ControlButton::Shutdown));
    assert!(!control_enabled(&NodeStatus::ShuttingDown, ControlButton::Restart));
}

#[test]
fn error_texts() {
    assert_eq!(BonsaiNodeError::from("x".to_string()).message(), "Generic Error: x");
    assert_eq!(BonsaiNodeError::NodeBuildError("bad config".to_string()).message(), "bad config");
}

#[test]
fn peer_commands() {
    let mut idle = TestNode::new();
    match idle.update(Msg::AddPeer) {
        NodeTask::Done(NodeMessage::Error(e)) => assert_eq!(e.message(), "Generic Error: Node not running"),
        _ => panic!("expected an error"),
    }
    let mut node = running_node(Arc::new(1));
    node.update(Msg::AddPeerInputChanged("1.2.3.4:8333".to_string()));
    assert_eq!(node.peer_input(), "1.2.3.4:8333");
    match node.update(Msg::AddPeer) {
        NodeTask::ConnectPeer { address, .. } => assert_eq!(address, "1.2.3.4:8333"),
        _ => panic!("expected a connect"),
    }
    let connected = connect_outcome::<u32, u32>(Ok(true), "1.2.3.4:8333".to_string());
    node.update(connected);
    assert_eq!(node.peer_input(), "");
    match connect_outcome::<u32, u32>(Ok(false), "p".to_string()) {
        NodeMessage::Error(e) => assert_eq!(e.message(), "Generic Error: Failed to connect to peer"),
        _ => panic!("expected an error"),
    }
    match node.update(Msg::DisconnectPeer("5.6.7.8:8333".to_string())) {
        NodeTask::DisconnectPeer { address, .. } => assert_eq!(address, "5.6.7.8:8333"),
        _ => panic!("expected a disconnect"),
    }
    assert!(matches!(
        disconnect_outcome::<u32, u32>(Ok(()), "a".to_string()),
        NodeMessage::PeerDisconnected(_)
    ));
}

#[test]
fn block_explorer_input() {
    let mut node = running_node(Arc::new(1));
    match node.update(Msg::BlockHeightInputChanged("1,234,5".to_string())) {
        NodeTask::FetchBlock { height, .. } => assert_eq!(height, 12345),
        _ => panic!("expected a fetch"),
    }
    assert_eq!(node.block_height_text(), "12,345");
    assert!(matches!(node.update(Msg::BlockHeightInputChanged("12x".to_string())), NodeTask::Idle));
    assert_eq!(node.block_height_text(), "12,345");
    assert!(matches!(node.update(Msg::BlockHeightInputChanged(",".to_string())), NodeTask::Idle));
    assert_eq!(node.block_height_text(), "");
    match node.update(Msg::BlockExplorerHeightUpdate(1_000_000)) {
        NodeTask::FetchBlock { height, .. } => assert_eq!(height, 1_000_000),
        _ => panic!("expected a fetch"),
    }
    assert_eq!(node.block_height_text(), "1,000,000");
    let mut idle = TestNode::new();
    assert!(matches!(idle.update(Msg::FetchBlock(5)), NodeTask::Idle));
}

#[test]
fn blocks_and_transactions() {
    let mut node = TestNode::new();
    for b in 1..=7u32 {
        node.update(Msg::NewBlock(b));
    }
    assert_eq!(node.latest_blocks(), &vec![7, 6, 5, 4, 3]);
    node.update(block_outcome(Ok(Some(11))));
    assert_eq!(node.current_block(), &Some(11));
    node.update(block_outcome(Ok(None)));
    assert_eq!(node.current_block(), &Some(11));
    node.update(Msg::ToggleTransactionExpandedIdx(2));
    assert_eq!(node.expanded_tx_idx(), Some(2));
    node.update(Msg::ToggleTransactionExpandedIdx(3));
    assert_eq!(node.expanded_tx_idx(), Some(3));
    node.update(Msg::ToggleTransactionExpandedIdx(3));
    assert_eq!(node.expanded_tx_idx(), None);
}

#[test]
fn logs_ticks_and_clipboard() {
    let mut node = running_node(Arc::new(1));
    assert!(matches!(node.update(Msg::ClearLogs), NodeTask::ClearLogs));
    node.update(Msg::Tick(17));
    assert_eq!(node.last_log_version(), 17);
    assert!(matches!(node.update(Msg::CopyAccumulatorData), NodeTask::Idle));
    node.update(Msg::Statistics(stats_with_peers(0)));
    match node.update(Msg::CopyAccumulatorData) {
        NodeTask::WriteClipboard(text) => assert_eq!(text, "00".repeat(16)),
        _ => panic!("expected a clipboard write"),
    }
    let subs = node.subscribe();
    assert_eq!(subs.tick_millis, Some(32));
    assert_eq!(subs.statistics_millis, Some(FETCH_STATISTICS_TIME * 1000));
    assert!(subs.blocks);
    let idle = TestNode::new().subscribe();
    assert_eq!(idle.tick_millis, None);
    assert_eq!(idle.statistics_millis, None);
    assert!(!idle.blocks);
    node.update(Msg::Shutdown);
    let stopping = node.subscribe();
    assert_eq!(stopping.tick_millis, None);
    assert_eq!(stopping.statistics_millis, None);
    assert!(!stopping.blocks);
}

#[test]
fn closing_stops_a_running_engine_first() {
    let mut app: App<u32, u32> = App::new();
    assert_eq!(app.active_tab, Tab::NodeOverview);
    assert!(matches!(app.update(BonsaiMessage::SelectTab(Tab::NodeP2P)), BonsaiTask::Idle));
    assert_eq!(app.active_tab, Tab::NodeP2P);
    assert!(matches!(app.update(BonsaiMessage::CloseRequested), BonsaiTask::CloseWindow));
    app.update(BonsaiMessage::Node(NodeMessage::Running(Arc::new(5), 0)));
    match app.update(BonsaiMessage::CloseRequested) {
        BonsaiTask::StopThenClose(h) => assert_eq!(*h, 5),
        _ => panic!("expected a stop"),
    }
    assert!(matches!(app.node.status(), NodeStatus::ShuttingDown));
    assert!(!app.node.subscription_active());
    assert!(!app.node.has_handle());
    assert!(Tab::NodeBlocks.is_node_tab());
    assert!(!Tab::About.is_node_tab());
    assert_eq!(Tab::default(), Tab::NodeOverview);
}

#[test]
fn conflict_message_names_the_holder_count() {
    assert_eq!(conflict_message(2), "Cannot shutdown: 2 references remain");
    assert_eq!(conflict_message(1), "Cannot shutdown: 1 references remain");
    assert_eq!(conflict_message(12345), "Cannot shutdown: 12345 references remain");
}

#[test]
fn shutdown_refused_for_each_extra_holder_count() {
    for extra in 1..4usize {
        let handle = Arc::new(3u32);
        let kept: Vec<Arc<u32>> = (0..extra).map(|_| Arc::clone(&handle)).collect();
        assert_eq!(prepare_shutdown(handle), Err(conflict_message(extra + 1)));
        assert!(kept.iter().all(|h| **h == 3));
    }
}
