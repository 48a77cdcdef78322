//! The node lifecycle controller.
//!
//! The controller owns the node's status, the shared handle to the running engine and what
//! the screens show. The presentation loop hands it one message at a time; [`Node::update`]
//! changes the state at once and answers with the [`NodeTask`] to run off the loop, whose
//! completion comes back as another message. The controller itself never blocks.
//!
//! `P` is the engine behind the shared handle and `B` a block as the engine delivers it.

use std::sync::Arc;

use vstd::prelude::*;
use vstd::string::*;

use crate::error::{error_text, BonsaiNodeError};
use crate::statistics::{NodeStatistics, StatisticsView};
use crate::tasks::after_stop;
use crate::util::{
    decimal,
    decimal_text,
    format_thousands,
    parse_digits_u32,
    parse_u32,
    strip_commas,
    thousands,
    without_commas,
};

verus! {

/// The life-cycle state of the engine.
pub enum NodeStatus {
    Inactive,
    Starting,
    Running,
    ShuttingDown,
    Failed(BonsaiNodeError),
}

impl Clone for NodeStatus {
    fn clone(&self) -> (r: NodeStatus)
        ensures
            r == *self,
    {
        match self {
            NodeStatus::Inactive => NodeStatus::Inactive,
            NodeStatus::Starting => NodeStatus::Starting,
            NodeStatus::Running => NodeStatus::Running,
            NodeStatus::ShuttingDown => NodeStatus::ShuttingDown,
            NodeStatus::Failed(e) => NodeStatus::Failed(e.clone()),
        }
    }
}

/// The text shown for a status.
pub open spec fn status_text(s: NodeStatus) -> Seq<char> {
    match s {
        NodeStatus::Inactive => "INACTIVE"@,
        NodeStatus::Starting => "STARTING"@,
        NodeStatus::Running => "RUNNING"@,
        NodeStatus::ShuttingDown => "SHUTTING DOWN"@,
        NodeStatus::Failed(e) => "FAILED ["@ + error_text(e) + "]"@,
    }
}

impl NodeStatus {
    /// The text shown for this status.
    pub fn label(&self) -> (r: String)
        ensures
            r@ == status_text(*self),
    {
        match self {
            NodeStatus::Inactive => String::from_str("INACTIVE"),
            NodeStatus::Starting => String::from_str("STARTING"),
            NodeStatus::Running => String::from_str("RUNNING"),
            NodeStatus::ShuttingDown => String::from_str("SHUTTING DOWN"),
            NodeStatus::Failed(e) => {
                let mut r = String::from_str("FAILED [");
                let text = e.message();
                r.append(text.as_str());
                r.append("]");
                r
            },
        }
    }
}

/// The three control actions offered to the user.
#[derive(Clone, Copy, Debug, PartialEq, Eq, Structural)]
pub enum ControlButton {
    Start,
    Restart,
    Shutdown,
}

/// Which control actions a status allows: starting from `Inactive` or `Failed`, restarting
/// and shutting down from `Running`, and nothing else.
pub open spec fn control_allowed(status: NodeStatus, button: ControlButton) -> bool {
    match button {
        ControlButton::Start => status is Inactive || status is Failed,
        ControlButton::Restart => status is Running,
        ControlButton::Shutdown => status is Running,
    }
}

/// Whether the control `button` is enabled in `status`.
pub fn control_enabled(status: &NodeStatus, button: ControlButton) -> (r: bool)
    ensures
        r == control_allowed(*status, button),
{
    match (status, button) {
        (NodeStatus::Inactive, ControlButton::Start) => true,
        (NodeStatus::Failed(_), ControlButton::Start) => true,
        (NodeStatus::Running, ControlButton::Restart) => true,
        (NodeStatus::Running, ControlButton::Shutdown) => true,
        _ => false,
    }
}

/// Milliseconds between two refresh ticks.
pub const TICK_MILLIS: u64 = 32;

/// Seconds between two statistics fetches.
pub const FETCH_STATISTICS_TIME: u64 = 1;

/// The recurring sources the presentation loop should listen to.
pub struct NodeSubscriptions {
    /// Milliseconds between refresh ticks, while the engine runs.
    pub tick_millis: Option<u64>,
    /// Milliseconds between statistics fetches, while the engine runs and polling is active.
    pub statistics_millis: Option<u64>,
    /// Whether to drain the engine's new-block notifications (as long as polling is).
    pub blocks: bool,
}

/// Statistics polling runs: it was switched on and the engine runs.
pub open spec fn polling<P, B>(s: NodeState<P, B>) -> bool {
    s.subscription_active && s.status is Running
}

/// How many of the newest blocks the controller keeps.
pub const LATEST_BLOCKS: usize = 5;

/// A request from the presentation loop, or the result of a task coming back.
pub enum NodeMessage<P, B> {
    /// Launch the engine.
    Start,
    /// Stop the engine and launch it again once it has stopped.
    Restart,
    /// The engine is being launched.
    Starting,
    /// The engine runs: its shared handle and the clock reading (milliseconds) at which it
    /// started.
    Running(Arc<P>, u64),
    /// Stop the engine.
    Shutdown,
    /// Teardown has begun.
    ShuttingDown,
    /// The engine has stopped.
    ShutdownComplete,
    /// The fast refresh tick, with the log buffer's version read at the tick.
    Tick(usize),
    /// The slow tick: fetch a new snapshot.
    GetStatistics,
    /// A fetched snapshot.
    Statistics(NodeStatistics),
    /// Empty the log buffer.
    ClearLogs,
    /// The peer address being typed changed.
    AddPeerInputChanged(String),
    /// Connect to the peer typed in.
    AddPeer,
    /// The engine connected to this peer.
    PeerConnected(String),
    /// Disconnect from this peer.
    DisconnectPeer(String),
    /// The engine disconnected from this peer.
    PeerDisconnected(String),
    /// Copy the accumulator's export text.
    CopyAccumulatorData,
    /// The block height being typed changed.
    BlockHeightInputChanged(String),
    /// Show the block at this height.
    BlockExplorerHeightUpdate(u64),
    /// Fetch the block at this height.
    FetchBlock(u64),
    /// The result of a block fetch.
    BlockFetched(Option<B>),
    /// The engine accepted a new block.
    NewBlock(B),
    /// Expand or collapse the transaction at this index.
    ToggleTransactionExpandedIdx(usize),
    /// An operation failed.
    Error(BonsaiNodeError),
}

/// Work for the caller to run off the presentation loop; each ends in one message.
pub enum NodeTask<P, B> {
    /// Nothing to run.
    Idle,
    /// Launch the engine; `Running` on success, `Error` on failure.
    Launch,
    /// Stop the engine behind `handle` (see `tasks::prepare_shutdown`); on success
    /// `Start` when restarting and `ShutdownComplete` otherwise, `Error` on failure.
    Stop { handle: Arc<P>, restart: bool },
    /// Deliver this message as it is.
    Done(NodeMessage<P, B>),
    /// Read the engine and build a snapshot with `start_time` as the start of its uptime.
    FetchStatistics { handle: Arc<P>, start_time: Option<u64> },
    /// Parse `address` and connect the engine to it.
    ConnectPeer { handle: Arc<P>, address: String },
    /// Disconnect the engine from `address`.
    DisconnectPeer { handle: Arc<P>, address: String },
    /// Fetch the block at `height`.
    FetchBlock { handle: Arc<P>, height: u64 },
    /// Put this text on the clipboard.
    WriteClipboard(String),
    /// Empty the shared log buffer.
    ClearLogs,
}

/// What the controller holds, with its texts and sequences as values.
pub struct NodeState<P, B> {
    pub handle: Option<Arc<P>>,
    pub status: NodeStatus,
    pub statistics: Option<StatisticsView>,
    pub subscription_active: bool,
    pub last_log_version: usize,
    pub start_time: Option<u64>,
    pub peer_input: Seq<char>,
    pub block_height_text: Seq<char>,
    pub latest_blocks: Seq<B>,
    pub current_block: Option<B>,
    pub expanded_tx_idx: Option<usize>,
}

/// The snapshot with its peer list emptied, so that no stale connection stays on screen.
pub open spec fn without_peers(s: Option<StatisticsView>) -> Option<StatisticsView> {
    match s {
        Some(v) => Some(StatisticsView { peers: Seq::empty(), ..v }),
        None => None,
    }
}

/// `b` in front of `blocks`, keeping the newest [`LATEST_BLOCKS`].
pub open spec fn push_latest<B>(blocks: Seq<B>, b: B) -> Seq<B> {
    let s = seq![b] + blocks;
    if s.len() > LATEST_BLOCKS {
        s.subrange(0, LATEST_BLOCKS as int)
    } else {
        s
    }
}

/// The text shown for a block height.
pub open spec fn height_text(h: nat) -> Seq<char> {
    thousands(decimal(h))
}

/// The state after the controller handles `m` in state `s`.
///
/// Shutting down or restarting stops polling, takes the handle out of the controller at once
/// and clears the peer list on screen. A snapshot is kept only while the engine runs, so a fetch that
/// completes after teardown began changes nothing. An error while the engine is being
/// launched is a launch failure and marks it `Failed`; any other error concerns one
/// operation and leaves the state as it is.
pub open spec fn step<P, B>(s: NodeState<P, B>, m: NodeMessage<P, B>) -> NodeState<P, B> {
    match m {
        NodeMessage::Start => NodeState { status: NodeStatus::Starting, ..s },
        NodeMessage::Restart => NodeState {
            status: NodeStatus::ShuttingDown,
            subscription_active: false,
            start_time: None,
            handle: None,
            statistics: without_peers(s.statistics),
            ..s
        },
        NodeMessage::Starting => NodeState {
            status: NodeStatus::Starting,
            subscription_active: false,
            ..s
        },
        NodeMessage::Running(h, t) => NodeState {
            handle: Some(h),
            status: NodeStatus::Running,
            subscription_active: true,
            start_time: Some(t),
            ..s
        },
        NodeMessage::Shutdown => NodeState {
            status: NodeStatus::ShuttingDown,
            subscription_active: false,
            start_time: None,
            handle: None,
            statistics: without_peers(s.statistics),
            ..s
        },
        NodeMessage::ShuttingDown => NodeState {
            status: NodeStatus::ShuttingDown,
            statistics: without_peers(s.statistics),
            ..s
        },
        NodeMessage::ShutdownComplete => NodeState {
            status: NodeStatus::Inactive,
            subscription_active: false,
            statistics: without_peers(s.statistics),
            ..s
        },
        NodeMessage::Tick(v) => NodeState { last_log_version: v, ..s },
        NodeMessage::Statistics(st) => if s.status is Running {
            NodeState { statistics: Some(st@), ..s }
        } else {
            s
        },
        NodeMessage::AddPeerInputChanged(p) => NodeState { peer_input: p@, ..s },
        NodeMessage::PeerConnected(_) => NodeState { peer_input: Seq::empty(), ..s },
        NodeMessage::BlockHeightInputChanged(v) => {
            let clean = without_commas(v@);
            if clean.len() == 0 {
                NodeState { block_height_text: Seq::empty(), ..s }
            } else {
                match parse_u32(clean) {
                    Some(h) => NodeState { block_height_text: height_text(h as nat), ..s },
                    None => s,
                }
            }
        },
        NodeMessage::BlockExplorerHeightUpdate(h) => NodeState {
            block_height_text: height_text(h as nat),
            ..s
        },
        NodeMessage::BlockFetched(b) => match b {
            Some(block) => NodeState { current_block: Some(block), ..s },
            None => s,
        },
        NodeMessage::ToggleTransactionExpandedIdx(i) => NodeState {
            expanded_tx_idx: if s.expanded_tx_idx == Some(i) {
                None
            } else {
                Some(i)
            },
            ..s
        },
        NodeMessage::NewBlock(b) => NodeState {
            latest_blocks: push_latest(s.latest_blocks, b),
            ..s
        },
        NodeMessage::Error(e) => if s.status is Starting {
            NodeState { status: NodeStatus::Failed(e), subscription_active: false, ..s }
        } else {
            s
        },
        _ => s,
    }
}

/// The error a peer command gets when there is no engine to send it to.
pub open spec fn is_not_running_error<P, B>(m: NodeMessage<P, B>) -> bool {
    m matches NodeMessage::Error(BonsaiNodeError::Generic(text)) && text@ == "Node not running"@
}

/// The task that fetching the block at `height` takes in state `s`.
pub open spec fn fetch_block_task<P, B>(s: NodeState<P, B>, height: u64, t: NodeTask<P, B>) -> bool {
    match s.handle {
        Some(h) => t == NodeTask::<P, B>::FetchBlock { handle: h, height },
        None => t is Idle,
    }
}

/// `t` is the task that the controller answers `m` with in state `s`.
pub open spec fn task_for<P, B>(s: NodeState<P, B>, m: NodeMessage<P, B>, t: NodeTask<P, B>) -> bool {
    match m {
        NodeMessage::Start => t is Launch,
        NodeMessage::Restart => match s.handle {
            Some(h) => t == NodeTask::<P, B>::Stop { handle: h, restart: true },
            None => t == NodeTask::<P, B>::Done(NodeMessage::Start),
        },
        NodeMessage::Shutdown => match s.handle {
            Some(h) => t == NodeTask::<P, B>::Stop { handle: h, restart: false },
            None => t == NodeTask::<P, B>::Done(NodeMessage::ShutdownComplete),
        },
        NodeMessage::GetStatistics => match s.handle {
            Some(h) => if s.subscription_active {
                t == NodeTask::<P, B>::FetchStatistics { handle: h, start_time: s.start_time }
            } else {
                t is Idle
            },
            None => t is Idle,
        },
        NodeMessage::AddPeer => match s.handle {
            Some(h) => t matches NodeTask::ConnectPeer { handle, address } && handle == h
                && address@ == s.peer_input,
            None => t matches NodeTask::Done(msg) && is_not_running_error(msg),
        },
        NodeMessage::DisconnectPeer(a) => match s.handle {
            Some(h) => t matches NodeTask::DisconnectPeer { handle, address } && handle == h
                && address@ == a@,
            None => t matches NodeTask::Done(msg) && is_not_running_error(msg),
        },
        NodeMessage::CopyAccumulatorData => match s.statistics {
            Some(st) => match st.export {
                Some(d) => t matches NodeTask::WriteClipboard(x) && x@ == d,
                None => t is Idle,
            },
            None => t is Idle,
        },
        NodeMessage::ClearLogs => t is ClearLogs,
        NodeMessage::BlockHeightInputChanged(v) => match parse_u32(without_commas(v@)) {
            Some(h) => fetch_block_task(s, h as u64, t),
            None => t is Idle,
        },
        NodeMessage::BlockExplorerHeightUpdate(h) => fetch_block_task(s, h, t),
        NodeMessage::FetchBlock(h) => fetch_block_task(s, h, t),
        _ => t is Idle,
    }
}

/// The lifecycle controller: the status, the engine's handle while it runs, the last
/// snapshot and the state of the peer and block screens.
pub struct Node<P, B> {
    handle: Option<Arc<P>>,
    status: NodeStatus,
    statistics: Option<NodeStatistics>,
    subscription_active: bool,
    last_log_version: usize,
    start_time: Option<u64>,
    peer_input: String,
    block_explorer_height_str: String,
    latest_blocks: Vec<B>,
    block_explorer_current_block: Option<B>,
    block_explorer_expanded_tx_idx: Option<usize>,
}

pub open spec fn opt_stats_view(s: Option<NodeStatistics>) -> Option<StatisticsView> {
    match s {
        Some(v) => Some(v@),
        None => None,
    }
}

impl<P, B> View for Node<P, B> {
    type V = NodeState<P, B>;

    closed spec fn view(&self) -> NodeState<P, B> {
        NodeState {
            handle: self.handle,
            status: self.status,
            statistics: opt_stats_view(self.statistics),
            subscription_active: self.subscription_active,
            last_log_version: self.last_log_version,
            start_time: self.start_time,
            peer_input: self.peer_input@,
            block_height_text: self.block_explorer_height_str@,
            latest_blocks: self.latest_blocks@,
            current_block: self.block_explorer_current_block,
            expanded_tx_idx: self.block_explorer_expanded_tx_idx,
        }
    }
}

/// Relies on Arc::clone: another pointer to the same shared value.
#[verifier::external_body]
fn share<P>(h: &Arc<P>) -> (r: Arc<P>)
    ensures
        r == *h,
{
    Arc::clone(h)
}

fn not_running<P, B>() -> (r: NodeMessage<P, B>)
    ensures
        is_not_running_error(r),
{
    NodeMessage::Error(BonsaiNodeError::Generic(String::from_str("Node not running")))
}

impl<P, B> Node<P, B> {
    /// A controller with no engine: inactive, nothing fetched, every input empty.
    pub fn new() -> (r: Node<P, B>)
        ensures
            r@.handle is None,
            r@.status is Inactive,
            r@.statistics is None,
            !r@.subscription_active,
            r@.last_log_version == 0,
            r@.start_time is None,
            r@.peer_input == Seq::<char>::empty(),
            r@.block_height_text == Seq::<char>::empty(),
            r@.latest_blocks == Seq::<B>::empty(),
            r@.current_block is None,
            r@.expanded_tx_idx is None,
    {
        Node {
            handle: None,
            status: NodeStatus::Inactive,
            statistics: None,
            subscription_active: false,
            last_log_version: 0,
            start_time: None,
            peer_input: String::new(),
            block_explorer_height_str: String::new(),
            latest_blocks: Vec::new(),
            block_explorer_current_block: None,
            block_explorer_expanded_tx_idx: None,
        }
    }

    fn clear_peers(&mut self)
        ensures
            final(self)@ == (NodeState {
                statistics: without_peers(old(self)@.statistics),
                ..old(self)@
            }),
    {
        match &mut self.statistics {
            Some(stats) => {
                stats.peer_informations = Vec::new();
            },
            None => {},
        }
        proof {
            assert(final(self)@.statistics == without_peers(old(self)@.statistics));
        }
    }

    fn fetch_block(&self, height: u64) -> (r: NodeTask<P, B>)
        ensures
            fetch_block_task(self@, height, r),
    {
        match &self.handle {
            Some(h) => NodeTask::FetchBlock { handle: share(h), height },
            None => NodeTask::Idle,
        }
    }

    fn show_height(&mut self, height: u64)
        ensures
            final(self)@ == (NodeState {
                block_height_text: height_text(height as nat),
                ..old(self)@
            }),
    {
        let digits = decimal_text(height);
        self.block_explorer_height_str = format_thousands(digits.as_str());
    }

    /// Handles one message: changes the state as [`step`] says and answers with the task
    /// that [`task_for`] names.
    pub fn update(&mut self, message: NodeMessage<P, B>) -> (r: NodeTask<P, B>)
        ensures
            final(self)@ == step(old(self)@, message),
            task_for(old(self)@, message, r),
    {
        match message {
            NodeMessage::Tick(current_version) => {
                if current_version != self.last_log_version {
                    self.last_log_version = current_version;
                }
                NodeTask::Idle
            },
            NodeMessage::Start => {
                self.status = NodeStatus::Starting;
                NodeTask::Launch
            },
            NodeMessage::Restart => {
                self.status = NodeStatus::ShuttingDown;
                self.subscription_active = false;
                self.start_time = None;
                self.clear_peers();
                match self.handle.take() {
                    Some(handle) => NodeTask::Stop { handle, restart: true },
                    None => NodeTask::Done(NodeMessage::Start),
                }
            },
            NodeMessage::Starting => {
                self.status = NodeStatus::Starting;
                self.subscription_active = false;
                NodeTask::Idle
            },
            NodeMessage::Running(handle, started_at) => {
                self.handle = Some(handle);
                self.status = NodeStatus::Running;
                self.subscription_active = true;
                self.start_time = Some(started_at);
                NodeTask::Idle
            },
            NodeMessage::Shutdown => {
                self.status = NodeStatus::ShuttingDown;
                self.subscription_active = false;
                self.start_time = None;
                self.clear_peers();
                match self.handle.take() {
                    Some(handle) => NodeTask::Stop { handle, restart: false },
                    None => NodeTask::Done(NodeMessage::ShutdownComplete),
                }
            },
            NodeMessage::ShuttingDown => {
                self.status = NodeStatus::ShuttingDown;
                self.clear_peers();
                NodeTask::Idle
            },
            NodeMessage::ShutdownComplete => {
                self.status = NodeStatus::Inactive;
                self.subscription_active = false;
                self.clear_peers();
                NodeTask::Idle
            },
            NodeMessage::Statistics(stats) => {
                let running = match &self.status {
                    NodeStatus::Running => true,
                    _ => false,
                };
                if running {
                    self.statistics = Some(stats);
                }
                NodeTask::Idle
            },
            NodeMessage::Error(e) => {
                let starting = match &self.status {
                    NodeStatus::Starting => true,
                    _ => false,
                };
                if starting {
                    self.status = NodeStatus::Failed(e);
                    self.subscription_active = false;
                }
                NodeTask::Idle
            },
            NodeMessage::GetStatistics => {
                if self.subscription_active {
                    match &self.handle {
                        Some(h) => NodeTask::FetchStatistics {
                            handle: share(h),
                            start_time: self.start_time,
                        },
                        None => NodeTask::Idle,
                    }
                } else {
                    NodeTask::Idle
                }
            },
            NodeMessage::AddPeerInputChanged(peer) => {
                self.peer_input = peer;
                NodeTask::Idle
            },
            NodeMessage::AddPeer => {
                match &self.handle {
                    Some(h) => NodeTask::ConnectPeer {
                        handle: share(h),
                        address: self.peer_input.clone(),
                    },
                    None => NodeTask::Done(not_running()),
                }
            },
            NodeMessage::PeerConnected(_peer) => {
                self.peer_input = String::new();
                NodeTask::Idle
            },
            NodeMessage::DisconnectPeer(socket) => {
                match &self.handle {
                    Some(h) => NodeTask::DisconnectPeer { handle: share(h), address: socket },
                    None => NodeTask::Done(not_running()),
                }
            },
            NodeMessage::PeerDisconnected(_peer) => NodeTask::Idle,
            NodeMessage::CopyAccumulatorData => {
                match &self.statistics {
                    Some(stats) => match &stats.accumulator_qr_data {
                        Some(data) => NodeTask::WriteClipboard(data.clone()),
                        None => NodeTask::Idle,
                    },
                    None => NodeTask::Idle,
                }
            },
            NodeMessage::ClearLogs => NodeTask::ClearLogs,
            NodeMessage::BlockHeightInputChanged(value) => {
                let clean = strip_commas(value.as_str());
                if clean.len() == 0 {
                    self.block_explorer_height_str = String::new();
                    NodeTask::Idle
                } else {
                    match parse_digits_u32(&clean) {
                        Some(height) => {
                            self.show_height(height as u64);
                            self.fetch_block(height as u64)
                        },
                        None => NodeTask::Idle,
                    }
                }
            },
            NodeMessage::BlockExplorerHeightUpdate(height) => {
                self.show_height(height);
                self.fetch_block(height)
            },
            NodeMessage::FetchBlock(height) => self.fetch_block(height),
            NodeMessage::BlockFetched(block) => {
                match block {
                    Some(b) => {
                        self.block_explorer_current_block = Some(b);
                    },
                    None => {},
                }
                NodeTask::Idle
            },
            NodeMessage::ToggleTransactionExpandedIdx(idx) => {
                let same = match self.block_explorer_expanded_tx_idx {
                    Some(cur) => cur == idx,
                    None => false,
                };
                if same {
                    self.block_explorer_expanded_tx_idx = None;
                } else {
                    self.block_explorer_expanded_tx_idx = Some(idx);
                }
                NodeTask::Idle
            },
            NodeMessage::NewBlock(block) => {
                self.latest_blocks.insert(0, block);
                if self.latest_blocks.len() > LATEST_BLOCKS {
                    self.latest_blocks.truncate(LATEST_BLOCKS);
                }
                proof {
                    assert(self.latest_blocks@ =~= push_latest(old(self).latest_blocks@, block));
                }
                NodeTask::Idle
            },
        }
    }
}

impl<P, B> Node<P, B> {
    /// The current status.
    pub fn status(&self) -> (r: &NodeStatus)
        ensures
            *r == self@.status,
    {
        &self.status
    }

    /// The last snapshot, if any.
    pub fn statistics(&self) -> (r: &Option<NodeStatistics>)
        ensures
            opt_stats_view(*r) == self@.statistics,
    {
        &self.statistics
    }

    /// Whether the engine's handle is held.
    pub fn has_handle(&self) -> (r: bool)
        ensures
            r == self@.handle is Some,
    {
        self.handle.is_some()
    }

    /// The engine's shared handle, if held.
    pub fn handle(&self) -> (r: &Option<Arc<P>>)
        ensures
            *r == self@.handle,
    {
        &self.handle
    }

    /// Takes the engine's handle out of the controller, for a stop done elsewhere.
    pub fn take_handle(&mut self) -> (r: Option<Arc<P>>)
        ensures
            r == old(self)@.handle,
            final(self)@ == (NodeState { handle: None, ..old(self)@ }),
    {
        self.handle.take()
    }

    /// The clock reading at which the engine started, while it runs.
    pub fn start_time(&self) -> (r: Option<u64>)
        ensures
            r == self@.start_time,
    {
        self.start_time
    }

    /// Whether statistics polling is active.
    pub fn subscription_active(&self) -> (r: bool)
        ensures
            r == self@.subscription_active,
    {
        self.subscription_active
    }

    /// The log version seen at the last tick.
    pub fn last_log_version(&self) -> (r: usize)
        ensures
            r == self@.last_log_version,
    {
        self.last_log_version
    }

    /// The peer address being typed.
    pub fn peer_input(&self) -> (r: &String)
        ensures
            r@ == self@.peer_input,
    {
        &self.peer_input
    }

    /// The block height text being shown.
    pub fn block_height_text(&self) -> (r: &String)
        ensures
            r@ == self@.block_height_text,
    {
        &self.block_explorer_height_str
    }

    /// The newest blocks, newest first.
    pub fn latest_blocks(&self) -> (r: &Vec<B>)
        ensures
            r@ == self@.latest_blocks,
    {
        &self.latest_blocks
    }

    /// The block being explored, if any.
    pub fn current_block(&self) -> (r: &Option<B>)
        ensures
            *r == self@.current_block,
    {
        &self.block_explorer_current_block
    }

    /// The index of the expanded transaction, if any.
    pub fn expanded_tx_idx(&self) -> (r: Option<usize>)
        ensures
            r == self@.expanded_tx_idx,
    {
        self.block_explorer_expanded_tx_idx
    }

    /// The sources to listen to. Every timer runs only while the engine runs: the refresh
    /// tick then, and while polling is also active the statistics timer and the stream of new
    /// blocks. A fetch fires on every timer tick even when the previous one is still running;
    /// whichever snapshot arrives last is kept.
    pub fn subscribe(&self) -> (r: NodeSubscriptions)
        ensures
            r.tick_millis == (if self@.status is Running {
                Some(TICK_MILLIS)
            } else {
                None
            }),
            r.statistics_millis == (if polling(self@) {
                Some((FETCH_STATISTICS_TIME * 1000) as u64)
            } else {
                None
            }),
            r.blocks == polling(self@),
    {
        let running = match &self.status {
            NodeStatus::Running => true,
            _ => false,
        };
        let active = running && self.subscription_active;
        NodeSubscriptions {
            tick_millis: if running {
                Some(TICK_MILLIS)
            } else {
                None
            },
            statistics_millis: if active {
                Some(FETCH_STATISTICS_TIME * 1000)
            } else {
                None
            },
            blocks: active,
        }
    }

    /// Stops statistics polling.
    pub fn unsubscribe(&mut self)
        ensures
            final(self)@ == (NodeState { subscription_active: false, ..old(self)@ }),
    {
        self.subscription_active = false;
    }
}

/// The state after the controller handles each of `msgs` in turn, starting in `s`.
pub open spec fn run<P, B>(s: NodeState<P, B>, msgs: Seq<NodeMessage<P, B>>) -> NodeState<P, B>
    decreases msgs.len(),
{
    if msgs.len() == 0 {
        s
    } else {
        run(step(s, msgs[0]), msgs.drop_first())
    }
}

/// No peer is on screen: there is no snapshot, or its peer list is empty.
pub open spec fn no_peers_shown<P, B>(s: NodeState<P, B>) -> bool {
    s.statistics matches Some(v) ==> v.peers.len() == 0
}

/// From any state, starting the engine, its coming up, a shutdown and the completion of
/// that shutdown leave the controller inactive and without a handle; the shutdown hands the
/// very handle that came up to the stop task, and a successful stop completes the shutdown.
pub proof fn lemma_start_to_shutdown_complete<P, B>(
    s: NodeState<P, B>,
    handle: Arc<P>,
    started_at: u64,
)
    ensures
        ({
            let s1 = step(s, NodeMessage::Start);
            let s2 = step(s1, NodeMessage::Running(handle, started_at));
            let s3 = step(s2, NodeMessage::Shutdown);
            let s4 = step(s3, after_stop::<P, B>(false));
            &&& s1.status is Starting
            &&& s2.status is Running && s2.handle == Some(handle) && s2.start_time == Some(
                started_at,
            )
            &&& s3.status is ShuttingDown && s3.handle is None
            &&& forall|t: NodeTask<P, B>|
                task_for(s2, NodeMessage::Shutdown, t) ==> t == NodeTask::<P, B>::Stop {
                    handle,
                    restart: false,
                }
            &&& s4.status is Inactive
            &&& s4.handle is None
        }),
{
}

/// A restart of a running engine passes through `ShuttingDown`, hands the old handle to
/// the stop task, launches again once the stop succeeded, and ends `Running` with the new
/// handle.
pub proof fn lemma_restart_runs_again<P, B>(
    s: NodeState<P, B>,
    new_handle: Arc<P>,
    started_at: u64,
)
    requires
        s.status is Running,
        s.handle is Some,
    ensures
        ({
            let s1 = step(s, NodeMessage::Restart);
            let s2 = step(s1, after_stop::<P, B>(true));
            let s3 = step(s2, NodeMessage::Running(new_handle, started_at));
            &&& s1.status is ShuttingDown
            &&& s1.handle is None
            &&& forall|t: NodeTask<P, B>|
                task_for(s, NodeMessage::Restart, t) ==> t == NodeTask::<P, B>::Stop {
                    handle: s.handle->0,
                    restart: true,
                }
            &&& s2.status is Starting
            &&& forall|t: NodeTask<P, B>| task_for(s1, after_stop::<P, B>(true), t) ==> t is Launch
            &&& s3.status is Running
            &&& s3.handle == Some(new_handle)
        }),
{
}

proof fn lemma_no_resurrection<P, B>(s: NodeState<P, B>, msgs: Seq<NodeMessage<P, B>>)
    requires
        !(s.status is Running),
        no_peers_shown(s),
        forall|i: int| 0 <= i < msgs.len() ==> !(#[trigger] msgs[i] is Running),
    ensures
        !(run(s, msgs).status is Running),
        no_peers_shown(run(s, msgs)),
    decreases msgs.len(),
{
    if msgs.len() > 0 {
        let next = step(s, msgs[0]);
        assert(!(msgs[0] is Running));
        assert forall|i: int| 0 <= i < msgs.drop_first().len() implies !(
        #[trigger] msgs.drop_first()[i] is Running) by {
            assert(msgs.drop_first()[i] == msgs[i + 1]);
        }
        lemma_no_resurrection(next, msgs.drop_first());
    }
}

/// Once a shutdown has completed, no snapshot that arrives later, after any messages that
/// do not bring up an engine again, puts a peer back on screen.
pub proof fn lemma_late_statistics_show_no_peers<P, B>(
    s: NodeState<P, B>,
    later: Seq<NodeMessage<P, B>>,
)
    requires
        forall|i: int| 0 <= i < later.len() ==> !(#[trigger] later[i] is Running),
    ensures
        no_peers_shown(run(step(s, NodeMessage::ShutdownComplete), later)),
{
    lemma_no_resurrection(step(s, NodeMessage::ShutdownComplete), later);
}

} // verus!
