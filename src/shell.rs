//! The application shell: the selected screen, the controller, and closing the window
//! without leaving the engine running.

use std::sync::Arc;

use vstd::prelude::*;

use crate::control::{step, task_for, Node, NodeMessage, NodeState, NodeTask};

verus! {

/// The screens of the application.
#[derive(Clone, Copy, Debug, PartialEq, Eq, Structural)]
pub enum Tab {
    BDKWallet,
    Phoenixd,
    Ark,
    NodeOverview,
    NodeP2P,
    NodeBlocks,
    NodeUtreexo,
    NodeMempool,
    NodeSettings,
    About,
}

impl Default for Tab {
    /// The node overview is shown first.
    fn default() -> (r: Tab)
        ensures
            r == Tab::NodeOverview,
    {
        Tab::NodeOverview
    }
}

/// Whether `tab` is one of the node's screens, which the controller drives.
pub open spec fn is_node_tab(tab: Tab) -> bool {
    !(tab is BDKWallet || tab is Phoenixd || tab is Ark || tab is About)
}

impl Tab {
    /// Whether this is one of the node's screens.
    pub fn is_node_tab(&self) -> (r: bool)
        ensures
            r == is_node_tab(*self),
    {
        match self {
            Tab::BDKWallet | Tab::Phoenixd | Tab::Ark | Tab::About => false,
            _ => true,
        }
    }
}

/// A message to the shell.
pub enum BonsaiMessage<P, B> {
    /// Show this screen.
    SelectTab(Tab),
    /// The user asked to close the window.
    CloseRequested,
    /// Close the window now.
    CloseWindow,
    /// A message for the node controller.
    Node(NodeMessage<P, B>),
}

/// Work for the caller to run after the shell handled a message.
pub enum BonsaiTask<P, B> {
    /// Nothing to run.
    Idle,
    /// Run the controller's task.
    Node(NodeTask<P, B>),
    /// Stop the engine behind this handle, then close the window whatever the stop gave.
    StopThenClose(Arc<P>),
    /// Close the window.
    CloseWindow,
}

/// The application: the selected screen and the node controller.
pub struct App<P, B> {
    pub active_tab: Tab,
    pub node: Node<P, B>,
}

impl<P, B> App<P, B> {
    /// The application at start: the node overview, with an inactive controller.
    pub fn new() -> (r: App<P, B>)
        ensures
            r.active_tab == Tab::NodeOverview,
            r.node@.status is Inactive,
            r.node@.handle is None,
    {
        App { active_tab: Tab::NodeOverview, node: Node::new() }
    }

    /// Handles one message. Closing while the engine runs first tells the controller that
    /// teardown has begun, stops polling and takes the handle out for the stop task.
    pub fn update(&mut self, message: BonsaiMessage<P, B>) -> (r: BonsaiTask<P, B>)
        ensures
            match message {
                BonsaiMessage::SelectTab(tab) => {
                    &&& final(self).active_tab == tab
                    &&& final(self).node@ == old(self).node@
                    &&& r is Idle
                },
                BonsaiMessage::CloseRequested => match old(self).node@.handle {
                    Some(h) => {
                        &&& final(self).active_tab == old(self).active_tab
                        &&& final(self).node@ == (NodeState {
                            handle: None,
                            subscription_active: false,
                            ..step(old(self).node@, NodeMessage::ShuttingDown)
                        })
                        &&& r == BonsaiTask::<P, B>::StopThenClose(h)
                    },
                    None => {
                        &&& final(self).active_tab == old(self).active_tab
                        &&& final(self).node@ == old(self).node@
                        &&& r is CloseWindow
                    },
                },
                BonsaiMessage::CloseWindow => {
                    &&& final(self).active_tab == old(self).active_tab
                    &&& final(self).node@ == old(self).node@
                    &&& r is CloseWindow
                },
                BonsaiMessage::Node(m) => {
                    &&& final(self).active_tab == old(self).active_tab
                    &&& final(self).node@ == step(old(self).node@, m)
                    &&& r matches BonsaiTask::Node(t) && task_for(old(self).node@, m, t)
                },
            },
    {
        match message {
            BonsaiMessage::SelectTab(tab) => {
                self.active_tab = tab;
                BonsaiTask::Idle
            },
            BonsaiMessage::CloseRequested => {
                if self.node.has_handle() {
                    self.node.update(NodeMessage::ShuttingDown);
                    self.node.unsubscribe();
                    match self.node.take_handle() {
                        Some(h) => BonsaiTask::StopThenClose(h),
                        None => BonsaiTask::CloseWindow,
                    }
                } else {
                    BonsaiTask::CloseWindow
                }
            },
            BonsaiMessage::CloseWindow => BonsaiTask::CloseWindow,
            BonsaiMessage::Node(m) => BonsaiTask::Node(self.node.update(m)),
        }
    }
}

} // verus!
