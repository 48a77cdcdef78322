//! The decisions inside the controller's tasks.
//!
//! A task does its outside work (launching or stopping the engine, reading it, talking to
//! peers) off the presentation loop; the functions here turn what that work returned into
//! the one message the task ends with. Stopping also decides here whether the engine may be
//! stopped at all: only the sole holder of its shared handle may do that.

use std::sync::Arc;

use vstd::prelude::*;
use vstd::string::*;

use crate::control::NodeMessage;
use crate::error::BonsaiNodeError;
use crate::statistics::{assemble_statistics, snapshot_of, NodeReadings};
use crate::util::{decimal, decimal_text};

verus! {

/// Relies on Arc::try_unwrap: the shared value itself when this is its only strong pointer,
/// and otherwise the pointer handed back as it was.
#[verifier::external_body]
fn try_take_exclusive<P>(handle: Arc<P>) -> (r: Result<P, Arc<P>>)
    ensures
        match r {
            Ok(p) => p == *handle,
            Err(h) => h == handle,
        },
{
    Arc::try_unwrap(handle)
}

/// Relies on Arc::strong_count: how many strong pointers to the shared value exist at the
/// moment of the call (other holders may change it at any time); `handle` is one of them.
#[verifier::external_body]
fn holder_count<P>(handle: &Arc<P>) -> (r: usize)
    ensures
        r >= 1,
{
    Arc::strong_count(handle)
}

/// The message of a refused shutdown while `n` holders of the handle remain.
pub open spec fn conflict_text(n: nat) -> Seq<char> {
    "Cannot shutdown: "@ + decimal(n) + " references remain"@
}

/// The message of a refused shutdown while `count` holders of the handle remain.
pub fn conflict_message(count: usize) -> (r: String)
    ensures
        r@ == conflict_text(count as nat),
{
    let mut text = String::from_str("Cannot shutdown: ");
    let digits = decimal_text(count as u64);
    text.append(digits.as_str());
    text.append(" references remain");
    text
}

/// Reclaims sole ownership of the engine before it is stopped. When no other holder of the
/// handle remains, the engine itself comes back, to be shut down by its owner; otherwise
/// nothing is done to it, this holder's share is let go, and the error is the
/// [`conflict_message`] of the holder count read at that moment (this holder included).
pub fn prepare_shutdown<P>(handle: Arc<P>) -> (r: Result<P, String>)
    ensures
        match r {
            Ok(p) => p == *handle,
            Err(text) => exists|n: nat| n >= 1 && text@ == conflict_text(n),
        },
{
    match try_take_exclusive(handle) {
        Ok(p) => Ok(p),
        Err(shared) => {
            let count = holder_count(&shared);
            Err(conflict_message(count))
        },
    }
}

/// The message that a successful stop continues with: a restart launches the engine
/// again, a plain shutdown is complete.
pub open spec fn after_stop<P, B>(restart: bool) -> NodeMessage<P, B> {
    if restart {
        NodeMessage::Start
    } else {
        NodeMessage::ShutdownComplete
    }
}

/// The message a stop task ends with.
pub fn stop_outcome<P, B>(result: Result<(), BonsaiNodeError>, restart: bool) -> (r: NodeMessage<
    P,
    B,
>)
    ensures
        match result {
            Ok(()) => r == after_stop::<P, B>(restart),
            Err(e) => r == NodeMessage::<P, B>::Error(e),
        },
{
    match result {
        Ok(()) => if restart {
            NodeMessage::Start
        } else {
            NodeMessage::ShutdownComplete
        },
        Err(e) => NodeMessage::Error(e),
    }
}

/// The message a launch task ends with: the running engine with the clock reading `now`,
/// or the launch failure.
pub fn launch_outcome<P, B>(result: Result<Arc<P>, String>, now: u64) -> (r: NodeMessage<P, B>)
    ensures
        match result {
            Ok(h) => r == NodeMessage::<P, B>::Running(h, now),
            Err(text) => r == NodeMessage::<P, B>::Error(BonsaiNodeError::Generic(text)),
        },
{
    match result {
        Ok(h) => NodeMessage::Running(h, now),
        Err(text) => NodeMessage::Error(BonsaiNodeError::from(text)),
    }
}

/// The message a connect task ends with: the peer when the engine connected to it, an error
/// when it declined or failed.
pub fn connect_outcome<P, B>(result: Result<bool, BonsaiNodeError>, peer: String) -> (r:
    NodeMessage<P, B>)
    ensures
        match result {
            Ok(true) => r == NodeMessage::<P, B>::PeerConnected(peer),
            Ok(false) => r matches NodeMessage::Error(BonsaiNodeError::Generic(text))
                && text@ == "Failed to connect to peer"@,
            Err(e) => r == NodeMessage::<P, B>::Error(e),
        },
{
    match result {
        Ok(true) => NodeMessage::PeerConnected(peer),
        Ok(false) => NodeMessage::Error(
            BonsaiNodeError::Generic(String::from_str("Failed to connect to peer")),
        ),
        Err(e) => NodeMessage::Error(e),
    }
}

/// The message a disconnect task ends with.
pub fn disconnect_outcome<P, B>(result: Result<(), BonsaiNodeError>, peer: String) -> (r:
    NodeMessage<P, B>)
    ensures
        match result {
            Ok(()) => r == NodeMessage::<P, B>::PeerDisconnected(peer),
            Err(e) => r == NodeMessage::<P, B>::Error(e),
        },
{
    match result {
        Ok(()) => NodeMessage::PeerDisconnected(peer),
        Err(e) => NodeMessage::Error(e),
    }
}

/// The message a block fetch ends with, once the height was found: the block, or none when
/// the engine does not have it, or the failure.
pub fn block_outcome<P, B>(result: Result<Option<B>, BonsaiNodeError>) -> (r: NodeMessage<P, B>)
    ensures
        match result {
            Ok(b) => r == NodeMessage::<P, B>::BlockFetched(b),
            Err(e) => r == NodeMessage::<P, B>::Error(e),
        },
{
    match result {
        Ok(b) => NodeMessage::BlockFetched(b),
        Err(e) => NodeMessage::Error(e),
    }
}

/// The message a statistics fetch ends with: the snapshot built from the readings, or the
/// failure of any read (no partial snapshot is ever published).
pub fn statistics_outcome<P, B>(
    result: Result<NodeReadings, BonsaiNodeError>,
    start_time: Option<u64>,
    now: u64,
) -> (r: NodeMessage<P, B>)
    ensures
        match result {
            Ok(readings) => r matches NodeMessage::Statistics(stats) && snapshot_of(
                stats,
                readings,
                start_time,
                now,
            ),
            Err(e) => r == NodeMessage::<P, B>::Error(e),
        },
{
    match result {
        Ok(readings) => NodeMessage::Statistics(assemble_statistics(readings, start_time, now)),
        Err(e) => NodeMessage::Error(e),
    }
}

} // verus!
