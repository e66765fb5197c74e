//! The browser-side view state: the display tree most recently received
//! from the server, and what to answer to each incoming frame.
use vstd::prelude::*;

use crate::wire::{Frame, WireFrame};

verus! {

/// What the client sends back in answer to a frame.
#[derive(Debug, Clone, Copy, PartialEq, Eq, Structural)]
pub enum Reply {
    /// Ask for a full snapshot.
    RequestSnapshot,
    /// Answer a ping with its sequence number.
    Pong(u64),
}

/// The tree shown after `frame` arrives while `tree` is shown, and the reply to it.
///
/// A snapshot replaces the tree. A delta is not applied: the client asks for a
/// full snapshot instead. A ping is answered with a pong carrying the same
/// sequence number. Every other frame, and an empty one, changes nothing.
pub open spec fn next_view<T>(tree: Option<T>, frame: WireFrame<T>) -> (Option<T>, Option<Reply>) {
    match frame.frame {
        Some(Frame::Snapshot(t)) => (Some(t), None),
        Some(Frame::Delta) => (tree, Some(Reply::RequestSnapshot)),
        Some(Frame::Ping(seq)) => (tree, Some(Reply::Pong(seq))),
        _ => (tree, None),
    }
}

/// The display tree the client currently renders (`None` until the first snapshot).
pub struct RemoteView<T> {
    tree: Option<T>,
}

impl<T> RemoteView<T> {
    /// The tree currently shown.
    pub closed spec fn shown(&self) -> Option<T> {
        self.tree
    }

    /// A view that has received nothing yet.
    pub fn new() -> (r: Self)
        ensures
            r.shown() is None,
    {
        RemoteView { tree: None }
    }

    /// The tree currently shown.
    pub fn tree(&self) -> (r: &Option<T>)
        ensures
            *r == self.shown(),
    {
        &self.tree
    }

    /// Process an incoming frame; returns what must be sent back, if anything.
    pub fn apply_frame(&mut self, frame: WireFrame<T>) -> (r: Option<Reply>)
        ensures
            (final(self).shown(), r) == next_view(old(self).shown(), frame),
    {
        match frame.frame {
            Some(Frame::Snapshot(tree)) => {
                self.tree = Some(tree);
                None
            },
            Some(Frame::Delta) => Some(Reply::RequestSnapshot),
            Some(Frame::Ping(seq)) => Some(Reply::Pong(seq)),
            _ => None,
        }
    }
}

/// A snapshot is shown as soon as it arrives, whatever was shown before, and
/// nothing is sent back for it.
pub proof fn lemma_snapshot_is_shown<T>(tree: Option<T>, t: T)
    ensures
        next_view(tree, WireFrame { frame: Some(Frame::Snapshot(t)) }) == (Some(t), None::<Reply>),
{
}

/// Only a snapshot changes the tree that is shown.
pub proof fn lemma_only_snapshots_change_the_view<T>(tree: Option<T>, frame: WireFrame<T>)
    requires
        !(frame.frame matches Some(Frame::Snapshot(_))),
    ensures
        next_view(tree, frame).0 == tree,
{
}

/// Every ping is answered with a pong that carries the ping's sequence number.
pub proof fn lemma_ping_answered_with_same_seq<T>(tree: Option<T>, seq: u64)
    ensures
        next_view(tree, WireFrame { frame: Some(Frame::Ping(seq)) }).1 == Some(Reply::Pong(seq)),
{
}

/// Of two snapshots received in a row, the later one is shown.
pub proof fn lemma_later_snapshot_wins<T>(tree: Option<T>, t1: T, t2: T)
    ensures
        next_view(
            next_view(tree, WireFrame { frame: Some(Frame::Snapshot(t1)) }).0,
            WireFrame { frame: Some(Frame::Snapshot(t2)) },
        ).0 == Some(t2),
{
}

/// A delta is not applied: the shown tree stays as it is and a full snapshot
/// is requested instead.
pub proof fn lemma_delta_requests_snapshot<T>(tree: Option<T>)
    ensures
        next_view(tree, WireFrame { frame: Some(Frame::Delta) }) == (tree, Some(Reply::RequestSnapshot)),
{
}

/// Only deltas and pings are answered; a ping is answered with a pong and a
/// delta with a snapshot request.
pub proof fn lemma_only_deltas_and_pings_answered<T>(tree: Option<T>, frame: WireFrame<T>)
    ensures
        next_view(tree, frame).1 matches Some(reply) ==> match reply {
            Reply::RequestSnapshot => frame.frame matches Some(Frame::Delta),
            Reply::Pong(seq) => frame.frame == Some(Frame::<T>::Ping(seq)),
        },
        (frame.frame matches Some(Frame::Delta)) || (frame.frame matches Some(Frame::Ping(_)))
            ==> next_view(tree, frame).1 is Some,
{
}

} // verus!
