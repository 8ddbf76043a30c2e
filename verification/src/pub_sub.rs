//! The channel through which the depth feed reaches the relay's clients.

use vstd::prelude::*;

verus! {

/// The sending half of a `tokio::sync::broadcast` channel.
#[verifier::external_type_specification]
#[verifier::external_body]
#[verifier::reject_recursive_types(T)]
pub struct ExBroadcastSender<T>(tokio::sync::broadcast::Sender<T>);

/// The capacity a broadcast channel was made with: the argument of the
/// `tokio::sync::broadcast::channel` call that created it, fixed for the
/// channel's lifetime (the channel rounds its buffer up to a power of two
/// internally; the name records the argument).
pub uninterp spec fn made_with_capacity(sender: tokio::sync::broadcast::Sender<String>) -> usize;

/// `tokio::sync::broadcast::channel(capacity)`, keeping its sending half
/// (receivers are made from it later). Its documentation says it panics when
/// `capacity` is 0 or exceeds `usize::MAX / 2`, which `requires` rules out.
/// The contract states only that the channel was made with `capacity`;
/// nothing is stated of its messages or receivers, which change over time.
#[verifier::external_body]
fn broadcast_sender(capacity: usize) -> (r: tokio::sync::broadcast::Sender<String>)
    requires
        0 < capacity <= usize::MAX / 2,
    ensures
        made_with_capacity(r) == capacity,
{
    tokio::sync::broadcast::channel(capacity).0
}

/// The capacity the relay's channel is made with. `tokio` rounds it up to the
/// next power of two (128), which is how many messages a slow receiver can
/// fall behind before it misses some.
pub const PUBSUB_CAPACITY: usize = 100;

/// A broadcast channel for the relayed messages, made with the capacity
/// `PUBSUB_CAPACITY`.
pub fn create_pubsub_channel() -> (r: tokio::sync::broadcast::Sender<String>)
    ensures
        made_with_capacity(r) == PUBSUB_CAPACITY,
{
    broadcast_sender(PUBSUB_CAPACITY)
}

} // verus!
