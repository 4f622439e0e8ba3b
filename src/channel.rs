//! The bounded FIFOs that carry commands between tasks: embassy-sync
//! channels, each owned by one handle and used through `&mut`, so that every
//! change to what they hold goes through the operations below. Every
//! operation is non-blocking: a full or empty FIFO is reported, and the task
//! that owns the handle waits before it tries again.
use vstd::prelude::*;
use embassy_sync::blocking_mutex::raw::NoopRawMutex;
use embassy_sync::channel::{Channel, TrySendError};
use crate::power::{PowerRequest, PowerResponse};
use crate::power_task::POWER_MAILBOX_CAPACITY;
use crate::uart::UART_TX_QUEUE_CAPACITY;

verus! {

/// An embassy-sync channel of at most `N` items.
#[verifier::external_body]
#[verifier::reject_recursive_types(T)]
pub struct Fifo<T, const N: usize> {
    inner: Channel<NoopRawMutex, T, N>,
}

/// The requests queued in a power controller mailbox, oldest first.
pub uninterp spec fn queued_power_requests(q: Fifo<PowerRequest, POWER_MAILBOX_CAPACITY>) -> Seq<PowerRequest>;

/// The responses queued in a power controller mailbox, oldest first.
pub uninterp spec fn queued_power_responses(q: Fifo<PowerResponse, POWER_MAILBOX_CAPACITY>) -> Seq<
    PowerResponse,
>;

/// The byte strings queued for the UART, oldest first.
pub uninterp spec fn queued_uart_bytes(q: Fifo<Vec<u8>, UART_TX_QUEUE_CAPACITY>) -> Seq<Vec<u8>>;

/// Relies on embassy-sync's `Channel::new`: a new channel holds nothing.
#[verifier::external_body]
pub(crate) fn new_power_requests() -> (q: Fifo<PowerRequest, POWER_MAILBOX_CAPACITY>)
    ensures
        queued_power_requests(q) == Seq::<PowerRequest>::empty(),
{
    Fifo { inner: Channel::new() }
}

/// Relies on embassy-sync's `Channel::try_send`: the item is appended unless
/// the channel holds its capacity already, in which case it comes back in
/// `TrySendError::Full` and nothing changes.
#[verifier::external_body]
pub(crate) fn send_power_request(
    q: &mut Fifo<PowerRequest, POWER_MAILBOX_CAPACITY>,
    item: PowerRequest,
) -> (r: Result<(), PowerRequest>)
    ensures
        queued_power_requests(*old(q)).len() < POWER_MAILBOX_CAPACITY ==> r is Ok,
        queued_power_requests(*old(q)).len() >= POWER_MAILBOX_CAPACITY ==> (r matches Err(x) && x == item),
        r is Ok ==> queued_power_requests(*final(q)) == queued_power_requests(*old(q)).push(item),
        r is Err ==> queued_power_requests(*final(q)) == queued_power_requests(*old(q)),
{
    match q.inner.try_send(item) {
        Ok(()) => Ok(()),
        Err(TrySendError::Full(item)) => Err(item),
    }
}

/// Relies on embassy-sync's `Channel::try_receive`: the oldest item leaves
/// the channel; an empty channel gives `TryReceiveError::Empty`.
#[verifier::external_body]
pub(crate) fn receive_power_request(q: &mut Fifo<PowerRequest, POWER_MAILBOX_CAPACITY>) -> (r: Option<
    PowerRequest,
>)
    ensures
        queued_power_requests(*old(q)).len() == 0 ==> r is None,
        queued_power_requests(*old(q)).len() > 0 ==> r == Some(queued_power_requests(*old(q))[0]),
        r is None ==> queued_power_requests(*final(q)) == queued_power_requests(*old(q)),
        r is Some ==> queued_power_requests(*final(q)) == queued_power_requests(*old(q)).drop_first(),
{
    q.inner.try_receive().ok()
}

/// Relies on embassy-sync's `Channel::new`: a new channel holds nothing.
#[verifier::external_body]
pub(crate) fn new_power_responses() -> (q: Fifo<PowerResponse, POWER_MAILBOX_CAPACITY>)
    ensures
        queued_power_responses(q) == Seq::<PowerResponse>::empty(),
{
    Fifo { inner: Channel::new() }
}

/// Relies on embassy-sync's `Channel::try_send`: the item is appended unless
/// the channel holds its capacity already, in which case it comes back in
/// `TrySendError::Full` and nothing changes.
#[verifier::external_body]
pub(crate) fn send_power_response(
    q: &mut Fifo<PowerResponse, POWER_MAILBOX_CAPACITY>,
    item: PowerResponse,
) -> (r: Result<(), PowerResponse>)
    ensures
        queued_power_responses(*old(q)).len() < POWER_MAILBOX_CAPACITY ==> r is Ok,
        queued_power_responses(*old(q)).len() >= POWER_MAILBOX_CAPACITY ==> (r matches Err(x) && x == item),
        r is Ok ==> queued_power_responses(*final(q)) == queued_power_responses(*old(q)).push(item),
        r is Err ==> queued_power_responses(*final(q)) == queued_power_responses(*old(q)),
{
    match q.inner.try_send(item) {
        Ok(()) => Ok(()),
        Err(TrySendError::Full(item)) => Err(item),
    }
}

/// Relies on embassy-sync's `Channel::try_receive`: the oldest item leaves
/// the channel; an empty channel gives `TryReceiveError::Empty`.
#[verifier::external_body]
pub(crate) fn receive_power_response(q: &mut Fifo<PowerResponse, POWER_MAILBOX_CAPACITY>) -> (r: Option<
    PowerResponse,
>)
    ensures
        queued_power_responses(*old(q)).len() == 0 ==> r is None,
        queued_power_responses(*old(q)).len() > 0 ==> r == Some(queued_power_responses(*old(q))[0]),
        r is None ==> queued_power_responses(*final(q)) == queued_power_responses(*old(q)),
        r is Some ==> queued_power_responses(*final(q)) == queued_power_responses(*old(q)).drop_first(),
{
    q.inner.try_receive().ok()
}

/// Relies on embassy-sync's `Channel::new`: a new channel holds nothing.
#[verifier::external_body]
pub(crate) fn new_uart_queue() -> (q: Fifo<Vec<u8>, UART_TX_QUEUE_CAPACITY>)
    ensures
        queued_uart_bytes(q) == Seq::<Vec<u8>>::empty(),
{
    Fifo { inner: Channel::new() }
}

/// Relies on embassy-sync's `Channel::try_send`: the item is appended unless
/// the channel holds its capacity already, in which case it comes back in
/// `TrySendError::Full` and nothing changes.
#[verifier::external_body]
pub(crate) fn send_uart_bytes(q: &mut Fifo<Vec<u8>, UART_TX_QUEUE_CAPACITY>, item: Vec<u8>) -> (r: Result<
    (),
    Vec<u8>,
>)
    ensures
        queued_uart_bytes(*old(q)).len() < UART_TX_QUEUE_CAPACITY ==> r is Ok,
        queued_uart_bytes(*old(q)).len() >= UART_TX_QUEUE_CAPACITY ==> (r matches Err(x) && x == item),
        r is Ok ==> queued_uart_bytes(*final(q)) == queued_uart_bytes(*old(q)).push(item),
        r is Err ==> queued_uart_bytes(*final(q)) == queued_uart_bytes(*old(q)),
{
    match q.inner.try_send(item) {
        Ok(()) => Ok(()),
        Err(TrySendError::Full(item)) => Err(item),
    }
}

/// Relies on embassy-sync's `Channel::try_receive`: the oldest item leaves
/// the channel; an empty channel gives `TryReceiveError::Empty`.
#[verifier::external_body]
pub(crate) fn receive_uart_bytes(q: &mut Fifo<Vec<u8>, UART_TX_QUEUE_CAPACITY>) -> (r: Option<Vec<u8>>)
    ensures
        queued_uart_bytes(*old(q)).len() == 0 ==> r is None,
        queued_uart_bytes(*old(q)).len() > 0 ==> r == Some(queued_uart_bytes(*old(q))[0]),
        r is None ==> queued_uart_bytes(*final(q)) == queued_uart_bytes(*old(q)),
        r is Some ==> queued_uart_bytes(*final(q)) == queued_uart_bytes(*old(q)).drop_first(),
{
    q.inner.try_receive().ok()
}

} // verus!
