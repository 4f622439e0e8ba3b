//! UART batching: received bytes are published in batches, bytes to send
//! wait in a bounded queue.
use vstd::prelude::*;
use crate::channel::{new_uart_queue, queued_uart_bytes, receive_uart_bytes, send_uart_bytes, Fifo};

verus! {

/// Largest batch read from the UART at once.
pub const MAX_UART_BATCH: usize = 256;

/// Capacity of the transmit queue.
pub const UART_TX_QUEUE_CAPACITY: usize = 4;

/// One batch of received bytes, in arrival order.
#[derive(Clone, Debug)]
pub struct UartReceiveData {
    pub bytes: Vec<u8>,
}

/// The first `n` bytes of `s`, copied.
pub fn copy_prefix(s: &[u8], n: usize) -> (r: Vec<u8>)
    requires
        n <= s@.len(),
    ensures
        r@ == s@.subrange(0, n as int),
{
    let mut out: Vec<u8> = Vec::new();
    let mut i: usize = 0;
    while i < n
        invariant
            i <= n,
            n <= s@.len(),
            out@ == s@.subrange(0, i as int),
        decreases n - i,
    {
        out.push(s[i]);
        i = i + 1;
        assert(out@ =~= s@.subrange(0, i as int));
    }
    out
}

impl UartReceiveData {
    /// The batch to publish after a read that filled `n` bytes of `buffer`;
    /// an empty read publishes nothing.
    pub fn from_read(buffer: &[u8], n: usize) -> (r: Option<UartReceiveData>)
        requires
            n <= buffer@.len(),
        ensures
            n == 0 ==> r is None,
            n > 0 ==> (r matches Some(d) && d.bytes@ == buffer@.subrange(0, n as int)),
    {
        if n == 0 {
            None
        } else {
            Some(UartReceiveData { bytes: copy_prefix(buffer, n) })
        }
    }
}

/// Bytes waiting to be written to the UART.
pub struct UartHandle {
    tx: Fifo<Vec<u8>, UART_TX_QUEUE_CAPACITY>,
}

impl UartHandle {
    /// The byte strings waiting, oldest first.
    pub closed spec fn queued(&self) -> Seq<Vec<u8>> {
        queued_uart_bytes(self.tx)
    }

    pub fn new() -> (r: UartHandle)
        ensures
            r.queued().len() == 0,
    {
        UartHandle { tx: new_uart_queue() }
    }

    /// Queues a copy of `data` for transmission; when the queue is full the
    /// copy comes back.
    pub fn send(&mut self, data: &[u8]) -> (r: Result<(), Vec<u8>>)
        ensures
            old(self).queued().len() < UART_TX_QUEUE_CAPACITY ==> {
                &&& r is Ok
                &&& final(self).queued().len() == old(self).queued().len() + 1
                &&& final(self).queued().last()@ == data@
                &&& final(self).queued().drop_last() == old(self).queued()
            },
            old(self).queued().len() >= UART_TX_QUEUE_CAPACITY ==> (r matches Err(v) && v@ == data@
                && final(self).queued() == old(self).queued()),
    {
        let copy = copy_prefix(data, data.len());
        let ghost q = self.queued();
        let r = send_uart_bytes(&mut self.tx, copy);
        proof {
            if q.len() < UART_TX_QUEUE_CAPACITY {
                assert(self.queued().drop_last() =~= q);
            }
        }
        r
    }

    /// The oldest queued bytes, if any.
    pub fn next_transmit(&mut self) -> (r: Option<Vec<u8>>)
        ensures
            old(self).queued().len() == 0 ==> r is None && final(self).queued() == old(self).queued(),
            old(self).queued().len() > 0 ==> r == Some(old(self).queued()[0]) && final(self).queued()
                == old(self).queued().drop_first(),
    {
        receive_uart_bytes(&mut self.tx)
    }
}

} // verus!
