use vstd::prelude::*;

verus! {

/// Packet counter of one direction of a port.
pub struct PortStats {
    stats: usize,
}

impl PortStats {
    /// The number of packets counted so far.
    pub closed spec fn count(&self) -> nat {
        self.stats as nat
    }

    /// A counter that has counted nothing.
    pub fn new() -> (s: PortStats)
        ensures
            s.count() == 0,
    {
        PortStats { stats: 0 }
    }

    /// The number of packets counted so far.
    pub fn load(&self) -> (n: usize)
        ensures
            n == self.count(),
    {
        self.stats
    }

    /// Counts `n` more packets.
    pub fn add(&mut self, n: usize)
        requires
            old(self).count() + n <= usize::MAX,
        ensures
            final(self).count() == old(self).count() + n,
    {
        self.stats = self.stats + n;
    }
}

/// The packet count of a batch of `n_pkts` buffers as the buffer pool is
/// handed it: the batch length taken as an `i32`.
pub open spec fn batch_len_spec(n_pkts: usize) -> i32 {
    n_pkts as i32
}

/// What a batch of `n_pkts` buffers adds to a counter: its `i32` length
/// taken back as a `usize`.
pub open spec fn counted(len: i32) -> nat {
    (len as usize) as nat
}

/// The number of buffers that a receive obtains: the whole batch when the
/// pool reported success (status 0), none otherwise.
pub open spec fn received_len(n_pkts: usize, alloc_status: i32) -> i32 {
    if alloc_status == 0 {
        batch_len_spec(n_pkts)
    } else {
        0
    }
}

/// The counts `(received, sent)` of a port after a batch of `n_pkts` was sent.
pub open spec fn counts_after_send(c: (nat, nat), n_pkts: usize) -> (nat, nat) {
    (c.0, c.1 + counted(batch_len_spec(n_pkts)))
}

/// The counts `(received, sent)` of a port after a batch of `n_pkts` buffers
/// was asked for and the pool answered `alloc_status`.
pub open spec fn counts_after_recv(c: (nat, nat), n_pkts: usize, alloc_status: i32) -> (nat, nat) {
    (c.0 + counted(received_len(n_pkts, alloc_status)), c.1)
}

/// The counts `(received, sent)` of a port after the batches `batches` were
/// sent one after the other.
pub open spec fn counts_after_sends(c: (nat, nat), batches: Seq<usize>) -> (nat, nat)
    decreases batches.len(),
{
    if batches.len() == 0 {
        c
    } else {
        counts_after_send(counts_after_sends(c, batches.drop_last()), batches.last())
    }
}

/// The counts `(received, sent)` of a port after receives into the batches
/// `batches` one after the other, each a batch length and the pool's status.
pub open spec fn counts_after_recvs(c: (nat, nat), batches: Seq<(usize, i32)>) -> (nat, nat)
    decreases batches.len(),
{
    if batches.len() == 0 {
        c
    } else {
        let (n_pkts, alloc_status) = batches.last();
        counts_after_recv(counts_after_recvs(c, batches.drop_last()), n_pkts, alloc_status)
    }
}

/// The number of packets in all of `batches`.
pub open spec fn batches_total(batches: Seq<usize>) -> nat
    decreases batches.len(),
{
    if batches.len() == 0 {
        0
    } else {
        batches_total(batches.drop_last()) + batches.last() as nat
    }
}

/// The number of buffers in those of `batches` for which the pool reported
/// success (status 0).
pub open spec fn obtained_total(batches: Seq<(usize, i32)>) -> nat
    decreases batches.len(),
{
    if batches.len() == 0 {
        0
    } else {
        let (n_pkts, alloc_status) = batches.last();
        obtained_total(batches.drop_last()) + if alloc_status == 0 {
            n_pkts as nat
        } else {
            0
        }
    }
}

/// Sending and receiving count on counters of their own: a send and a
/// receive leave the same counts in either order.
pub proof fn lemma_send_recv_commute(c: (nat, nat), n_sent: usize, n_recv: usize, alloc_status: i32)
    ensures
        counts_after_recv(counts_after_send(c, n_sent), n_recv, alloc_status) == counts_after_send(
            counts_after_recv(c, n_recv, alloc_status),
            n_sent,
        ),
{
}

/// Every packet of every batch sent is counted: after a series of sends of
/// batches of at most `i32::MAX` packets, the sent count has grown by the
/// number of packets in all of them and the received count is unchanged.
pub proof fn lemma_sends_accumulate(c: (nat, nat), batches: Seq<usize>)
    requires
        forall|i: int| 0 <= i < batches.len() ==> #[trigger] batches[i] <= i32::MAX,
    ensures
        counts_after_sends(c, batches) == (c.0, c.1 + batches_total(batches)),
    decreases batches.len(),
{
    if batches.len() > 0 {
        lemma_sends_accumulate(c, batches.drop_last());
        assert(batches.last() == batches[batches.len() - 1]);
    }
}

/// Every buffer obtained is counted and no other: after a series of
/// receives into batches of at most `i32::MAX` buffers, the received count
/// has grown by the sizes of the batches for which the pool reported
/// success, and the sent count is unchanged.
pub proof fn lemma_recvs_accumulate(c: (nat, nat), batches: Seq<(usize, i32)>)
    requires
        forall|i: int| 0 <= i < batches.len() ==> #[trigger] batches[i].0 <= i32::MAX,
    ensures
        counts_after_recvs(c, batches) == (c.0 + obtained_total(batches), c.1),
    decreases batches.len(),
{
    if batches.len() > 0 {
        lemma_recvs_accumulate(c, batches.drop_last());
        assert(batches.last() == batches[batches.len() - 1]);
    }
}

/// The length of a batch of `n_pkts` buffers as the buffer pool takes it.
pub fn batch_len(n_pkts: usize) -> (len: i32)
    ensures
        len == batch_len_spec(n_pkts),
        n_pkts <= i32::MAX ==> len == n_pkts,
{
    n_pkts as i32
}

/// A port that sends and receives nothing on the wire: it counts the packets
/// of the batches that its queues send and receive.
pub struct SimulatePort {
    stats_rx: PortStats,
    stats_tx: PortStats,
}

/// A queue of a [`SimulatePort`]; what it sends and receives is counted on
/// the port.
#[derive(Clone, Copy)]
pub struct SimulateQueue {}

impl SimulatePort {
    /// The counts `(received, sent)` of the port.
    pub closed spec fn counts(&self) -> (nat, nat) {
        (self.stats_rx.count(), self.stats_tx.count())
    }

    /// A port that has counted nothing; the number of queues is not used.
    pub fn new(_queues: i32) -> (r: Result<SimulatePort, ()>)
        ensures
            r matches Ok(p) && p.counts() == (0nat, 0nat),
    {
        Ok(SimulatePort { stats_rx: PortStats::new(), stats_tx: PortStats::new() })
    }

    /// A queue of this port; the queue number is not used.
    pub fn new_simulate_queue(&self, _queue: i32) -> (r: Result<SimulateQueue, ()>)
        ensures
            r is Ok,
    {
        Ok(SimulateQueue {  })
    }

    /// The counts `(received, sent)` of the port.
    pub fn stats(&self) -> (r: (usize, usize))
        ensures
            (r.0 as nat, r.1 as nat) == self.counts(),
    {
        (self.stats_rx.load(), self.stats_tx.load())
    }
}

impl SimulateQueue {
    /// Sends a batch of `n_pkts` packets: the port counts them as sent, and
    /// the batch length is returned. The caller hands the buffers back to the
    /// pool, `batch_len(n_pkts)` of them.
    pub fn send(&self, port: &mut SimulatePort, n_pkts: usize) -> (r: Result<u32, ()>)
        requires
            old(port).counts().1 + counted(batch_len_spec(n_pkts)) <= usize::MAX,
        ensures
            final(port).counts() == counts_after_send(old(port).counts(), n_pkts),
            r == Ok::<u32, ()>(batch_len_spec(n_pkts) as u32),
            n_pkts <= i32::MAX ==> r == Ok::<u32, ()>(n_pkts as u32) && final(port).counts()
                == (old(port).counts().0, old(port).counts().1 + n_pkts as nat),
    {
        let len = batch_len(n_pkts);
        port.stats_tx.add(len as usize);
        Ok(len as u32)
    }

    /// Receives into a batch of `n_pkts` buffers, of which the pool obtained
    /// all when `alloc_status` is 0 and none otherwise: the port counts the
    /// buffers obtained as received, and their number is returned. The caller
    /// asks the pool for `batch_len(n_pkts)` buffers.
    pub fn recv(&self, port: &mut SimulatePort, n_pkts: usize, alloc_status: i32) -> (r: Result<
        u32,
        (),
    >)
        requires
            old(port).counts().0 + counted(received_len(n_pkts, alloc_status)) <= usize::MAX,
        ensures
            final(port).counts() == counts_after_recv(old(port).counts(), n_pkts, alloc_status),
            r == Ok::<u32, ()>(received_len(n_pkts, alloc_status) as u32),
            alloc_status != 0 ==> r == Ok::<u32, ()>(0) && final(port).counts() == old(
                port,
            ).counts(),
            alloc_status == 0 && n_pkts <= i32::MAX ==> r == Ok::<u32, ()>(n_pkts as u32)
                && final(port).counts() == (old(port).counts().0 + n_pkts as nat, old(port).counts().1),
    {
        let len = batch_len(n_pkts);
        let alloced: i32 = if alloc_status == 0 {
            len
        } else {
            0
        };
        port.stats_rx.add(alloced as usize);
        Ok(alloced as u32)
    }

    /// The queue's name.
    pub fn to_string(&self) -> (s: String)
        ensures
            s@ == "Simulate queue"@,
    {
        String::from_str("Simulate queue")
    }
}

} // verus!
