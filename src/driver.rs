use vstd::prelude::*;
use crate::block::{block_words, words_of_block, block_of_digest, digest_bytes, BLOCK_BYTES};
use crate::protocol::ResponseCode;

verus! {

/// What the kernel reports about a lease a client attached to its request.
#[derive(Clone, Copy, Debug, PartialEq, Eq, Structural)]
pub struct LeaseInfo {
    pub len: usize,
    pub readable: bool,
    pub writable: bool,
}

/// Status flags of the engine that decide how an interrupt is serviced.
#[derive(Clone, Copy, Debug, PartialEq, Eq, Structural)]
pub struct Status {
    /// An output block is ready in the digest ports.
    pub digest: bool,
    /// The engine wants another input block.
    pub waiting: bool,
    /// The engine reports an error.
    pub error: bool,
}

/// Which handler an interrupt is routed to.
#[derive(Clone, Copy, Debug, PartialEq, Eq, Structural)]
pub enum Route {
    /// Drain the block waiting in the digest ports.
    Drain,
    /// Feed the next source block.
    Feed,
    /// The engine reports an error. It is only logged: no reply is sent and
    /// the session, if any, is left in place, so it stalls.
    Fault,
    /// Nothing to do.
    Idle,
}

/// One access to the engine's register file, to be performed in order.
#[derive(Clone, Copy, Debug, PartialEq, Eq, Structural)]
pub enum RegOp {
    /// Trigger the start of a new operation (engine reset).
    StartOperation,
    /// Data memory barrier.
    DataBarrier,
    /// Instruction synchronisation barrier.
    InstructionBarrier,
    /// Write one word to the data-input port.
    WriteInput(u32),
    /// Spin until the engine no longer reports that it needs a key.
    AwaitKeyLatched,
    /// Enable the "wants input" interrupt source.
    EnableWaiting,
    /// Enable the "output ready" interrupt source.
    EnableDigest,
    /// Disable both the "output ready" and "wants input" interrupt sources.
    DisableInterrupts,
}

/// The single in-flight operation. `caller` is the reply capability of the
/// client; it leaves the session only inside the one reply sent to that client.
pub struct Session<C> {
    pub caller: C,
    pub len: usize,
    pub rpos: usize,
    pub wpos: usize,
}

/// Reply owed to a client: the caller capability and the result it is sent.
pub type Reply<C> = (C, Result<(), ResponseCode>);

/// Effects of handling one event: register accesses, then at most one reply.
pub struct Step<C> {
    pub ops: Vec<RegOp>,
    pub reply: Option<Reply<C>>,
}

/// Bookkeeping of a session, without its caller.
pub struct Progress {
    pub len: nat,
    pub rpos: nat,
    pub wpos: nat,
}

impl Progress {
    /// Output never outruns input, input never outruns the buffers, and both
    /// positions sit on block boundaries.
    pub open spec fn wf(self) -> bool {
        &&& self.wpos <= self.rpos <= self.len
        &&& self.rpos % 16 == 0
        &&& self.wpos % 16 == 0
    }

    /// A block was fed whose output has not been drained yet.
    pub open spec fn pending(self) -> bool {
        self.wpos < self.rpos
    }
}

/// Progress of a freshly admitted session over buffers of `len` bytes.
pub open spec fn started(len: nat) -> Progress {
    Progress { len, rpos: 0, wpos: 0 }
}

/// Result of an encrypt request, given whether the key argument is well
/// formed, whether a session is in flight, and the two leases.
pub open spec fn admission(
    key_ok: bool,
    busy: bool,
    src: Option<LeaseInfo>,
    dst: Option<LeaseInfo>,
) -> Result<(), ResponseCode> {
    if !key_ok {
        Err(ResponseCode::BadArg)
    } else if busy {
        Err(ResponseCode::Busy)
    } else if src.is_none() || !src.unwrap().readable {
        Err(ResponseCode::BadArg)
    } else if dst.is_none() || !dst.unwrap().writable {
        Err(ResponseCode::BadArg)
    } else if src.unwrap().len != dst.unwrap().len {
        Err(ResponseCode::BadArg)
    } else {
        Ok(())
    }
}

/// Register accesses that start an operation and load the key: reset, both
/// barriers so the reset cannot race the key writes, the four key words, the
/// wait for the key to latch, then the "wants input" interrupt.
pub open spec fn key_load_ops(key: Seq<u32>) -> Seq<RegOp> {
    seq![
        RegOp::StartOperation,
        RegOp::DataBarrier,
        RegOp::InstructionBarrier,
        RegOp::WriteInput(key[0]),
        RegOp::WriteInput(key[1]),
        RegOp::WriteInput(key[2]),
        RegOp::WriteInput(key[3]),
        RegOp::AwaitKeyLatched,
        RegOp::EnableWaiting,
    ]
}

/// Register accesses that feed one block: its four words, then the
/// "output ready" interrupt.
pub open spec fn feed_ops(words: Seq<u32>) -> Seq<RegOp> {
    seq![
        RegOp::WriteInput(words[0]),
        RegOp::WriteInput(words[1]),
        RegOp::WriteInput(words[2]),
        RegOp::WriteInput(words[3]),
        RegOp::EnableDigest,
    ]
}

/// Interrupt routing: output first, then input, then the error flag.
pub open spec fn route_of(s: Status) -> Route {
    if s.digest {
        Route::Drain
    } else if s.waiting {
        Route::Feed
    } else if s.error {
        Route::Fault
    } else {
        Route::Idle
    }
}

/// A feed: the session continues with `rpos` one block further when a whole
/// block was read inside the buffer; otherwise it ends with `BadArg`.
pub open spec fn feed_step(p: Progress, read_ok: bool) -> (Option<Progress>, Option<Result<(), ResponseCode>>)
{
    if read_ok && p.rpos + 16 <= p.len {
        (Some(Progress { rpos: p.rpos + 16, ..p }), None)
    } else {
        (None, Some(Err(ResponseCode::BadArg)))
    }
}

/// A drain of a pending block: `wpos` moves one block on when the block was
/// written inside the buffer, and the session ends in success once `wpos`
/// reaches `len`; a failed write ends it with `BadArg`.
pub open spec fn drain_step(p: Progress, written: bool) -> (Option<Progress>, Option<Result<(), ResponseCode>>)
{
    if written && p.wpos + 16 <= p.len {
        if p.wpos + 16 == p.len {
            (None, Some(Ok(())))
        } else {
            (Some(Progress { wpos: p.wpos + 16, ..p }), None)
        }
    } else {
        (None, Some(Err(ResponseCode::BadArg)))
    }
}

impl<C> Session<C> {
    pub open spec fn progress(&self) -> Progress {
        Progress { len: self.len as nat, rpos: self.rpos as nat, wpos: self.wpos as nat }
    }
}

/// Progress of an optional session.
pub open spec fn progress_of<C>(s: Option<Session<C>>) -> Option<Progress> {
    match s {
        Some(s) => Some(s.progress()),
        None => None,
    }
}

/// Routes an interrupt by the engine's status flags.
pub fn route(s: Status) -> (r: Route)
    ensures
        r == route_of(s),
{
    if s.digest {
        Route::Drain
    } else if s.waiting {
        Route::Feed
    } else if s.error {
        Route::Fault
    } else {
        Route::Idle
    }
}

/// The driver's state: at most one session.
pub struct Driver<C> {
    pub session: Option<Session<C>>,
}

impl<C> Driver<C> {
    pub open spec fn wf(&self) -> bool {
        match self.session {
            Some(s) => s.progress().wf(),
            None => true,
        }
    }

    /// A driver with no session in flight.
    pub fn new() -> (r: Driver<C>)
        ensures
            r.session.is_none(),
            r.wf(),
    {
        Driver { session: None }
    }

    /// Whether a session is in flight.
    pub fn is_busy(&self) -> (r: bool)
        ensures
            r == self.session.is_some(),
    {
        self.session.is_some()
    }

    /// Admits an encrypt request. On success the session is created and the
    /// register accesses that reset the engine and load the key are returned;
    /// on rejection the driver is left as it was and the caller is handed back
    /// with the code it is owed.
    pub fn encrypt(
        &mut self,
        key: Option<[u32; 4]>,
        src: Option<LeaseInfo>,
        dst: Option<LeaseInfo>,
        caller: C,
    ) -> (r: Result<Vec<RegOp>, (C, ResponseCode)>)
        requires
            old(self).wf(),
        ensures
            final(self).wf(),
            match admission(key.is_some(), old(self).session.is_some(), src, dst) {
                Ok(()) => {
                    &&& r.is_ok()
                    &&& r->Ok_0@ == key_load_ops(key.unwrap()@)
                    &&& final(self).session == Some(
                        (Session { caller, len: dst.unwrap().len, rpos: 0, wpos: 0 }),
                    )
                },
                Err(e) => {
                    &&& r == Err::<Vec<RegOp>, (C, ResponseCode)>((caller, e))
                    &&& *final(self) == *old(self)
                },
            },
    {
        let key = match key {
            Some(k) => k,
            None => return Err((caller, ResponseCode::BadArg)),
        };
        if self.session.is_some() {
            return Err((caller, ResponseCode::Busy));
        }
        let src = match src {
            Some(s) => s,
            None => return Err((caller, ResponseCode::BadArg)),
        };
        if !src.readable {
            return Err((caller, ResponseCode::BadArg));
        }
        let dst = match dst {
            Some(d) => d,
            None => return Err((caller, ResponseCode::BadArg)),
        };
        if !dst.writable {
            return Err((caller, ResponseCode::BadArg));
        }
        if src.len != dst.len {
            return Err((caller, ResponseCode::BadArg));
        }
        let mut ops: Vec<RegOp> = Vec::new();
        ops.push(RegOp::StartOperation);
        ops.push(RegOp::DataBarrier);
        ops.push(RegOp::InstructionBarrier);
        ops.push(RegOp::WriteInput(key[0]));
        ops.push(RegOp::WriteInput(key[1]));
        ops.push(RegOp::WriteInput(key[2]));
        ops.push(RegOp::WriteInput(key[3]));
        ops.push(RegOp::AwaitKeyLatched);
        ops.push(RegOp::EnableWaiting);
        assert(ops@ =~= key_load_ops(key@));
        self.session = Some(Session { caller, len: dst.len, rpos: 0, wpos: 0 });
        Ok(ops)
    }

    /// Handles "wants input". `read` is the block read from the source lease
    /// at the session's `rpos`, or `None` where that read failed. A block
    /// that ends past the session's length is refused as the lease would
    /// refuse it.
    pub fn feed(&mut self, read: Option<[u8; 16]>) -> (r: Step<C>)
        requires
            old(self).wf(),
        ensures
            final(self).wf(),
            match old(self).session {
                None => *final(self) == *old(self) && r.ops@.len() == 0 && r.reply.is_none(),
                Some(s) => {
                    let (next, reply) = feed_step(s.progress(), read.is_some());
                    &&& progress_of(final(self).session) == next
                    &&& (next.is_some() ==> final(self).session.unwrap().caller == s.caller)
                    &&& r.reply == (match reply {
                        Some(res) => Some((s.caller, res)),
                        None => None::<Reply<C>>,
                    })
                    &&& r.ops@ == (if next.is_some() {
                        feed_ops(block_words(read.unwrap()@))
                    } else {
                        Seq::<RegOp>::empty()
                    })
                },
            },
    {
        let s = match self.session.take() {
            Some(s) => s,
            None => return Step { ops: Vec::new(), reply: None },
        };
        match read {
            Some(b) => {
                if s.rpos <= s.len && BLOCK_BYTES <= s.len - s.rpos {
                    let w = words_of_block(&b);
                    let mut ops: Vec<RegOp> = Vec::new();
                    ops.push(RegOp::WriteInput(w[0]));
                    ops.push(RegOp::WriteInput(w[1]));
                    ops.push(RegOp::WriteInput(w[2]));
                    ops.push(RegOp::WriteInput(w[3]));
                    ops.push(RegOp::EnableDigest);
                    assert(ops@ =~= feed_ops(block_words(b@)));
                    self.session = Some(Session { rpos: s.rpos + BLOCK_BYTES, ..s });
                    return Step { ops, reply: None };
                }
            },
            None => {},
        }
        Step { ops: Vec::new(), reply: Some((s.caller, Err(ResponseCode::BadArg))) }
    }

    /// Where and what to write for "output ready": the destination offset
    /// `wpos` and the bytes of the block read from the digest ports, or
    /// `None` when no fed block is waiting to be drained.
    pub fn pending_output(&self, digest: &[u32; 4]) -> (r: Option<(usize, [u8; 16])>)
        ensures
            match self.session {
                Some(s) if s.progress().pending() => {
                    &&& r.is_some()
                    &&& r.unwrap().0 == s.wpos
                    &&& r.unwrap().1@ == digest_bytes(digest@)
                },
                _ => r.is_none(),
            },
    {
        match &self.session {
            Some(s) => {
                if s.wpos < s.rpos {
                    Some((s.wpos, block_of_digest(digest)))
                } else {
                    None
                }
            },
            None => None,
        }
    }

    /// Completes "output ready" after the block of `pending_output` was
    /// written to the destination lease (`written`) or refused by it.
    pub fn drained(&mut self, written: bool) -> (r: Step<C>)
        requires
            old(self).wf(),
        ensures
            final(self).wf(),
            match old(self).session {
                Some(s) if s.progress().pending() => {
                    let (next, reply) = drain_step(s.progress(), written);
                    &&& progress_of(final(self).session) == next
                    &&& (next.is_some() ==> final(self).session.unwrap().caller == s.caller)
                    &&& r.reply == (match reply {
                        Some(res) => Some((s.caller, res)),
                        None => None::<Reply<C>>,
                    })
                    &&& r.ops@ == (if reply == Some(Ok::<(), ResponseCode>(())) {
                        seq![RegOp::DisableInterrupts]
                    } else {
                        Seq::<RegOp>::empty()
                    })
                },
                _ => *final(self) == *old(self) && r.ops@.len() == 0 && r.reply.is_none(),
            },
    {
        let s = match self.session.take() {
            Some(s) => s,
            None => return Step { ops: Vec::new(), reply: None },
        };
        if s.wpos >= s.rpos {
            self.session = Some(s);
            return Step { ops: Vec::new(), reply: None };
        }
        if !written {
            return Step { ops: Vec::new(), reply: Some((s.caller, Err(ResponseCode::BadArg))) };
        }
        let wpos = s.wpos + BLOCK_BYTES;
        if wpos == s.len {
            let mut ops: Vec<RegOp> = Vec::new();
            ops.push(RegOp::DisableInterrupts);
            assert(ops@ =~= seq![RegOp::DisableInterrupts]);
            Step { ops, reply: Some((s.caller, Ok(()))) }
        } else {
            self.session = Some(Session { wpos, ..s });
            Step { ops: Vec::new(), reply: None }
        }
    }
}

} // verus!
