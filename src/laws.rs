use vstd::prelude::*;
use crate::block::{block_words, digest_bytes};
use crate::driver::{admission, drain_step, feed_step, started, LeaseInfo, Progress};
use crate::protocol::ResponseCode;

verus! {

/// What a block of key words and a block of input words make the engine
/// present at its digest ports.
pub type Engine = spec_fn(Seq<u32>, Seq<u32>) -> Seq<u32>;

/// The 16 source bytes of block `k`.
pub open spec fn block_at(src: Seq<u8>, k: int) -> Seq<u8> {
    src.subrange(16 * k as int, 16 * k + 16int)
}

/// Block-by-block encryption of `src`: byte `i` lies in block `i / 16`, and
/// each block is encrypted on its own.
pub open spec fn ecb(engine: Engine, key: Seq<u32>, src: Seq<u8>) -> Seq<u8> {
    Seq::new(
        src.len(),
        |i: int| digest_bytes(engine(key, block_words(block_at(src, i / 16))))[i % 16],
    )
}

/// `dst` with the 16 bytes at `off` replaced by `out`.
pub open spec fn write_block(dst: Seq<u8>, off: nat, out: Seq<u8>) -> Seq<u8> {
    Seq::new(dst.len(), |i: int| if off <= i < off + 16 { out[i - off] } else { dst[i] })
}

/// Feed and drain in turn, as the engine raises "wants input" and then
/// "output ready", for at most `rounds` blocks, with source lease content
/// `src` and destination lease content `dst`. Gives the destination at the
/// end and the reply sent, if any.
pub open spec fn run(
    engine: Engine,
    key: Seq<u32>,
    src: Seq<u8>,
    p: Progress,
    dst: Seq<u8>,
    rounds: nat,
) -> (Seq<u8>, Option<Result<(), ResponseCode>>)
    decreases rounds,
{
    if rounds == 0 {
        (dst, None)
    } else {
        let (fed, fed_reply) = feed_step(p, p.rpos + 16 <= src.len());
        match fed {
            None => (dst, fed_reply),
            Some(q) => {
                let block = src.subrange(p.rpos as int, p.rpos + 16int);
                let out = digest_bytes(engine(key, block_words(block)));
                let written = q.wpos + 16 <= dst.len();
                let dst2 = if written { write_block(dst, q.wpos, out) } else { dst };
                let (drained, drain_reply) = drain_step(q, written);
                match drained {
                    None => (dst2, drain_reply),
                    Some(next) => run(engine, key, src, next, dst2, (rounds - 1) as nat),
                }
            },
        }
    }
}

proof fn lemma_run_from(engine: Engine, key: Seq<u32>, src: Seq<u8>, k: nat, dst: Seq<u8>)
    requires
        src.len() % 16 == 0,
        16 * k < src.len(),
        dst.len() == src.len(),
        forall|i: int| 0 <= i < 16 * k ==> dst[i] == ecb(engine, key, src)[i],
    ensures
        run(
            engine,
            key,
            src,
            Progress { len: src.len(), rpos: 16 * k, wpos: 16 * k },
            dst,
            (src.len() / 16 - k) as nat,
        )
            == (ecb(engine, key, src), Some(Ok::<(), ResponseCode>(()))),
    decreases src.len() - 16 * k,
{
    let n = src.len();
    let p = Progress { len: n, rpos: 16 * k, wpos: 16 * k };
    let rounds = (n / 16 - k) as nat;
    assert(16 * k + 16 <= n) by (nonlinear_arith)
        requires 16 * k < n, n % 16 == 0;
    assert(rounds > 0) by (nonlinear_arith)
        requires 16 * k < n, n % 16 == 0, rounds == n / 16 - k;
    let q = Progress { rpos: p.rpos + 16, ..p };
    assert(feed_step(p, true) == (Some(q), None::<Result<(), ResponseCode>>));
    let out = digest_bytes(engine(key, block_words(src.subrange(16 * k as int, 16 * k + 16int))));
    let dst2 = write_block(dst, q.wpos, out);
    let e = ecb(engine, key, src);
    assert forall|i: int| 0 <= i < 16 * k + 16 implies dst2[i] == e[i] by {
        if i >= 16 * k {
            assert(i / 16 == k && i % 16 == i - 16 * k) by (nonlinear_arith)
                requires 16 * k <= i < 16 * k + 16;
        }
    }
    if 16 * k + 16 == n {
        assert(dst2 =~= e);
    } else {
        let next = Progress { wpos: q.wpos + 16, ..q };
        assert(drain_step(q, true) == (Some(next), None::<Result<(), ResponseCode>>));
        assert((rounds - 1) as nat == (n / 16 - (k + 1)) as nat);
        lemma_run_from(engine, key, src, k + 1, dst2);
    }
}

/// For a source of a positive multiple of 16 bytes and a destination of the
/// same length, feeding and draining in turn from a fresh session ends in a
/// success reply, with the destination holding the encryption of each source
/// block on its own, after exactly one round per block.
pub proof fn lemma_ecb_result(engine: Engine, key: Seq<u32>, src: Seq<u8>, dst: Seq<u8>)
    requires
        src.len() > 0,
        src.len() % 16 == 0,
        dst.len() == src.len(),
    ensures
        run(engine, key, src, started(src.len()), dst, src.len() / 16)
            == (ecb(engine, key, src), Some(Ok::<(), ResponseCode>(()))),
{
    assert(started(src.len()) == Progress { len: src.len(), rpos: 16 * 0, wpos: 16 * 0 });
    lemma_run_from(engine, key, src, 0, dst);
}

/// Every feed and every drain of a pending block keeps
/// `wpos <= rpos <= len` on block boundaries; each either keeps the session
/// and sends no reply or ends it and sends exactly one; and each that keeps
/// it moves `rpos + wpos` one block closer to `2 * len`, so a session cannot
/// go on for ever while steps keep coming.
pub proof fn lemma_steps_keep_order(p: Progress, read_ok: bool, written: bool)
    requires
        p.wf(),
    ensures
        feed_step(p, read_ok).0.is_some() != feed_step(p, read_ok).1.is_some(),
        feed_step(p, read_ok).0 matches Some(q) ==> q.wf() && q.len == p.len && q.wpos == p.wpos
            && q.rpos == p.rpos + 16,
        p.pending() ==> drain_step(p, written).0.is_some() != drain_step(p, written).1.is_some(),
        p.pending() ==> (drain_step(p, written).0 matches Some(q) ==> q.wf() && q.len == p.len
            && q.rpos == p.rpos && q.wpos == p.wpos + 16),
{
    if p.pending() {
        assert(p.wpos + 16 <= p.rpos) by (nonlinear_arith)
            requires p.wpos < p.rpos, p.wpos % 16 == 0, p.rpos % 16 == 0;
    }
}

/// A request that arrives while a session is in flight, with a well-formed
/// key, is refused with `Busy`, whatever its leases.
pub proof fn lemma_busy_refused(src: Option<LeaseInfo>, dst: Option<LeaseInfo>)
    ensures
        admission(true, true, src, dst) == Err::<(), ResponseCode>(ResponseCode::Busy),
{
}

/// With no session in flight, a malformed key, a source lease that is
/// missing or not readable, a destination lease that is missing or not
/// writable, or leases of different lengths give `BadArg`.
pub proof fn lemma_bad_arguments_refused(
    key_ok: bool,
    src: Option<LeaseInfo>,
    dst: Option<LeaseInfo>,
)
    requires
        !key_ok || src.is_none() || !src.unwrap().readable || dst.is_none() || !dst.unwrap().writable
            || src.unwrap().len != dst.unwrap().len,
    ensures
        admission(key_ok, false, src, dst) == Err::<(), ResponseCode>(ResponseCode::BadArg),
{
}

/// A well-formed request is admitted exactly when no session is in flight;
/// so once a step has ended a session, success or failure, the next
/// well-formed request is admitted.
pub proof fn lemma_admitted_after_end(
    p: Progress,
    read_ok: bool,
    written: bool,
    src: LeaseInfo,
    dst: LeaseInfo,
)
    requires
        src.readable,
        dst.writable,
        src.len == dst.len,
    ensures
        feed_step(p, read_ok).0.is_none() ==> admission(
            true,
            feed_step(p, read_ok).0.is_some(),
            Some(src),
            Some(dst),
        ) == Ok::<(), ResponseCode>(()),
        drain_step(p, written).0.is_none() ==> admission(
            true,
            drain_step(p, written).0.is_some(),
            Some(src),
            Some(dst),
        ) == Ok::<(), ResponseCode>(()),
{
}

} // verus!
