use lpc55_aes::block::{block_of_digest, words_of_block};
use lpc55_aes::driver::{route, Driver, LeaseInfo, RegOp, Route, Status, Step};
use lpc55_aes::protocol::{Operation, ResponseCode};

const CALLER: u32 = 7;

fn src_lease(len: usize) -> Option<LeaseInfo> {
    Some(LeaseInfo { len, readable: true, writable: false })
}

fn dst_lease(len: usize) -> Option<LeaseInfo> {
    Some(LeaseInfo { len, readable: false, writable: true })
}

fn hex(s: &str) -> Vec<u8> {
    (0..s.len() / 2).map(|i| u8::from_str_radix(&s[2 * i..2 * i + 2], 16).unwrap()).collect()
}

fn le_words(b: &[u8]) -> [u32; 4] {
    let mut w = [0u32; 4];
    for i in 0..4 {
        w[i] = u32::from_le_bytes([b[4 * i], b[4 * i + 1], b[4 * i + 2], b[4 * i + 3]]);
    }
    w
}

fn status(digest: bool, waiting: bool, error: bool) -> Status {
    Status { digest, waiting, error }
}

/// Reads a block from a lease of `src` as the kernel would.
fn lease_read(src: &[u8], off: usize) -> Option<[u8; 16]> {
    if off + 16 <= src.len() {
        let mut b = [0u8; 16];
        b.copy_from_slice(&src[off..off + 16]);
        Some(b)
    } else {
        None
    }
}

/// Writes a block into a lease of `dst` as the kernel would.
fn lease_write(dst: &mut [u8], off: usize, b: &[u8; 16]) -> bool {
    if off + 16 <= dst.len() {
        dst[off..off + 16].copy_from_slice(b);
        true
    } else {
        false
    }
}

fn input_words(step: &Step<u32>) -> Vec<u32> {
    step.ops
        .iter()
        .filter_map(|op| match op {
            RegOp::WriteInput(w) => Some(*w),
            _ => None,
        })
        .collect()
}

fn assert_positions_ordered(d: &Driver<u32>) {
    if let Some(s) = &d.session {
        assert!(s.wpos <= s.rpos && s.rpos <= s.len);
        assert_eq!((s.rpos % 16, s.wpos % 16), (0, 0));
    }
}

fn start_request(d: &mut Driver<u32>, key: [u32; 4], len: usize) -> Vec<RegOp> {
    match d.encrypt(Some(key), src_lease(len), dst_lease(len), CALLER) {
        Ok(ops) => ops,
        Err(_) => panic!("request refused"),
    }
}

#[test]
fn nist_two_block_encryption() {
    let key = hex("2b7e151628aed2a6abf7158809cf4f3c");
    let pt = hex("6bc1bee22e409f96e93d7e117393172aae2d8a571e03ac9c9eb76fac45af8e51");
    let ct = hex("3ad77bb40d7a3660a89ecaf32466ef97f5d3d58503b9699de785895a96fdbaef");
    let key_words = le_words(&key);
    let mut d: Driver<u32> = Driver::new();
    let ops = start_request(&mut d, key_words, 32);
    assert_eq!(
        ops,
        vec![
            RegOp::StartOperation,
            RegOp::DataBarrier,
            RegOp::InstructionBarrier,
            RegOp::WriteInput(key_words[0]),
            RegOp::WriteInput(key_words[1]),
            RegOp::WriteInput(key_words[2]),
            RegOp::WriteInput(key_words[3]),
            RegOp::AwaitKeyLatched,
            RegOp::EnableWaiting,
        ]
    );
    let mut dst = vec![0u8; 32];
    let mut cycles = 0;
    let mut last = None;
    while d.is_busy() {
        assert_eq!(route(status(false, true, false)), Route::Feed);
        let rpos = d.session.as_ref().unwrap().rpos;
        let step = d.feed(lease_read(&pt, rpos));
        assert!(step.reply.is_none());
        assert_positions_ordered(&d);
        assert_eq!(*step.ops.last().unwrap(), RegOp::EnableDigest);
        let fed = input_words(&step);
        // The engine: the known ciphertext of the block that was fed, as the
        // digest ports present it.
        let k = (0..2).find(|k| le_words(&pt[16 * k..16 * k + 16]).to_vec() == fed).unwrap();
        let c = &ct[16 * k..16 * k + 16];
        let digest = [0, 1, 2, 3].map(|i| u32::from_be_bytes([c[4 * i], c[4 * i + 1], c[4 * i + 2], c[4 * i + 3]]));
        assert_eq!(route(status(true, true, false)), Route::Drain);
        let (off, bytes) = d.pending_output(&digest).unwrap();
        let ok = lease_write(&mut dst, off, &bytes);
        let step = d.drained(ok);
        assert_positions_ordered(&d);
        cycles += 1;
        if step.reply.is_some() {
            assert_eq!(step.ops, vec![RegOp::DisableInterrupts]);
            last = step.reply;
        } else {
            assert!(step.ops.is_empty());
        }
    }
    assert_eq!(cycles, 2);
    assert_eq!(last, Some((CALLER, Ok(()))));
    assert_eq!(dst, ct);
}

#[test]
fn short_final_block_fails() {
    let src = vec![0x11u8; 20];
    let mut dst = vec![0u8; 20];
    let mut d: Driver<u32> = Driver::new();
    start_request(&mut d, [1, 2, 3, 4], 20);
    let step = d.feed(lease_read(&src, 0));
    assert!(step.reply.is_none());
    let (off, bytes) = d.pending_output(&[9, 9, 9, 9]).unwrap();
    assert_eq!(off, 0);
    assert!(lease_write(&mut dst, off, &bytes));
    let step = d.drained(true);
    assert!(step.reply.is_none());
    assert_eq!(d.session.as_ref().unwrap().wpos, 16);
    let rpos = d.session.as_ref().unwrap().rpos;
    assert_eq!(rpos, 16);
    let step = d.feed(lease_read(&src, rpos));
    assert!(step.ops.is_empty());
    assert_eq!(step.reply, Some((CALLER, Err(ResponseCode::BadArg))));
    assert!(d.session.is_none());
}

#[test]
fn block_past_length_is_refused() {
    let mut d: Driver<u32> = Driver::new();
    start_request(&mut d, [0; 4], 20);
    d.feed(Some([0; 16]));
    d.pending_output(&[0; 4]).unwrap();
    d.drained(true);
    let step = d.feed(Some([0; 16]));
    assert_eq!(step.reply, Some((CALLER, Err(ResponseCode::BadArg))));
    assert!(d.session.is_none());
}

#[test]
fn second_request_is_busy() {
    let mut d: Driver<u32> = Driver::new();
    start_request(&mut d, [1, 2, 3, 4], 32);
    d.feed(Some([5; 16]));
    let before = {
        let s = d.session.as_ref().unwrap();
        (s.caller, s.len, s.rpos, s.wpos)
    };
    let r = d.encrypt(Some([0; 4]), src_lease(16), dst_lease(16), 8);
    assert!(matches!(r, Err((8, ResponseCode::Busy))));
    let s = d.session.as_ref().unwrap();
    assert_eq!((s.caller, s.len, s.rpos, s.wpos), before);
    assert_eq!(before, (CALLER, 32, 16, 0));
}

fn refused(
    key: Option<[u32; 4]>,
    src: Option<LeaseInfo>,
    dst: Option<LeaseInfo>,
) -> Option<ResponseCode> {
    let mut d: Driver<u32> = Driver::new();
    let r = d.encrypt(key, src, dst, CALLER);
    assert!(d.session.is_none());
    match r {
        Ok(_) => None,
        Err((c, e)) => {
            assert_eq!(c, CALLER);
            Some(e)
        }
    }
}

#[test]
fn mismatched_lengths_are_bad_arg() {
    assert_eq!(refused(Some([0; 4]), src_lease(32), dst_lease(16)), Some(ResponseCode::BadArg));
}

#[test]
fn unreadable_source_is_bad_arg() {
    let src = Some(LeaseInfo { len: 32, readable: false, writable: true });
    assert_eq!(refused(Some([0; 4]), src, dst_lease(32)), Some(ResponseCode::BadArg));
    assert_eq!(refused(Some([0; 4]), None, dst_lease(32)), Some(ResponseCode::BadArg));
}

#[test]
fn unwritable_destination_is_bad_arg() {
    let dst = Some(LeaseInfo { len: 32, readable: true, writable: false });
    assert_eq!(refused(Some([0; 4]), src_lease(32), dst), Some(ResponseCode::BadArg));
    assert_eq!(refused(Some([0; 4]), src_lease(32), None), Some(ResponseCode::BadArg));
}

#[test]
fn malformed_key_is_bad_arg() {
    assert_eq!(refused(None, src_lease(32), dst_lease(32)), Some(ResponseCode::BadArg));
}

#[test]
fn malformed_key_wins_over_busy() {
    let mut d: Driver<u32> = Driver::new();
    start_request(&mut d, [0; 4], 32);
    let r = d.encrypt(None, src_lease(32), dst_lease(32), 9);
    assert!(matches!(r, Err((9, ResponseCode::BadArg))));
    assert!(d.is_busy());
}

#[test]
fn accepted_again_after_success() {
    let mut d: Driver<u32> = Driver::new();
    start_request(&mut d, [0; 4], 16);
    d.feed(Some([3; 16]));
    d.pending_output(&[1, 2, 3, 4]).unwrap();
    let step = d.drained(true);
    assert_eq!(step.reply, Some((CALLER, Ok(()))));
    assert!(!d.is_busy());
    let ops = start_request(&mut d, [0; 4], 16);
    assert_eq!(ops.len(), 9);
    assert!(d.is_busy());
}

#[test]
fn accepted_again_after_failed_write() {
    let mut d: Driver<u32> = Driver::new();
    start_request(&mut d, [0; 4], 32);
    d.feed(Some([3; 16]));
    d.pending_output(&[1, 2, 3, 4]).unwrap();
    let step = d.drained(false);
    assert!(step.ops.is_empty());
    assert_eq!(step.reply, Some((CALLER, Err(ResponseCode::BadArg))));
    assert!(!d.is_busy());
    start_request(&mut d, [0; 4], 32);
    let s = d.session.as_ref().unwrap();
    assert_eq!((s.len, s.rpos, s.wpos), (32, 0, 0));
}

#[test]
fn accepted_again_after_failed_read() {
    let mut d: Driver<u32> = Driver::new();
    start_request(&mut d, [0; 4], 32);
    let step = d.feed(None);
    assert_eq!(step.reply, Some((CALLER, Err(ResponseCode::BadArg))));
    start_request(&mut d, [0; 4], 32);
    assert!(d.is_busy());
}

#[test]
fn zero_length_fails_at_first_feed() {
    let mut d: Driver<u32> = Driver::new();
    start_request(&mut d, [0; 4], 0);
    let step = d.feed(lease_read(&[], 0));
    assert_eq!(step.reply, Some((CALLER, Err(ResponseCode::BadArg))));
    assert!(!d.is_busy());
}

#[test]
fn output_is_drained_before_input_is_fed() {
    assert_eq!(route(status(true, true, true)), Route::Drain);
    assert_eq!(route(status(false, true, true)), Route::Feed);
    assert_eq!(route(status(false, false, true)), Route::Fault);
    assert_eq!(route(status(false, false, false)), Route::Idle);
}

#[test]
fn nothing_to_drain_without_a_fed_block() {
    let mut d: Driver<u32> = Driver::new();
    assert!(d.pending_output(&[0; 4]).is_none());
    let step = d.drained(true);
    assert!(step.reply.is_none() && step.ops.is_empty());
    start_request(&mut d, [0; 4], 32);
    assert!(d.pending_output(&[0; 4]).is_none());
    let step = d.drained(true);
    assert!(step.reply.is_none() && step.ops.is_empty());
    assert_eq!(d.session.as_ref().unwrap().wpos, 0);
}

#[test]
fn feed_without_session_does_nothing() {
    let mut d: Driver<u32> = Driver::new();
    let step = d.feed(Some([1; 16]));
    assert!(step.reply.is_none() && step.ops.is_empty());
    assert!(!d.is_busy());
}

#[test]
fn feed_writes_little_endian_words() {
    let mut d: Driver<u32> = Driver::new();
    start_request(&mut d, [0; 4], 16);
    let b: [u8; 16] = [1, 2, 3, 4, 5, 6, 7, 8, 9, 10, 11, 12, 13, 14, 15, 16];
    let step = d.feed(Some(b));
    assert_eq!(
        step.ops,
        vec![
            RegOp::WriteInput(0x0403_0201),
            RegOp::WriteInput(0x0807_0605),
            RegOp::WriteInput(0x0c0b_0a09),
            RegOp::WriteInput(0x100f_0e0d),
            RegOp::EnableDigest,
        ]
    );
}

#[test]
fn words_of_block_values() {
    let b: [u8; 16] = [0xff, 0, 0, 0x80, 1, 2, 3, 4, 0, 0, 0, 0, 0xaa, 0xbb, 0xcc, 0xdd];
    assert_eq!(words_of_block(&b), [0x8000_00ff, 0x0403_0201, 0, 0xddcc_bbaa]);
}

#[test]
fn digest_is_big_endian() {
    let d = [0x0102_0304, 0xa0b0_c0d0, 0, 0xffff_fffe];
    assert_eq!(
        block_of_digest(&d),
        [1, 2, 3, 4, 0xa0, 0xb0, 0xc0, 0xd0, 0, 0, 0, 0, 0xff, 0xff, 0xff, 0xfe]
    );
}

#[test]
fn response_codes() {
    assert_eq!(ResponseCode::BadArg.code(), 2);
    assert_eq!(ResponseCode::Busy.code(), 3);
    assert_eq!(u32::from(ResponseCode::Busy), 3);
    assert_eq!(u32::from(ResponseCode::BadArg), 2);
}

#[test]
fn operation_codes() {
    assert_eq!(Operation::from_u32(1), Some(Operation::Encrypt));
    assert_eq!(Operation::from_u32(0), None);
    assert_eq!(Operation::from_u32(2), None);
}
