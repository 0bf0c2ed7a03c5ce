use bytes::Bytes;
use bytes::BytesMut;
use posix_aio::AioCancelStat;
use posix_aio::AioCb;
use posix_aio::Buffer;
use posix_aio::Errno;
use posix_aio::LioOpcode;
use posix_aio::SigevNotify;
use posix_aio::TimeSpec;
use posix_aio::cancel_result;
use posix_aio::errno_result;
use posix_aio::OUT_OF_LINE_THRESHOLD;

#[test]
fn from_fd_is_idle_and_empty() {
    let cb = AioCb::from_fd(42, 7, SigevNotify::SigevNone);
    assert_eq!(cb.fd(), 42);
    assert_eq!(cb.offset(), 0);
    assert_eq!(cb.nbytes(), 0);
    assert_eq!(cb.priority(), 7);
    assert_eq!(cb.lio_opcode(), Some(LioOpcode::LIO_NOP));
    assert_eq!(cb.sigevent(), SigevNotify::SigevNone);
    assert!(!cb.is_mutable());
    assert!(!cb.in_progress());
}

#[test]
fn from_bytes_small_buffer_is_copied_out_of_line() {
    let data = b"short payload".to_vec();
    assert!(data.len() < OUT_OF_LINE_THRESHOLD);
    let buf = Bytes::from(data.clone());
    let mut cb = AioCb::from_bytes(3, 8, buf, 0, SigevNotify::SigevNone, LioOpcode::LIO_NOP);
    assert_eq!(cb.nbytes(), data.len());
    assert_eq!(cb.offset(), 8);
    assert!(!cb.is_mutable());
    let owned = cb.buffer();
    let inner = owned.bytes().expect("a shared buffer was captured");
    assert_eq!(inner.as_ref(), &data[..]);
}

#[test]
fn from_bytes_large_buffer_is_kept() {
    let data = vec![0xabu8; 200];
    let buf = Bytes::from(data.clone());
    let mut cb = AioCb::from_bytes(3, 0, buf, 0, SigevNotify::SigevNone, LioOpcode::LIO_NOP);
    assert_eq!(cb.nbytes(), 200);
    let owned = cb.buffer();
    assert_eq!(owned.bytes().unwrap().as_ref(), &data[..]);
}

#[test]
fn from_bytes_mut_small_buffer_is_copied_out_of_line() {
    let mut src = BytesMut::with_capacity(4);
    src.extend_from_slice(b"abcd");
    let mut cb = AioCb::from_bytes_mut(5, 16, src, 1, SigevNotify::SigevNone, LioOpcode::LIO_READ);
    assert_eq!(cb.nbytes(), 4);
    assert!(cb.is_mutable());
    assert_eq!(cb.lio_opcode(), Some(LioOpcode::LIO_READ));
    let owned = cb.buffer();
    assert_eq!(owned.bytes_mut().unwrap().as_ref(), b"abcd");
}

#[test]
fn from_bytes_mut_large_buffer_is_kept() {
    let mut src = BytesMut::with_capacity(OUT_OF_LINE_THRESHOLD);
    src.extend_from_slice(&[7u8; 64]);
    let mut cb = AioCb::from_bytes_mut(5, 0, src, 0, SigevNotify::SigevNone, LioOpcode::LIO_NOP);
    assert_eq!(cb.nbytes(), 64);
    let owned = cb.buffer();
    assert_eq!(owned.bytes_mut().unwrap().as_ref(), &[7u8; 64][..]);
}

#[test]
fn slice_constructors_record_length_and_mutability() {
    let cb = AioCb::from_mut_slice(9, 4096, 512, 0, SigevNotify::SigevNone, LioOpcode::LIO_READ);
    assert_eq!(cb.nbytes(), 512);
    assert!(cb.is_mutable());
    let cb = AioCb::from_slice(9, 4096, 512, 0, SigevNotify::SigevNone, LioOpcode::LIO_WRITE);
    assert_eq!(cb.nbytes(), 512);
    assert!(!cb.is_mutable());
}

#[test]
fn buffer_variant_accessors() {
    let none = Buffer::Empty;
    assert!(none.is_none());
    assert!(none.bytes().is_none());
    assert!(none.bytes_mut().is_none());

    let shared = Buffer::Bytes(Bytes::from(b"xy".to_vec()));
    assert!(!shared.is_none());
    assert_eq!(shared.bytes().unwrap().as_ref(), b"xy");
    assert!(shared.bytes_mut().is_none());

    let mut m = BytesMut::with_capacity(2);
    m.extend_from_slice(b"zw");
    let owned = Buffer::BytesMut(m);
    assert!(!owned.is_none());
    assert!(owned.bytes().is_none());
    assert_eq!(owned.bytes_mut().unwrap().as_ref(), b"zw");

    assert!(!Buffer::Phantom.is_none());
}

#[test]
fn extract_buffer_leaves_none_behind() {
    let buf = Bytes::from(vec![1u8; 100]);
    let mut cb = AioCb::from_bytes(3, 0, buf, 0, SigevNotify::SigevNone, LioOpcode::LIO_NOP);
    let first = cb.buffer();
    assert!(!first.is_none());
    let second = cb.buffer();
    assert!(second.is_none());
}

#[test]
fn into_buffer_returns_owned_variants_only() {
    let buf = Bytes::from(vec![2u8; 80]);
    let cb = AioCb::from_bytes(3, 0, buf, 0, SigevNotify::SigevNone, LioOpcode::LIO_NOP);
    let owned = cb.into_buffer();
    assert_eq!(owned.bytes().unwrap().as_ref(), &[2u8; 80][..]);

    let cb = AioCb::from_slice(3, 0, 16, 0, SigevNotify::SigevNone, LioOpcode::LIO_NOP);
    assert!(cb.into_buffer().is_none());

    let cb = AioCb::from_fd(3, 0, SigevNotify::SigevNone);
    assert!(cb.into_buffer().is_none());
}

#[test]
fn errno_result_decodes_the_native_convention() {
    assert_eq!(errno_result(-1, libc::EBADF), Err(Errno { code: libc::EBADF }));
    assert_eq!(errno_result(0, 0), Ok(0));
    assert_eq!(errno_result(4096, 0), Ok(4096));
}

#[test]
fn cancel_result_decodes_all_native_statuses() {
    assert_eq!(cancel_result(libc::AIO_CANCELED, 0), Ok(AioCancelStat::AioCanceled));
    assert_eq!(cancel_result(libc::AIO_NOTCANCELED, 0), Ok(AioCancelStat::AioNotCanceled));
    assert_eq!(cancel_result(libc::AIO_ALLDONE, 0), Ok(AioCancelStat::AioAllDone));
    assert_eq!(cancel_result(-1, libc::EBADF), Err(Errno { code: libc::EBADF }));
}

#[test]
fn failed_submission_leaves_the_request_idle() {
    let buf = Bytes::from(vec![3u8; 70]);
    let mut cb = AioCb::from_bytes(3, 0, buf, 0, SigevNotify::SigevNone, LioOpcode::LIO_NOP);
    let r = cb.write(-1, libc::EBADF);
    assert_eq!(r, Err(Errno { code: libc::EBADF }));
    assert!(!cb.in_progress());
    // The request stayed idle, so it may be retried at once.
    let r = cb.write(0, 0);
    assert_eq!(r, Ok(()));
    assert!(cb.in_progress());
}

#[test]
fn poll_is_pending_until_terminal_and_has_no_side_effects() {
    let mut src = BytesMut::with_capacity(128);
    src.extend_from_slice(&[0u8; 128]);
    let mut cb = AioCb::from_bytes_mut(3, 0, src, 0, SigevNotify::SigevNone, LioOpcode::LIO_NOP);
    assert_eq!(cb.read(0, 0), Ok(()));
    assert!(cb.in_progress());
    // While the kernel reports the operation unfinished, the poll returns
    // the in-progress error number, repeatedly and without side effects.
    assert_eq!(cb.error(libc::EINPROGRESS, 0), Err(Errno { code: libc::EINPROGRESS }));
    assert_eq!(cb.error(libc::EINPROGRESS, 0), Err(Errno { code: libc::EINPROGRESS }));
    assert!(cb.in_progress());
    assert_eq!(cb.nbytes(), 128);
    // Once the kernel reports completion, the poll is terminal.
    assert_eq!(cb.error(0, 0), Ok(()));
    assert!(cb.in_progress());
    // Collecting the result ends the in-flight state.
    assert_eq!(cb.aio_return(128, 0), Ok(128));
    assert!(!cb.in_progress());
}

#[test]
fn completion_error_is_surfaced_by_poll_and_collect() {
    let mut cb = AioCb::from_fd(3, 0, SigevNotify::SigevNone);
    assert_eq!(cb.fsync(0, 0), Ok(()));
    assert_eq!(cb.error(libc::EIO, 0), Err(Errno { code: libc::EIO }));
    assert_eq!(cb.aio_return(-1, libc::EIO), Err(Errno { code: libc::EIO }));
    assert!(!cb.in_progress());
}

#[test]
fn cancel_does_not_end_the_in_flight_state() {
    let mut cb = AioCb::from_fd(3, 0, SigevNotify::SigevNone);
    assert_eq!(cb.fsync(0, 0), Ok(()));
    assert_eq!(cb.cancel(libc::AIO_CANCELED, 0), Ok(AioCancelStat::AioCanceled));
    assert!(cb.in_progress());
    // A canceled operation still completes (with ECANCELED) and must still
    // be collected.
    assert_eq!(cb.error(libc::ECANCELED, 0), Err(Errno { code: libc::ECANCELED }));
    assert_eq!(cb.aio_return(-1, libc::ECANCELED), Err(Errno { code: libc::ECANCELED }));
    assert!(!cb.in_progress());
}

#[test]
fn set_sigev_notify_changes_only_the_notification() {
    let mut cb = AioCb::from_fd(3, 5, SigevNotify::SigevNone);
    cb.set_sigev_notify(SigevNotify::SigevSignal { signal: libc::SIGUSR1, si_value: 99 });
    assert_eq!(
        cb.sigevent(),
        SigevNotify::SigevSignal { signal: libc::SIGUSR1, si_value: 99 }
    );
    assert_eq!(cb.fd(), 3);
    assert_eq!(cb.priority(), 5);
    assert!(!cb.in_progress());
}

#[test]
fn timespec_holds_its_fields() {
    let t = TimeSpec::new(1, 500_000_000);
    assert_eq!(t.tv_sec, 1);
    assert_eq!(t.tv_nsec, 500_000_000);
}

#[test]
fn write_then_read_protocol_round_trip() {
    // The shape of an end-to-end transfer, with the kernel's part of each
    // step played back: write bytes B at offset O on descriptor D, collect
    // len(B); then a fresh read of len(B) bytes at O on D.
    let payload = b"the quick brown fox jumps over the lazy dog".to_vec();
    let n = payload.len() as isize;

    let wbuf = Bytes::from(payload.clone());
    let mut wcb = AioCb::from_bytes(7, 1024, wbuf, 0, SigevNotify::SigevNone, LioOpcode::LIO_NOP);
    assert_eq!(wcb.write(0, 0), Ok(()));
    assert_eq!(wcb.error(libc::EINPROGRESS, 0), Err(Errno { code: libc::EINPROGRESS }));
    assert_eq!(wcb.error(0, 0), Ok(()));
    assert_eq!(wcb.aio_return(n, 0), Ok(n));
    assert!(!wcb.in_progress());
    // The written buffer comes back untouched.
    let wback = wcb.into_buffer();
    assert_eq!(wback.bytes().unwrap().as_ref(), &payload[..]);

    let mut rbuf = BytesMut::with_capacity(payload.len());
    rbuf.extend_from_slice(&vec![0u8; payload.len()]);
    let mut rcb = AioCb::from_bytes_mut(7, 1024, rbuf, 0, SigevNotify::SigevNone, LioOpcode::LIO_NOP);
    assert_eq!(rcb.nbytes(), payload.len());
    assert_eq!(rcb.offset(), 1024);
    assert_eq!(rcb.fd(), 7);
    assert_eq!(rcb.read(0, 0), Ok(()));
    assert_eq!(rcb.error(0, 0), Ok(()));
    assert_eq!(rcb.aio_return(n, 0), Ok(n));
    let rback = rcb.into_buffer();
    assert_eq!(rback.bytes_mut().unwrap().len(), payload.len());
}

#[test]
fn batch_submission_marks_entries_in_flight_by_opcode() {
    // One native list submission hands every entry the same outcome: a
    // write entry becomes in flight, a no-op entry is skipped.
    let mut w = AioCb::from_slice(3, 0, 16, 0, SigevNotify::SigevNone, LioOpcode::LIO_WRITE);
    assert_eq!(w.lio_submitted(0, 0), Ok(()));
    assert!(w.in_progress());

    let mut nop = AioCb::from_fd(3, 0, SigevNotify::SigevNone);
    assert_eq!(nop.lio_submitted(0, 0), Ok(()));
    assert!(!nop.in_progress());
}

#[test]
fn batch_submission_failure_leaves_entries_idle() {
    let mut r = AioCb::from_mut_slice(3, 0, 16, 0, SigevNotify::SigevNone, LioOpcode::LIO_READ);
    assert_eq!(r.lio_submitted(-1, libc::EAGAIN), Err(Errno { code: libc::EAGAIN }));
    assert!(!r.in_progress());
    // The failed entry stayed idle and may be resubmitted at once.
    assert_eq!(r.lio_submitted(0, 0), Ok(()));
    assert!(r.in_progress());
    assert_eq!(r.aio_return(16, 0), Ok(16));
    assert!(!r.in_progress());
}

#[test]
fn collected_read_buffer_keeps_its_length() {
    // Collecting a read acknowledges the kernel's write into the owned
    // buffer: the contents are whatever the operation left, the length is
    // unchanged.
    let mut src = BytesMut::with_capacity(96);
    src.extend_from_slice(&[0u8; 96]);
    let mut cb = AioCb::from_bytes_mut(3, 0, src, 0, SigevNotify::SigevNone, LioOpcode::LIO_NOP);
    assert_eq!(cb.read(0, 0), Ok(()));
    assert_eq!(cb.error(0, 0), Ok(()));
    assert_eq!(cb.aio_return(96, 0), Ok(96));
    let back = cb.into_buffer();
    assert_eq!(back.bytes_mut().unwrap().len(), 96);
}
