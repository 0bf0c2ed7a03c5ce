use vstd::prelude::*;
use bytes::Bytes;
use bytes::BytesMut;
use crate::buffer::Buffer;
use crate::buffer::BufferView;
use crate::buffer::bytes_data;
use crate::buffer::bytes_mut_data;
use crate::buffer::bytes_len;
use crate::buffer::bytes_mut_len;
use crate::buffer::bytes_as_slice;
use crate::buffer::bytes_mut_as_slice;
use crate::buffer::bytes_mut_with_capacity;
use crate::buffer::bytes_mut_extend_from_slice;
use crate::buffer::bytes_mut_freeze;
use crate::errno::Errno;
use crate::errno::errno_result;

verus! {

/// Mode for `AioCb::fsync`: whether both data and metadata are flushed, or
/// (where the platform offers it) data only.
#[allow(non_camel_case_types)]
#[derive(Clone, Copy, Debug, PartialEq, Eq, Structural)]
pub enum AioFsyncMode {
    /// Flush data and metadata, like a plain fsync.
    O_SYNC,
    /// Flush data only, like fdatasync.
    O_DSYNC,
}

/// When used with list submission, determines whether a given request is a
/// read, a write, or is skipped.  Has no effect on the other entry points.
#[allow(non_camel_case_types)]
#[derive(Clone, Copy, Debug, PartialEq, Eq, Structural)]
pub enum LioOpcode {
    LIO_NOP,
    LIO_WRITE,
    LIO_READ,
}

/// Mode for list submission.
#[allow(non_camel_case_types)]
#[derive(Clone, Copy, Debug, PartialEq, Eq, Structural)]
pub enum LioMode {
    /// Block until all requested operations have completed.
    LIO_WAIT,
    /// Return immediately after submission.
    LIO_NOWAIT,
}

/// Outcome of a cancellation request.
#[derive(Clone, Copy, Debug, PartialEq, Eq, Structural)]
pub enum AioCancelStat {
    /// All outstanding requests were canceled.
    AioCanceled,
    /// Some requests were not canceled; their status should be checked
    /// individually.
    AioNotCanceled,
    /// All of the requests had already finished.
    AioAllDone,
}

/// Opaque completion-notification configuration: stored in the request and
/// forwarded unmodified to the native layer.
#[derive(Clone, Copy, Debug, PartialEq, Eq, Structural)]
pub enum SigevNotify {
    /// No notification.
    SigevNone,
    /// Notify by queueing a signal carrying the given value.
    SigevSignal { signal: i32, si_value: isize },
    /// Notify a specific thread by signal.
    SigevThreadId { signal: i32, thread_id: i32, si_value: isize },
}

/// A relative timeout with second and nanosecond resolution, for the batch
/// wait call.
#[derive(Clone, Copy, Debug, PartialEq, Eq, Structural)]
pub struct TimeSpec {
    pub tv_sec: i64,
    pub tv_nsec: i64,
}

impl TimeSpec {
    /// Build a timeout from seconds and nanoseconds.
    pub fn new(tv_sec: i64, tv_nsec: i64) -> (r: TimeSpec)
        ensures
            r == (TimeSpec { tv_sec, tv_nsec }),
    {
        TimeSpec { tv_sec, tv_nsec }
    }
}

/// An owned buffer below this many bytes is copied into a fresh heap
/// allocation of at least this capacity before its address is captured, so
/// that no inline-storage optimization of the buffer representation can move
/// the data afterwards.
pub const OUT_OF_LINE_THRESHOLD: usize = 64;

/// One asynchronous I/O request: a file descriptor, a byte range, the buffer
/// the kernel will touch, and the request's bookkeeping state.
///
/// The native submission, status and wait calls happen outside this crate;
/// each state transition below is handed the raw outcome of the
/// corresponding native call and keeps the request's state exact.
#[derive(Debug)]
pub struct AioCb {
    fd: i32,
    offset: i64,
    nbytes: usize,
    priority: i32,
    opcode: LioOpcode,
    sigev: SigevNotify,
    mutable: bool,
    in_progress: bool,
    pending_read: bool,
    buffer: Buffer,
}

/// The abstract state of a request.
pub struct AioCbView {
    /// File descriptor the operation acts on.
    pub fd: int,
    /// Byte offset within the file.
    pub offset: int,
    /// Requested length of the operation in bytes.
    pub nbytes: nat,
    /// Priority hint forwarded to the native layer.
    pub priority: int,
    /// Operation code, used only by list submission.
    pub opcode: LioOpcode,
    /// Completion-notification configuration.
    pub sigev: SigevNotify,
    /// Whether the buffer may be read into.
    pub mutable: bool,
    /// Whether the kernel may hold a live pointer into the buffer: true
    /// exactly between a successful submission and result collection.
    pub in_progress: bool,
    /// Whether the in-flight operation reads into the buffer: its contents
    /// are then the kernel's to rewrite until the result is collected.
    pub pending_read: bool,
    /// The buffer ownership variant.
    pub buffer: BufferView,
}

impl AioCbView {
    /// Internal consistency of a request: the recorded length matches an
    /// owned buffer's contents, a shared read-only buffer is never marked
    /// mutable, an exclusively owned buffer always is, a pending read
    /// implies an in-flight mutable buffer, and an immutable request never
    /// carries the read opcode.
    pub open spec fn wf(self) -> bool {
        &&& (self.buffer matches BufferView::Bytes(s) ==> self.nbytes == s.len()
            && !self.mutable)
        &&& (self.buffer matches BufferView::BytesMut(s) ==> self.nbytes == s.len()
            && self.mutable)
        &&& (self.pending_read ==> self.in_progress && self.mutable)
        &&& (!self.mutable ==> self.opcode != LioOpcode::LIO_READ)
    }
}

impl View for AioCb {
    type V = AioCbView;

    closed spec fn view(&self) -> AioCbView {
        AioCbView {
            fd: self.fd as int,
            offset: self.offset as int,
            nbytes: self.nbytes as nat,
            priority: self.priority as int,
            opcode: self.opcode,
            sigev: self.sigev,
            mutable: self.mutable,
            in_progress: self.in_progress,
            pending_read: self.pending_read,
            buffer: self.buffer@,
        }
    }
}

impl AioCb {
    /// Constructs a request with no associated buffer, suitable only for
    /// `fsync`.
    pub fn from_fd(fd: i32, prio: i32, sigev_notify: SigevNotify) -> (r: AioCb)
        ensures
            r@ == (AioCbView {
                fd: fd as int,
                offset: 0,
                nbytes: 0,
                priority: prio as int,
                opcode: LioOpcode::LIO_NOP,
                sigev: sigev_notify,
                mutable: false,
                in_progress: false,
                pending_read: false,
                buffer: BufferView::Empty,
            }),
            r@.wf(),
    {
        AioCb {
            fd,
            offset: 0,
            nbytes: 0,
            priority: prio,
            opcode: LioOpcode::LIO_NOP,
            sigev: sigev_notify,
            mutable: false,
            in_progress: false,
            pending_read: false,
            buffer: Buffer::Empty,
        }
    }

    /// Constructs a request over a caller-held mutable slice of the given
    /// length.  The caller must keep the referenced memory alive and at a
    /// fixed address until the operation completes or its cancellation is
    /// confirmed.  Usable for reads, writes, and either in a batch.
    pub fn from_mut_slice(
        fd: i32,
        offs: i64,
        len: usize,
        prio: i32,
        sigev_notify: SigevNotify,
        opcode: LioOpcode,
    ) -> (r: AioCb)
        ensures
            r@ == (AioCbView {
                fd: fd as int,
                offset: offs as int,
                nbytes: len as nat,
                priority: prio as int,
                opcode,
                sigev: sigev_notify,
                mutable: true,
                in_progress: false,
                pending_read: false,
                buffer: BufferView::Phantom,
            }),
            r@.wf(),
    {
        AioCb {
            fd,
            offset: offs,
            nbytes: len,
            priority: prio,
            opcode,
            sigev: sigev_notify,
            mutable: true,
            in_progress: false,
            pending_read: false,
            buffer: Buffer::Phantom,
        }
    }

    /// Constructs a request over a caller-held immutable slice of the given
    /// length: as `from_mut_slice`, but reads are disallowed, so the opcode
    /// may not ask for one.
    pub fn from_slice(
        fd: i32,
        offs: i64,
        len: usize,
        prio: i32,
        sigev_notify: SigevNotify,
        opcode: LioOpcode,
    ) -> (r: AioCb)
        requires
            opcode != LioOpcode::LIO_READ,
        ensures
            r@ == (AioCbView {
                fd: fd as int,
                offset: offs as int,
                nbytes: len as nat,
                priority: prio as int,
                opcode,
                sigev: sigev_notify,
                mutable: false,
                in_progress: false,
                pending_read: false,
                buffer: BufferView::Phantom,
            }),
            r@.wf(),
    {
        AioCb {
            fd,
            offset: offs,
            nbytes: len,
            priority: prio,
            opcode,
            sigev: sigev_notify,
            mutable: false,
            in_progress: false,
            pending_read: false,
            buffer: Buffer::Phantom,
        }
    }

    /// Constructs a request that takes shared ownership of `buf` and may be
    /// used for writes, but not reads: the buffer is shared and read-only,
    /// so the opcode may not ask for a read either.
    ///
    /// A buffer shorter than `OUT_OF_LINE_THRESHOLD` is first copied into a
    /// fresh out-of-line allocation, so that the address captured by the
    /// native layer stays fixed for the request's whole lifetime.
    pub fn from_bytes(
        fd: i32,
        offs: i64,
        buf: Bytes,
        prio: i32,
        sigev_notify: SigevNotify,
        opcode: LioOpcode,
    ) -> (r: AioCb)
        requires
            opcode != LioOpcode::LIO_READ,
        ensures
            r@ == (AioCbView {
                fd: fd as int,
                offset: offs as int,
                nbytes: bytes_data(buf).len(),
                priority: prio as int,
                opcode,
                sigev: sigev_notify,
                mutable: false,
                in_progress: false,
                pending_read: false,
                buffer: BufferView::Bytes(bytes_data(buf)),
            }),
            r@.wf(),
    {
        let buf2 = if bytes_len(&buf) < OUT_OF_LINE_THRESHOLD {
            let mut ool = bytes_mut_with_capacity(OUT_OF_LINE_THRESHOLD);
            bytes_mut_extend_from_slice(&mut ool, bytes_as_slice(&buf));
            proof {
                assert(bytes_mut_data(ool) =~= bytes_data(buf));
            }
            bytes_mut_freeze(ool)
        } else {
            buf
        };
        let nbytes = bytes_len(&buf2);
        AioCb {
            fd,
            offset: offs,
            nbytes,
            priority: prio,
            opcode,
            sigev: sigev_notify,
            mutable: false,
            in_progress: false,
            pending_read: false,
            buffer: Buffer::Bytes(buf2),
        }
    }

    /// Constructs a request that takes unique ownership of `buf` and may be
    /// used for both reads and writes.
    ///
    /// A buffer shorter than `OUT_OF_LINE_THRESHOLD` is first copied into a
    /// fresh out-of-line allocation, so that the address captured by the
    /// native layer stays fixed for the request's whole lifetime.
    pub fn from_bytes_mut(
        fd: i32,
        offs: i64,
        buf: BytesMut,
        prio: i32,
        sigev_notify: SigevNotify,
        opcode: LioOpcode,
    ) -> (r: AioCb)
        ensures
            r@ == (AioCbView {
                fd: fd as int,
                offset: offs as int,
                nbytes: bytes_mut_data(buf).len(),
                priority: prio as int,
                opcode,
                sigev: sigev_notify,
                mutable: true,
                in_progress: false,
                pending_read: false,
                buffer: BufferView::BytesMut(bytes_mut_data(buf)),
            }),
            r@.wf(),
    {
        let buf2 = if bytes_mut_len(&buf) < OUT_OF_LINE_THRESHOLD {
            let mut ool = bytes_mut_with_capacity(OUT_OF_LINE_THRESHOLD);
            bytes_mut_extend_from_slice(&mut ool, bytes_mut_as_slice(&buf));
            proof {
                assert(bytes_mut_data(ool) =~= bytes_mut_data(buf));
            }
            ool
        } else {
            buf
        };
        let nbytes = bytes_mut_len(&buf2);
        AioCb {
            fd,
            offset: offs,
            nbytes,
            priority: prio,
            opcode,
            sigev: sigev_notify,
            mutable: true,
            in_progress: false,
            pending_read: false,
            buffer: Buffer::BytesMut(buf2),
        }
    }

    /// Constructs a request over raw caller-managed memory of the given
    /// length: no buffer is owned here, and the caller bears full
    /// responsibility for the memory's validity, exclusivity and lifetime.
    /// A native layer that captures the actual address must do so through
    /// an explicitly unsafe entry point of its own; nothing in this crate
    /// reaches such memory.
    pub fn from_raw(
        fd: i32,
        offs: i64,
        len: usize,
        prio: i32,
        sigev_notify: SigevNotify,
        opcode: LioOpcode,
        mutable: bool,
    ) -> (r: AioCb)
        requires
            !mutable ==> opcode != LioOpcode::LIO_READ,
        ensures
            r@ == (AioCbView {
                fd: fd as int,
                offset: offs as int,
                nbytes: len as nat,
                priority: prio as int,
                opcode,
                sigev: sigev_notify,
                mutable,
                in_progress: false,
                pending_read: false,
                buffer: BufferView::Empty,
            }),
            r@.wf(),
    {
        AioCb {
            fd,
            offset: offs,
            nbytes: len,
            priority: prio,
            opcode,
            sigev: sigev_notify,
            mutable,
            in_progress: false,
            pending_read: false,
            buffer: Buffer::Empty,
        }
    }

    /// Borrow the buffer ownership variant without removing it.  May not
    /// be called while the request is in flight: the kernel may be
    /// rewriting the memory, so nothing may look at it.
    pub fn buffer_ref(&self) -> (r: &Buffer)
        requires
            !self@.in_progress,
        ensures
            r@ == self@.buffer,
    {
        &self.buffer
    }

    /// Remove the inner `Buffer` and return it, leaving the request with no
    /// buffer.  May not be called while the request is in flight: the kernel
    /// could still hold a pointer into the memory.
    pub fn buffer(&mut self) -> (r: Buffer)
        requires
            !old(self)@.in_progress,
        ensures
            r@ == old(self)@.buffer,
            final(self)@ == (AioCbView { buffer: BufferView::Empty, ..old(self)@ }),
    {
        let mut x = Buffer::Empty;
        std::mem::swap(&mut self.buffer, &mut x);
        x
    }

    /// Consume the request and return its inner owned buffer, if any; a
    /// borrowed or absent buffer comes back as `Buffer::Empty`.  May not be
    /// called while the request is in flight.
    pub fn into_buffer(self) -> (r: Buffer)
        requires
            !self@.in_progress,
        ensures
            self@.buffer is Bytes || self@.buffer is BytesMut ==> r@ == self@.buffer,
            !(self@.buffer is Bytes || self@.buffer is BytesMut) ==> r@ is Empty,
    {
        let mut this = self;
        let buf = this.buffer();
        match buf {
            Buffer::BytesMut(x) => Buffer::BytesMut(x),
            Buffer::Bytes(x) => Buffer::Bytes(x),
            _ => Buffer::Empty,
        }
    }

    /// The file descriptor the request acts on.
    pub fn fd(&self) -> (r: i32)
        ensures
            r as int == self@.fd,
    {
        self.fd
    }

    /// The requested length of the operation in bytes.  This is the
    /// *requested* length; the byte count of a completed operation comes
    /// from `aio_return`.
    pub fn nbytes(&self) -> (r: usize)
        ensures
            r as nat == self@.nbytes,
    {
        self.nbytes
    }

    /// The file offset of the request.
    pub fn offset(&self) -> (r: i64)
        ensures
            r as int == self@.offset,
    {
        self.offset
    }

    /// The priority hint of the request.
    pub fn priority(&self) -> (r: i32)
        ensures
            r as int == self@.priority,
    {
        self.priority
    }

    /// The request's operation code, used only by list submission.
    pub fn lio_opcode(&self) -> (r: Option<LioOpcode>)
        ensures
            r == Some(self@.opcode),
    {
        Some(self.opcode)
    }

    /// The completion-notification configuration stored in the request.
    pub fn sigevent(&self) -> (r: SigevNotify)
        ensures
            r == self@.sigev,
    {
        self.sigev
    }

    /// Whether the buffer may be read into.
    pub fn is_mutable(&self) -> (r: bool)
        ensures
            r == self@.mutable,
    {
        self.mutable
    }

    /// Whether the request is in flight: submitted, and its result not yet
    /// collected.
    pub fn in_progress(&self) -> (r: bool)
        ensures
            r == self@.in_progress,
    {
        self.in_progress
    }

    /// Replace the notification configuration.  Legal at any time, but has
    /// no retroactive effect on an operation already in flight.
    pub fn set_sigev_notify(&mut self, sigev_notify: SigevNotify)
        ensures
            final(self)@ == (AioCbView { sigev: sigev_notify, ..old(self)@ }),
    {
        self.sigev = sigev_notify;
    }

    /// Record the outcome of the native read submission for this request:
    /// `ret` is the native call's return value, `err` the error number
    /// observed when `ret` is -1.  On success the request becomes in
    /// flight with a read pending, and the buffer's contents are the
    /// kernel's to rewrite until the result is collected; on failure it is
    /// left exactly as it was, so the caller may retry or discard it.
    /// Reading into a buffer not marked mutable is a contract violation,
    /// ruled out before any native call is made.
    pub fn read(&mut self, ret: i32, err: i32) -> (r: Result<(), Errno>)
        requires
            old(self)@.mutable,
            !old(self)@.in_progress,
        ensures
            ret == -1 ==> r == Result::<(), Errno>::Err(Errno { code: err })
                && final(self)@ == old(self)@,
            ret != -1 ==> r == Result::<(), Errno>::Ok(())
                && final(self)@ == (AioCbView {
                    in_progress: true,
                    pending_read: true,
                    ..old(self)@
                }),
    {
        if ret == -1 {
            Err(Errno { code: err })
        } else {
            self.in_progress = true;
            self.pending_read = true;
            Ok(())
        }
    }

    /// Record the outcome of the native write submission for this request,
    /// with the same conventions as `read`.  No mutability is required of
    /// the buffer.
    pub fn write(&mut self, ret: i32, err: i32) -> (r: Result<(), Errno>)
        requires
            !old(self)@.in_progress,
        ensures
            ret == -1 ==> r == Result::<(), Errno>::Err(Errno { code: err })
                && final(self)@ == old(self)@,
            ret != -1 ==> r == Result::<(), Errno>::Ok(())
                && final(self)@ == (AioCbView {
                    in_progress: true,
                    pending_read: false,
                    ..old(self)@
                }),
    {
        if ret == -1 {
            Err(Errno { code: err })
        } else {
            self.in_progress = true;
            self.pending_read = false;
            Ok(())
        }
    }

    /// Record the outcome of the native fsync submission for this request,
    /// with the same conventions as `read`.  The fsync mode itself is
    /// consumed by the native call and leaves no trace in the request.
    pub fn fsync(&mut self, ret: i32, err: i32) -> (r: Result<(), Errno>)
        requires
            !old(self)@.in_progress,
        ensures
            ret == -1 ==> r == Result::<(), Errno>::Err(Errno { code: err })
                && final(self)@ == old(self)@,
            ret != -1 ==> r == Result::<(), Errno>::Ok(())
                && final(self)@ == (AioCbView {
                    in_progress: true,
                    pending_read: false,
                    ..old(self)@
                }),
    {
        if ret == -1 {
            Err(Errno { code: err })
        } else {
            self.in_progress = true;
            self.pending_read = false;
            Ok(())
        }
    }

    /// Decode the native per-request cancellation status.  Cancellation does
    /// not end the in-flight state by itself: completion must still be
    /// observed through `error` and collected through `aio_return`, so the
    /// request is left unchanged.
    pub fn cancel(&mut self, status: i32, err: i32) -> (r: Result<AioCancelStat, Errno>)
        requires
            old(self)@.in_progress,
            status == 0 || status == 1 || status == 2 || status == -1,
        ensures
            final(self)@ == old(self)@,
            status == 0 ==> r == Result::<AioCancelStat, Errno>::Ok(AioCancelStat::AioCanceled),
            status == 1 ==> r == Result::<AioCancelStat, Errno>::Ok(
                AioCancelStat::AioNotCanceled,
            ),
            status == 2 ==> r == Result::<AioCancelStat, Errno>::Ok(AioCancelStat::AioAllDone),
            status == -1 ==> r == Result::<AioCancelStat, Errno>::Err(Errno { code: err }),
    {
        cancel_result(status, err)
    }

    /// Decode the native non-blocking status query for an in-flight
    /// request: 0 means the operation finished without error, a positive
    /// value is the error number the operation finished with (the
    /// in-progress error number while it has not finished), and -1 means
    /// the query itself failed with `err`.  The request is left exactly as
    /// it was, so the query may be repeated freely while the operation is
    /// pending.  Any other native value is an unrecognized status and is
    /// ruled out as a contract violation.
    pub fn error(&mut self, status: i32, err: i32) -> (r: Result<(), Errno>)
        requires
            old(self)@.in_progress,
            status >= -1,
        ensures
            final(self)@ == old(self)@,
            status == 0 ==> r == Result::<(), Errno>::Ok(()),
            status > 0 ==> r == Result::<(), Errno>::Err(Errno { code: status }),
            status == -1 ==> r == Result::<(), Errno>::Err(Errno { code: err }),
    {
        if status == 0 {
            Ok(())
        } else if status > 0 {
            Err(Errno { code: status })
        } else {
            Err(Errno { code: err })
        }
    }

    /// Collect the final result of an in-flight operation once `error` has
    /// reported a terminal state: the number of bytes transferred, or the
    /// error the operation failed with.  This ends the in-flight state and
    /// may be called only once per submission; collecting a result that was
    /// never submitted, or collecting it twice, is a contract violation.
    ///
    /// Collecting a read acknowledges the kernel's write into the buffer:
    /// an owned mutable buffer then holds whatever the completed operation
    /// left in it, of which only the length is known; any other buffer is
    /// left as it was.
    pub fn aio_return(&mut self, ret: isize, err: i32) -> (r: Result<isize, Errno>)
        requires
            old(self)@.in_progress,
        ensures
            ret == -1 ==> r == Result::<isize, Errno>::Err(Errno { code: err }),
            ret != -1 ==> r == Result::<isize, Errno>::Ok(ret),
            !(old(self)@.pending_read && old(self)@.buffer is BytesMut) ==> final(self)@
                == (AioCbView { in_progress: false, pending_read: false, ..old(self)@ }),
            old(self)@.pending_read && old(self)@.buffer is BytesMut ==> {
                &&& final(self)@.buffer is BytesMut
                &&& final(self)@.buffer->BytesMut_0.len() == old(self)@.buffer->BytesMut_0.len()
                &&& final(self)@ == (AioCbView {
                    in_progress: false,
                    pending_read: false,
                    buffer: final(self)@.buffer,
                    ..old(self)@
                })
            },
    {
        self.in_progress = false;
        if self.pending_read {
            self.pending_read = false;
            let mut x = Buffer::Empty;
            std::mem::swap(&mut self.buffer, &mut x);
            let landed = match x {
                Buffer::BytesMut(b) => Buffer::BytesMut(bytes_mut_after_read(b)),
                other => other,
            };
            self.buffer = landed;
        }
        errno_result(ret, err)
    }

    /// Record the outcome of the native list submission for this request.
    /// One native call submits every listed request at once, so each listed
    /// request is handed the same return value.  On success a read or
    /// write entry becomes in flight (a read entry's buffer is then the
    /// kernel's to rewrite until collection) while a no-op entry is
    /// skipped and stays idle; on failure every request is left exactly as
    /// it was.  A read entry over a buffer not marked mutable is a
    /// contract violation, ruled out before any native call is made.
    pub fn lio_submitted(&mut self, ret: i32, err: i32) -> (r: Result<(), Errno>)
        requires
            !old(self)@.in_progress,
            old(self)@.opcode == LioOpcode::LIO_READ ==> old(self)@.mutable,
        ensures
            ret == -1 ==> r == Result::<(), Errno>::Err(Errno { code: err })
                && final(self)@ == old(self)@,
            ret != -1 && old(self)@.opcode == LioOpcode::LIO_NOP ==> r == Result::<(),
                Errno>::Ok(()) && final(self)@ == old(self)@,
            ret != -1 && old(self)@.opcode != LioOpcode::LIO_NOP ==> r == Result::<(),
                Errno>::Ok(()) && final(self)@ == (AioCbView {
                in_progress: true,
                pending_read: old(self)@.opcode == LioOpcode::LIO_READ,
                ..old(self)@
            }),
    {
        if ret == -1 {
            Err(Errno { code: err })
        } else {
            match self.opcode {
                LioOpcode::LIO_NOP => {},
                LioOpcode::LIO_WRITE => {
                    self.in_progress = true;
                    self.pending_read = false;
                },
                LioOpcode::LIO_READ => {
                    self.in_progress = true;
                    self.pending_read = true;
                },
            }
            Ok(())
        }
    }
}

/// The in-flight flag is true exactly between a successful submission and
/// result collection: submission marks the request in flight, collection
/// clears the flag again, and an idle request that goes through a write or
/// fsync submission and its collection comes back exactly as it was —
/// nothing else about it changes.  These are the state updates that
/// `write`, `fsync` and `aio_return` promise in their contracts.  A read
/// differs in one point only: its collection also renews an owned mutable
/// buffer's contents, keeping just the length, as `aio_return` states.
pub proof fn lemma_submit_collect_round_trip(v: AioCbView)
    requires
        !v.in_progress,
        !v.pending_read,
    ensures
        (AioCbView { in_progress: true, pending_read: false, ..v }).in_progress,
        (AioCbView {
            in_progress: false,
            pending_read: false,
            ..(AioCbView { in_progress: true, pending_read: false, ..v })
        }) == v,
{
}

/// The flag updates of submission and of the collection of a non-read,
/// and a notification update, never touch the captured buffer or its
/// recorded length.  Only the collection of a read renews the owned
/// contents — the kernel wrote into them — and even that preserves the
/// length, so the length recorded at construction stands for the
/// request's whole lifetime.
pub proof fn lemma_bookkeeping_preserves_buffer(v: AioCbView, flight: bool, pending: bool, sn: SigevNotify)
    ensures
        (AioCbView { in_progress: flight, pending_read: pending, ..v }).buffer == v.buffer,
        (AioCbView { in_progress: flight, pending_read: pending, ..v }).nbytes == v.nbytes,
        (AioCbView { sigev: sn, ..v }).buffer == v.buffer,
        (AioCbView { sigev: sn, ..v }).nbytes == v.nbytes,
{
}

/// An owned mutable buffer as it stands once a read into it has been
/// collected: the same allocation, with whatever contents the completed
/// operation left there.  The kernel rewrote the memory outside this
/// crate's view, so nothing but the length — which a native read never
/// changes — carries over from the value that was submitted.
#[verifier::external_body]
fn bytes_mut_after_read(b: BytesMut) -> (r: BytesMut)
    ensures
        bytes_mut_data(r).len() == bytes_mut_data(b).len(),
{
    b
}

/// Relies on `libc::AIO_CANCELED`: defined as 0 on this target.
#[verifier::external_body]
fn aio_canceled_code() -> (r: i32)
    ensures
        r == 0,
{
    libc::AIO_CANCELED
}

/// Relies on `libc::AIO_NOTCANCELED`: defined as 1 on this target.
#[verifier::external_body]
fn aio_notcanceled_code() -> (r: i32)
    ensures
        r == 1,
{
    libc::AIO_NOTCANCELED
}

/// Relies on `libc::AIO_ALLDONE`: defined as 2 on this target.
#[verifier::external_body]
fn aio_alldone_code() -> (r: i32)
    ensures
        r == 2,
{
    libc::AIO_ALLDONE
}

/// Decode the status reported by the native cancellation call, shared by
/// per-request cancellation and whole-descriptor cancellation: the three
/// enumerated outcomes, or -1 with the error number observed as `err`.  Any
/// other value is an unrecognized native status and is ruled out as a
/// contract violation rather than defaulted to an error value.
pub fn cancel_result(status: i32, err: i32) -> (r: Result<AioCancelStat, Errno>)
    requires
        status == 0 || status == 1 || status == 2 || status == -1,
    ensures
        status == 0 ==> r == Result::<AioCancelStat, Errno>::Ok(AioCancelStat::AioCanceled),
        status == 1 ==> r == Result::<AioCancelStat, Errno>::Ok(AioCancelStat::AioNotCanceled),
        status == 2 ==> r == Result::<AioCancelStat, Errno>::Ok(AioCancelStat::AioAllDone),
        status == -1 ==> r == Result::<AioCancelStat, Errno>::Err(Errno { code: err }),
{
    if status == aio_canceled_code() {
        Ok(AioCancelStat::AioCanceled)
    } else if status == aio_notcanceled_code() {
        Ok(AioCancelStat::AioNotCanceled)
    } else if status == aio_alldone_code() {
        Ok(AioCancelStat::AioAllDone)
    } else {
        Err(Errno { code: err })
    }
}

} // verus!
