//! The streaming state machine over a user-pointer buffer arena.
//!
//! A `Stream` owns the arena, the per-slot completion metadata, a queued
//! tag per slot, an optional wait timeout and the `active` flag.  The
//! device itself is driven by the embedding program: the library builds
//! each command payload, the program issues the command (an ioctl-style
//! control call or a readiness wait) and hands the outcome back, and the
//! library applies it to the state machine.  Every decision — which slots
//! a cycle enqueues, when a wait counts as a timeout, which teardown
//! failure is absorbed — is made and verified here.

use vstd::prelude::*;

use crate::arena::Arena;
use crate::buffer::BufType;
use crate::buffer::Metadata;
use crate::buffer::MEMORY_USERPTR;
use crate::error::classify_errno;
use crate::error::classify_spec;
use crate::error::StreamError;
use crate::error::EINVAL;

verus! {

/// Buffer count a stream conventionally asks the device to reserve when
/// the caller does not name one.
pub const DEFAULT_BUFFER_COUNT: u32 = 4;

/// Outcome of one device control command, as the embedding program
/// observed it: accepted, or refused with an operating-system error code.
#[derive(Clone, Copy, Debug, PartialEq, Eq, Structural)]
pub enum CmdOutcome {
    Accepted,
    Rejected(i32),
}

/// Outcome of one readiness wait: the wait woke with the given number of
/// ready events (zero after a bounded wait elapsed), or failed outright
/// with an operating-system error code.
#[derive(Clone, Copy, Debug, PartialEq, Eq, Structural)]
pub enum WaitOutcome {
    Woke(u32),
    Failed(i32),
}

/// Payload of an enqueue or dequeue command: the slot index, the buffer
/// type code, the memory-source code and the region length.  The region's
/// address is attached by the embedding program at the command boundary,
/// where the flat wire layout is assembled.
#[derive(Clone, Copy, Debug, PartialEq, Eq, Structural)]
pub struct BufferDesc {
    pub index: u32,
    pub typ: u32,
    pub memory: u32,
    pub length: u32,
}

/// What the device reports when a dequeue command completes: the slot it
/// chose and that slot's completion metadata fields.
#[derive(Clone, Copy, Debug, PartialEq, Eq, Structural)]
pub struct Completion {
    pub index: u32,
    pub bytesused: u32,
    pub flags: u32,
    pub field: u32,
    pub sec: i64,
    pub usec: i64,
    pub sequence: u32,
}

impl Completion {
    /// The metadata record this completion writes into its slot.
    pub open spec fn meta_spec(self) -> Metadata {
        Metadata {
            bytesused: self.bytesused,
            flags: self.flags,
            field: self.field,
            sec: self.sec,
            usec: self.usec,
            sequence: self.sequence,
        }
    }

    /// The metadata record this completion writes into its slot.
    pub fn metadata(&self) -> (r: Metadata)
        ensures
            r == self.meta_spec(),
    {
        Metadata {
            bytesused: self.bytesused,
            flags: self.flags,
            field: self.field,
            sec: self.sec,
            usec: self.usec,
            sequence: self.sequence,
        }
    }
}

/// Mathematical state of a stream: the buffer contents, the per-slot
/// metadata and queued tags, the wait timeout, the most recently returned
/// slot and the active flag.
#[verifier::ext_equal]
pub struct StreamView {
    pub fd: i32,
    pub buf_type: BufType,
    pub bufs: Seq<Seq<u8>>,
    pub buf_len: usize,
    pub meta: Seq<Metadata>,
    pub queued: Seq<bool>,
    pub timeout: Option<i32>,
    pub active: bool,
    pub index: usize,
}

impl StreamView {
    /// Well-formedness: metadata and queued tags are index-aligned with
    /// the arena, the pool has at least one slot and fits the wire
    /// descriptor's 32-bit fields, the most recently returned index is in
    /// range, a bounded timeout is non-negative, and every slot holds a
    /// region of the recorded length.
    pub open spec fn wf(self) -> bool {
        &&& self.meta.len() == self.bufs.len()
        &&& self.queued.len() == self.bufs.len()
        &&& 1 <= self.bufs.len()
        &&& self.bufs.len() <= (u32::MAX as int)
        &&& (self.index as int) < self.bufs.len()
        &&& (self.buf_len as int) <= (u32::MAX as int)
        &&& match self.timeout {
            Some(t) => t >= 0,
            None => true,
        }
        &&& forall|i: int|
            0 <= i < self.bufs.len() ==> (#[trigger] self.bufs[i]).len() == self.buf_len
    }

    /// A further enqueue of `index` is accepted exactly when the slot
    /// exists and is not already in the queued set.
    pub open spec fn accepts_queue(self, index: usize) -> bool {
        &&& (index as int) < self.queued.len()
        &&& !self.queued[index as int]
    }

    /// State after the device completed `c`: slot `c.index` leaves the
    /// queued set, its metadata is overwritten with the reported record,
    /// and it becomes the most recently returned slot.
    pub open spec fn after_dequeue(self, c: Completion) -> StreamView {
        StreamView {
            index: c.index as usize,
            meta: self.meta.update(c.index as int, c.meta_spec()),
            queued: self.queued.update(c.index as int, false),
            ..self
        }
    }
}

/// The slots one cycle enqueues before waiting: every slot, in index
/// order, when the stream is not yet active (the pipeline is primed with
/// the full pool); otherwise only the slot most recently returned to the
/// caller.
pub open spec fn cycle_plan_spec(s: StreamView) -> Seq<usize> {
    if !s.active {
        Seq::new(s.bufs.len(), |i: int| i as usize)
    } else {
        seq![s.index]
    }
}

/// Stream of user-pointer buffers.
///
/// An arena instance is used internally for buffer handling.  The
/// `active` flag records whether the device has accepted a start command
/// and not since accepted a stop command.
pub struct Stream {
    fd: i32,
    arena: Arena,
    arena_index: usize,
    buf_type: BufType,
    buf_meta: Vec<Metadata>,
    queued: Vec<bool>,
    timeout: Option<i32>,
    active: bool,
}

impl View for Stream {
    type V = StreamView;

    closed spec fn view(&self) -> StreamView {
        StreamView {
            fd: self.fd,
            buf_type: self.buf_type,
            bufs: self.arena@,
            buf_len: self.arena.buf_len_spec(),
            meta: self.buf_meta@,
            queued: self.queued@,
            timeout: self.timeout,
            active: self.active,
            index: self.arena_index,
        }
    }
}

impl Stream {
    /// Builds a stream for the conventional buffer-count request: the
    /// embedding program asks the device to reserve `DEFAULT_BUFFER_COUNT`
    /// slots and hands in the count the device granted together with the
    /// per-buffer length the current format reports.
    pub fn new(fd: i32, buf_type: BufType, granted: u32, buf_len: usize) -> (r: Result<
        Stream,
        StreamError,
    >)
        requires
            buf_len <= (u32::MAX as usize),
        ensures
            granted == 0 ==> r is Err && r->Err_0 == StreamError::DeviceRejected,
            granted >= 1 ==> r is Ok && Self::fresh(r->Ok_0@, fd, buf_type, granted, buf_len),
    {
        Stream::with_buffers(fd, buf_type, granted, buf_len)
    }

    /// What a freshly constructed stream looks like: idle, nothing queued,
    /// all metadata zeroed, no timeout, every region zero-filled.
    pub open spec fn fresh(
        s: StreamView,
        fd: i32,
        buf_type: BufType,
        granted: u32,
        buf_len: usize,
    ) -> bool {
        &&& s.fd == fd
        &&& s.buf_type == buf_type
        &&& s.buf_len == buf_len
        &&& s.active == false
        &&& s.index == 0
        &&& s.timeout is None
        &&& s.bufs.len() == granted
        &&& forall|i: int|
            0 <= i < granted ==> #[trigger] s.bufs[i] == Seq::new(buf_len as nat, |k: int| 0u8)
        &&& s.meta == Seq::new(granted as nat, |i: int| Metadata::empty_spec())
        &&& s.queued == Seq::new(granted as nat, |i: int| false)
        &&& s.wf()
    }

    /// Builds a stream once the device has answered the reserve-buffers
    /// request: `granted` is the count the device granted for the request
    /// the embedding program made (the device may clamp it; callers must
    /// use the granted count from here on), `buf_len` the per-buffer
    /// length.  A grant of zero slots means the device refused.
    pub fn with_buffers(fd: i32, buf_type: BufType, granted: u32, buf_len: usize) -> (r: Result<
        Stream,
        StreamError,
    >)
        requires
            buf_len <= (u32::MAX as usize),
        ensures
            granted == 0 ==> r is Err && r->Err_0 == StreamError::DeviceRejected,
            granted >= 1 ==> r is Ok && Self::fresh(r->Ok_0@, fd, buf_type, granted, buf_len),
    {
        let mut arena = Arena::new(buf_type);
        let count = match arena.allocate(granted, buf_len) {
            Ok(c) => c,
            Err(e) => {
                return Err(e);
            },
        };
        let total: usize = count as usize;
        let mut buf_meta: Vec<Metadata> = Vec::new();
        let mut queued: Vec<bool> = Vec::new();
        let mut i: usize = 0;
        while i < total
            invariant
                i <= total,
                buf_meta@.len() == i,
                queued@.len() == i,
                forall|n: int| 0 <= n < i ==> #[trigger] buf_meta@[n] == Metadata::empty_spec(),
                forall|n: int| 0 <= n < i ==> #[trigger] queued@[n] == false,
            decreases total - i,
        {
            buf_meta.push(Metadata::default());
            queued.push(false);
            i = i + 1;
        }
        proof {
            assert(buf_meta@ =~= Seq::new(granted as nat, |n: int| Metadata::empty_spec()));
            assert(queued@ =~= Seq::new(granted as nat, |n: int| false));
        }
        Ok(
            Stream {
                fd,
                arena,
                arena_index: 0,
                buf_type,
                buf_meta,
                queued,
                timeout: None,
                active: false,
            },
        )
    }

    /// The raw device descriptor the stream was built for.
    pub fn handle(&self) -> (r: i32)
        ensures
            r == self@.fd,
    {
        self.fd
    }

    /// Bounds every later readiness wait to `ms` milliseconds.
    pub fn set_timeout(&mut self, ms: u32)
        requires
            ms <= (i32::MAX as u32),
        ensures
            final(self)@ == (StreamView { timeout: Some(ms as i32), ..old(self)@ }),
    {
        self.timeout = Some(ms as i32);
    }

    /// Makes every later readiness wait block indefinitely.
    pub fn clear_timeout(&mut self)
        ensures
            final(self)@ == (StreamView { timeout: None, ..old(self)@ }),
    {
        self.timeout = None;
    }

    /// The timeout argument for the readiness wait: the configured bound
    /// in milliseconds, or -1 to block indefinitely.
    pub fn wait_timeout_ms(&self) -> (r: i32)
        ensures
            match self@.timeout {
                Some(t) => r == t,
                None => r == -1,
            },
    {
        match self.timeout {
            Some(t) => t,
            None => -1,
        }
    }

    /// Number of slots in the arena.
    pub fn buffer_count(&self) -> (r: usize)
        ensures
            r == self@.bufs.len(),
    {
        self.arena.len()
    }

    /// Whether the device has been told to stream and not since been
    /// stopped.
    pub fn is_active(&self) -> (r: bool)
        ensures
            r == self@.active,
    {
        self.active
    }

    /// Whether the slot at `index` is currently lent to the device.
    pub fn is_queued(&self, index: usize) -> (r: bool)
        requires
            (index as int) < self@.queued.len(),
        ensures
            r == self@.queued[index as int],
    {
        self.queued[index]
    }

    /// Payload for the start- and stop-streaming commands: the buffer type
    /// code.  Defined in every state — stopping an idle stream still
    /// issues the device command.
    pub fn stream_command(&self) -> (r: u32)
        ensures
            r == self@.buf_type.code_spec(),
    {
        self.buf_type.code()
    }

    /// Blank descriptor for the dequeue command: buffer type and memory
    /// source set, index and length left for the device to fill.
    pub fn buffer_desc(&self) -> (r: BufferDesc)
        ensures
            r == (BufferDesc {
                index: 0,
                typ: self@.buf_type.code_spec(),
                memory: MEMORY_USERPTR,
                length: 0,
            }),
    {
        BufferDesc { index: 0, typ: self.buf_type.code(), memory: MEMORY_USERPTR, length: 0 }
    }

    /// Descriptor for enqueueing the slot at `index`: fails — without a
    /// command being issued — if the slot is out of range or already in
    /// the queued set, so no slot is ever submitted twice.
    pub fn queue_desc(&self, index: usize) -> (r: Result<BufferDesc, StreamError>)
        requires
            self@.wf(),
        ensures
            !self@.accepts_queue(index) ==> r is Err && r->Err_0 == StreamError::DeviceError(
                EINVAL,
            ),
            self@.accepts_queue(index) ==> r is Ok && r->Ok_0 == (BufferDesc {
                index: index as u32,
                typ: self@.buf_type.code_spec(),
                memory: MEMORY_USERPTR,
                length: self@.buf_len as u32,
            }),
    {
        if index >= self.arena.len() || self.queued[index] {
            return Err(StreamError::DeviceError(EINVAL));
        }
        Ok(
            BufferDesc {
                index: index as u32,
                typ: self.buf_type.code(),
                memory: MEMORY_USERPTR,
                length: self.arena.buffer_len() as u32,
            },
        )
    }

    /// Applies the outcome of the enqueue command for slot `index`: on
    /// acceptance the slot enters the queued set (ownership passes to the
    /// device); on refusal, or if the slot was not eligible, the state is
    /// unchanged and the error is surfaced.
    pub fn queue(&mut self, index: usize, dev: CmdOutcome) -> (r: Result<(), StreamError>)
        requires
            old(self)@.wf(),
        ensures
            final(self)@.wf(),
            !old(self)@.accepts_queue(index) ==> r is Err && r->Err_0 == StreamError::DeviceError(
                EINVAL,
            ) && final(self)@ == old(self)@,
            old(self)@.accepts_queue(index) ==> match dev {
                CmdOutcome::Accepted => r is Ok && final(self)@ == (StreamView {
                    queued: old(self)@.queued.update(index as int, true),
                    ..old(self)@
                }),
                CmdOutcome::Rejected(e) => r is Err && r->Err_0 == classify_spec(e) && final(self)@
                    == old(self)@,
            },
    {
        if index >= self.queued.len() || self.queued[index] {
            return Err(StreamError::DeviceError(EINVAL));
        }
        match dev {
            CmdOutcome::Accepted => {
                self.queued[index] = true;
                Ok(())
            },
            CmdOutcome::Rejected(code) => Err(classify_errno(code)),
        }
    }

    /// Applies the outcome of the start-streaming command: on acceptance
    /// the stream becomes active; on refusal it stays idle and the error
    /// is surfaced.
    pub fn start(&mut self, dev: CmdOutcome) -> (r: Result<(), StreamError>)
        ensures
            match dev {
                CmdOutcome::Accepted => r is Ok && final(self)@ == (StreamView {
                    active: true,
                    ..old(self)@
                }),
                CmdOutcome::Rejected(e) => r is Err && r->Err_0 == classify_spec(e) && final(self)@
                    == old(self)@,
            },
    {
        match dev {
            CmdOutcome::Accepted => {
                self.active = true;
                Ok(())
            },
            CmdOutcome::Rejected(code) => Err(classify_errno(code)),
        }
    }

    /// Applies the outcome of the stop-streaming command: on acceptance
    /// the stream becomes idle (observably unchanged if it already was);
    /// on refusal the state is unchanged and the error is surfaced.
    pub fn stop(&mut self, dev: CmdOutcome) -> (r: Result<(), StreamError>)
        ensures
            match dev {
                CmdOutcome::Accepted => r is Ok && final(self)@ == (StreamView {
                    active: false,
                    ..old(self)@
                }),
                CmdOutcome::Rejected(e) => r is Err && r->Err_0 == classify_spec(e) && final(self)@
                    == old(self)@,
            },
    {
        match dev {
            CmdOutcome::Accepted => {
                self.active = false;
                Ok(())
            },
            CmdOutcome::Rejected(code) => Err(classify_errno(code)),
        }
    }

    /// Applies the outcome of the implicit stop issued while the stream is
    /// being destroyed: a vanished device is absorbed — the stream is
    /// simply considered stopped — while every other failure is surfaced
    /// for the destructor to treat as fatal.
    pub fn teardown(&mut self, dev: CmdOutcome) -> (r: Result<(), StreamError>)
        ensures
            match dev {
                CmdOutcome::Accepted => r is Ok && final(self)@ == (StreamView {
                    active: false,
                    ..old(self)@
                }),
                CmdOutcome::Rejected(e) => if classify_spec(e) is DeviceGone {
                    r is Ok && final(self)@ == (StreamView { active: false, ..old(self)@ })
                } else {
                    r is Err && r->Err_0 == StreamError::DeviceError(e) && final(self)@ == old(
                        self,
                    )@
                },
            },
    {
        match dev {
            CmdOutcome::Accepted => {
                self.active = false;
                Ok(())
            },
            CmdOutcome::Rejected(code) => {
                let err = classify_errno(code);
                if err.ignorable_on_teardown() {
                    self.active = false;
                    Ok(())
                } else {
                    Err(err)
                }
            },
        }
    }

    /// Decides what a readiness-wait outcome means for the cycle: zero
    /// ready events after a bounded wait is a timeout — recoverable, and
    /// no dequeue command is to be issued — while a failed wait surfaces
    /// as a device error.
    pub fn check_wait(w: WaitOutcome) -> (r: Result<(), StreamError>)
        ensures
            match w {
                WaitOutcome::Woke(n) => if n == 0 {
                    r is Err && r->Err_0 == StreamError::Timeout
                } else {
                    r is Ok
                },
                WaitOutcome::Failed(e) => r is Err && r->Err_0 == classify_spec(e),
            },
    {
        match w {
            WaitOutcome::Woke(n) => {
                if n == 0 {
                    Err(StreamError::Timeout)
                } else {
                    Ok(())
                }
            },
            WaitOutcome::Failed(code) => Err(classify_errno(code)),
        }
    }

    /// Applies a completed dequeue: the reported slot leaves the queued
    /// set, its metadata is overwritten with the reported record, and it
    /// becomes the most recently returned slot — the caller may read it
    /// until the next cycle re-submits it.
    pub fn dequeue_done(&mut self, c: &Completion) -> (r: usize)
        requires
            old(self)@.wf(),
            (c.index as int) < old(self)@.bufs.len(),
        ensures
            r == c.index,
            final(self)@ == old(self)@.after_dequeue(*c),
            final(self)@.wf(),
    {
        let index = c.index as usize;
        self.arena_index = index;
        self.buf_meta[index] = c.metadata();
        self.queued[index] = false;
        proof {
            assert(self@ =~= old(self)@.after_dequeue(*c));
        }
        index
    }

    /// Read access to the slot at `index`: its memory together with the
    /// metadata from the last time that slot was dequeued.  Fails if the
    /// index is out of range; changes no state or ownership.
    pub fn get(&self, index: usize) -> (r: Result<(&Vec<u8>, Metadata), StreamError>)
        requires
            self@.wf(),
        ensures
            (index as int) < self@.bufs.len() ==> r is Ok && r->Ok_0.0@ == self@.bufs[index as int]
                && r->Ok_0.1 == self@.meta[index as int],
            (index as int) >= self@.bufs.len() ==> r is Err && r->Err_0 == StreamError::DeviceError(
                EINVAL,
            ),
    {
        if index >= self.arena.len() {
            return Err(StreamError::DeviceError(EINVAL));
        }
        Ok((self.arena.buffer_at(index), self.buf_meta[index]))
    }

    /// The slots the coming cycle enqueues, in order: every slot when the
    /// stream is not yet active, otherwise only the most recently returned
    /// one.
    pub fn cycle_plan(&self) -> (r: Vec<usize>)
        requires
            self@.wf(),
        ensures
            r@ == cycle_plan_spec(self@),
    {
        let mut plan: Vec<usize> = Vec::new();
        if !self.active {
            let count = self.arena.len();
            let mut i: usize = 0;
            while i < count
                invariant
                    i <= count,
                    plan@.len() == i,
                    forall|n: int| 0 <= n < i ==> #[trigger] plan@[n] == n as usize,
                decreases count - i,
            {
                plan.push(i);
                i = i + 1;
            }
        } else {
            plan.push(self.arena_index);
        }
        proof {
            assert(plan@ =~= cycle_plan_spec(self@));
        }
        plan
    }
}

/// A slot in the queued set is never accepted by a further enqueue; once a
/// dequeue has returned that slot, it is accepted again.
pub proof fn lemma_no_requeue_while_queued(s: StreamView, c: Completion)
    requires
        s.wf(),
        (c.index as int) < s.bufs.len(),
        s.queued[c.index as int],
    ensures
        !s.accepts_queue(c.index as usize),
        s.after_dequeue(c).accepts_queue(c.index as usize),
{
}

/// Stopping a stream that is already idle leaves the observable state
/// unchanged; the device command is still issued, only its outcome is
/// applied to an unchanged state.
pub proof fn lemma_stop_idle_is_noop(s: StreamView)
    requires
        !s.active,
    ensures
        (StreamView { active: false, ..s }) == s,
{
    assert((StreamView { active: false, ..s }) =~= s);
}

/// The first cycle on a stream that is not yet active plans one enqueue
/// per arena slot — each slot exactly once, in index order — before the
/// single start command is issued.
pub proof fn lemma_first_cycle_queues_all(s: StreamView)
    requires
        s.wf(),
        !s.active,
    ensures
        cycle_plan_spec(s).len() == s.bufs.len(),
        forall|i: int| 0 <= i < s.bufs.len() ==> (#[trigger] cycle_plan_spec(s)[i]) as int == i,
{
}

/// Every cycle after the first plans exactly one enqueue: the slot most
/// recently returned to the caller.
pub proof fn lemma_steady_cycle_queues_one(s: StreamView)
    requires
        s.wf(),
        s.active,
    ensures
        cycle_plan_spec(s).len() == 1,
        cycle_plan_spec(s)[0] == s.index,
{
}

/// After a dequeue reporting completion `c`, slot `c.index` holds exactly
/// the reported metadata, every other slot's record is unchanged, and
/// `c.index` is the most recently returned slot.
pub proof fn lemma_metadata_fidelity(s: StreamView, c: Completion)
    requires
        s.wf(),
        (c.index as int) < s.bufs.len(),
    ensures
        s.after_dequeue(c).meta[c.index as int] == c.meta_spec(),
        forall|k: int|
            0 <= k < s.meta.len() && k != c.index ==> #[trigger] s.after_dequeue(c).meta[k]
                == s.meta[k],
        s.after_dequeue(c).index == c.index as usize,
{
}

} // verus!

