//! Frame receiver: synchronizes the telemetry byte stream onto a frame
//! boundary and extracts a fixed-size payload.
//!
//! Two framing strategies exist, selected once at configuration time. The
//! fixed-width strategy polls a cooperative sender with a trigger byte and
//! reads an exact number of bytes, abandoning the cycle on the first failed
//! read. The delimited strategy listens to a free-running sender, discards
//! everything before a sentinel byte, and then collects a fixed trailing body,
//! substituting a zero byte for every failed read so that the frame is always
//! consumed byte for byte and synchronization is never lost to a single error.
//!
//! The caller owns the channel: it reads one byte at a time and feeds each
//! outcome (`Some(byte)` or `None` for a failed read) into a receiver, which
//! answers with the fault to report and the completed frame, if any.

use vstd::prelude::*;

use crate::fault::Fault;
use crate::fault::FaultStage;

verus! {

/// Byte sent to poll the sensor for a frame under fixed-width framing
/// (ASCII `0`).
pub const TRIGGER_BYTE: u8 = 48;

/// Byte value that opens a delimited frame (ASCII `{`).
pub const SENTINEL: u8 = 123;

/// Payload length of a fixed-width frame.
pub const FIXED_PAYLOAD_LEN: usize = 5;

/// Length of the structured body following the sentinel of a delimited frame.
pub const DELIMITED_PAYLOAD_LEN: usize = 74;

/// The framing strategy a deployment is built with.
#[derive(Clone, Copy, Debug, PartialEq, Eq, Structural)]
pub enum FrameStrategy {
    /// Poll the sensor with a trigger byte, then read an exact payload.
    FixedWidth,
    /// Scan a free-running stream for the sentinel, then read the body.
    Delimited,
}

/// Payload length of one frame under strategy `s`.
pub open spec fn spec_payload_len(s: FrameStrategy) -> int {
    match s {
        FrameStrategy::FixedWidth => FIXED_PAYLOAD_LEN as int,
        FrameStrategy::Delimited => DELIMITED_PAYLOAD_LEN as int,
    }
}

impl FrameStrategy {
    /// Number of payload bytes one frame carries.
    pub fn payload_len(self) -> (n: usize)
        ensures
            n as int == spec_payload_len(self),
    {
        match self {
            FrameStrategy::FixedWidth => FIXED_PAYLOAD_LEN,
            FrameStrategy::Delimited => DELIMITED_PAYLOAD_LEN,
        }
    }

    /// The byte the caller must send before reading a frame: fixed-width
    /// framing polls the sensor, delimited framing listens silently.
    pub fn trigger_byte(self) -> (t: Option<u8>)
        ensures
            self is FixedWidth ==> t == Some(TRIGGER_BYTE),
            self is Delimited ==> t is None,
    {
        match self {
            FrameStrategy::FixedWidth => Some(TRIGGER_BYTE),
            FrameStrategy::Delimited => None,
        }
    }
}

/// What one fed byte outcome produced: at most one fault to report, and the
/// completed frame payload, if this byte finished one.
pub struct FeedEvent {
    /// The fault this byte outcome raised, if any.
    pub fault: Option<Fault>,
    /// The completed payload, if this byte finished a frame.
    pub frame: Option<Vec<u8>>,
}

// ---------------------------------------------------------------------------
// Fixed-width framing
// ---------------------------------------------------------------------------

/// What one byte outcome does to fixed-width framing.
pub struct FixedStep {
    /// The frame in progress after the byte.
    pub next: Seq<u8>,
    /// Whether this byte outcome raises a read fault.
    pub faulted: bool,
    /// The completed payload, if this byte finished a frame.
    pub frame: Option<Seq<u8>>,
}

/// Transition of fixed-width framing on one byte outcome. A failed read
/// raises a fault and abandons the frame in progress (the cycle's remaining
/// bytes are never read; the next cycle polls afresh); a good byte raises no
/// fault and completes the frame exactly when it is the last payload byte.
pub open spec fn fixed_step(buf: Seq<u8>, read: Option<u8>) -> FixedStep {
    match read {
        None => FixedStep { next: Seq::empty(), faulted: true, frame: None },
        Some(x) => {
            let grown = buf.push(x);
            if grown.len() == FIXED_PAYLOAD_LEN as int {
                FixedStep { next: Seq::empty(), faulted: false, frame: Some(grown) }
            } else {
                FixedStep { next: grown, faulted: false, frame: None }
            }
        },
    }
}

/// How many read faults fixed-width framing raises over a whole stream of
/// byte outcomes, starting from the frame in progress `buf`.
pub open spec fn fixed_fault_count(buf: Seq<u8>, reads: Seq<Option<u8>>) -> nat
    decreases reads.len(),
{
    if reads.len() == 0 {
        0
    } else {
        let st = fixed_step(buf, reads.first());
        (if st.faulted {
            1nat
        } else {
            0nat
        }) + fixed_fault_count(st.next, reads.drop_first())
    }
}

/// How many of a stream's byte reads failed.
pub open spec fn failed_read_count(reads: Seq<Option<u8>>) -> nat
    decreases reads.len(),
{
    if reads.len() == 0 {
        0
    } else {
        (if reads.first() is None {
            1nat
        } else {
            0nat
        }) + failed_read_count(reads.drop_first())
    }
}

/// Fixed-width framing raises exactly one read fault per failed byte, not
/// per frame: over any stream of byte outcomes, the faults raised equal the
/// reads that failed, whatever frame was in progress.
pub proof fn lemma_one_fault_per_failed_byte(buf: Seq<u8>, reads: Seq<Option<u8>>)
    ensures
        fixed_fault_count(buf, reads) == failed_read_count(reads),
    decreases reads.len(),
{
    if reads.len() > 0 {
        lemma_one_fault_per_failed_byte(fixed_step(buf, reads.first()).next, reads.drop_first());
    }
}

/// Receiver for fixed-width framing: collects exactly `FIXED_PAYLOAD_LEN`
/// bytes after the caller's trigger. The first failed read abandons the cycle
/// (remaining bytes are not read); the next cycle starts with a fresh trigger.
pub struct FixedReceiver {
    buf: Vec<u8>,
}

impl FixedReceiver {
    /// Bytes of the frame in progress.
    pub closed spec fn collected(&self) -> Seq<u8> {
        self.buf@
    }

    /// A frame in progress is always shorter than a full payload: completing
    /// it hands the payload out and empties the receiver.
    pub open spec fn wf(&self) -> bool {
        self.collected().len() < FIXED_PAYLOAD_LEN as int
    }

    /// A receiver with no frame in progress.
    pub fn new() -> (r: Self)
        ensures
            r.wf(),
            r.collected() == Seq::<u8>::empty(),
    {
        FixedReceiver { buf: Vec::new() }
    }

    /// One byte outcome fed into fixed-width framing, mirroring
    /// [`fixed_step`]: exactly the failed reads raise a read fault, and a
    /// frame comes out exactly when the transition completes one.
    pub open spec fn feed_post(pre: FixedReceiver, post: FixedReceiver, read: Option<u8>, ev: FeedEvent) -> bool {
        let st = fixed_step(pre.collected(), read);
        &&& post.wf()
        &&& post.collected() == st.next
        &&& (ev.fault is Some <==> st.faulted)
        &&& (ev.fault matches Some(f) ==> f.stage == FaultStage::Read)
        &&& (match ev.frame {
            Some(p) => Some(p@),
            None => None::<Seq<u8>>,
        }) == st.frame
    }

    /// Feed the outcome of one blocking byte read: `Some(byte)` for a byte
    /// received, `None` for a failed read.
    pub fn feed(&mut self, read: Option<u8>) -> (ev: FeedEvent)
        requires
            old(self).wf(),
        ensures
            Self::feed_post(*old(self), *final(self), read, ev),
    {
        match read {
            None => {
                self.buf.clear();
                assert(self.collected() =~= fixed_step(old(self).collected(), read).next);
                FeedEvent { fault: Some(Fault::read_failure()), frame: None }
            },
            Some(x) => {
                self.buf.push(x);
                if self.buf.len() == FIXED_PAYLOAD_LEN {
                    let mut payload: Vec<u8> = Vec::new();
                    core::mem::swap(&mut payload, &mut self.buf);
                    assert(self.collected() =~= fixed_step(old(self).collected(), read).next);
                    FeedEvent { fault: None, frame: Some(payload) }
                } else {
                    FeedEvent { fault: None, frame: None }
                }
            },
        }
    }
}

// ---------------------------------------------------------------------------
// Delimited framing
// ---------------------------------------------------------------------------

/// Ghost mirror of a delimited receiver: whether it is still scanning for the
/// sentinel, and the body bytes collected so far.
#[verifier::ext_equal]
pub struct DelimState {
    /// True while everything is discarded until a sentinel byte arrives.
    pub seeking: bool,
    /// Body bytes collected since the sentinel.
    pub body: Seq<u8>,
}

/// The state a delimited receiver starts in: scanning, nothing collected.
pub open spec fn delim_initial() -> DelimState {
    DelimState { seeking: true, body: Seq::empty() }
}

/// What one byte outcome does to a delimited receiver.
pub struct DelimStep {
    /// The state after the byte.
    pub next: DelimState,
    /// Whether this byte outcome raises a read fault.
    pub faulted: bool,
    /// The completed body, if this byte finished a frame.
    pub frame: Option<Seq<u8>>,
}

/// Transition of delimited framing on one byte outcome. A failed read
/// substitutes a zero byte (which is never the sentinel) and raises a fault,
/// so the frame is consumed byte for byte even under errors. While scanning,
/// everything before the sentinel is discarded; after it, bytes accumulate
/// until the body is complete, and the receiver then scans for the next frame.
pub open spec fn delim_step(m: DelimState, read: Option<u8>) -> DelimStep {
    let byte = match read {
        Some(b) => b,
        None => 0u8,
    };
    let faulted = read is None;
    if m.seeking {
        if byte == SENTINEL {
            DelimStep { next: DelimState { seeking: false, body: Seq::empty() }, faulted, frame: None }
        } else {
            DelimStep { next: m, faulted, frame: None }
        }
    } else {
        let body = m.body.push(byte);
        if body.len() == DELIMITED_PAYLOAD_LEN as int {
            DelimStep { next: delim_initial(), faulted, frame: Some(body) }
        } else {
            DelimStep { next: DelimState { seeking: false, body }, faulted, frame: None }
        }
    }
}

/// The payloads delimited framing extracts from a whole stream of byte
/// outcomes, starting at state `m`.
pub open spec fn delim_frames(m: DelimState, reads: Seq<Option<u8>>) -> Seq<Seq<u8>>
    decreases reads.len(),
{
    if reads.len() == 0 {
        Seq::empty()
    } else {
        let st = delim_step(m, reads.first());
        let rest = delim_frames(st.next, reads.drop_first());
        match st.frame {
            Some(f) => seq![f] + rest,
            None => rest,
        }
    }
}

/// Garbage ahead of a frame is invisible: a stream prefixed with any number
/// of non-sentinel bytes yields exactly the frames of the unprefixed stream.
pub proof fn lemma_garbage_prefix_ignored(garbage: Seq<Option<u8>>, rest: Seq<Option<u8>>)
    requires
        forall|i: int| 0 <= i < garbage.len() ==> ((#[trigger] garbage[i]) matches Some(b) && b != SENTINEL),
    ensures
        delim_frames(delim_initial(), garbage + rest) == delim_frames(delim_initial(), rest),
    decreases garbage.len(),
{
    if garbage.len() > 0 {
        let all = garbage + rest;
        assert(all.first() == garbage[0]);
        assert(delim_step(delim_initial(), all.first()).next == delim_initial());
        assert(all.drop_first() =~= garbage.drop_first() + rest);
        assert(forall|i: int| 0 <= i < garbage.drop_first().len()
            ==> ((#[trigger] garbage.drop_first()[i]) matches Some(b) && b != SENTINEL));
        lemma_garbage_prefix_ignored(garbage.drop_first(), rest);
    }
}

/// Receiver for delimited framing.
pub struct DelimitedReceiver {
    seeking: bool,
    buf: Vec<u8>,
}

impl DelimitedReceiver {
    /// The receiver's state as the transition model sees it.
    pub closed spec fn model(&self) -> DelimState {
        DelimState { seeking: self.seeking, body: self.buf@ }
    }

    /// While scanning nothing is collected, and a body in progress is always
    /// shorter than a full payload.
    pub open spec fn wf(&self) -> bool {
        &&& (self.model().seeking ==> self.model().body.len() == 0)
        &&& self.model().body.len() < DELIMITED_PAYLOAD_LEN as int
    }

    /// A receiver scanning for the first sentinel.
    pub fn new() -> (r: Self)
        ensures
            r.wf(),
            r.model() == delim_initial(),
    {
        DelimitedReceiver { seeking: true, buf: Vec::new() }
    }

    /// One byte outcome fed into delimited framing, mirroring `delim_step`:
    /// exactly the failed reads raise a read fault, and a frame comes out
    /// exactly when the model completes one.
    pub open spec fn feed_post(pre: DelimitedReceiver, post: DelimitedReceiver, read: Option<u8>, ev: FeedEvent) -> bool {
        let st = delim_step(pre.model(), read);
        &&& post.wf()
        &&& post.model() == st.next
        &&& (ev.fault is Some <==> st.faulted)
        &&& (ev.fault matches Some(f) ==> f.stage == FaultStage::Read)
        &&& (match ev.frame {
            Some(p) => Some(p@),
            None => None::<Seq<u8>>,
        }) == st.frame
    }

    /// Feed the outcome of one blocking byte read: `Some(byte)` for a byte
    /// received, `None` for a failed read (a zero byte is substituted).
    pub fn feed(&mut self, read: Option<u8>) -> (ev: FeedEvent)
        requires
            old(self).wf(),
        ensures
            Self::feed_post(*old(self), *final(self), read, ev),
    {
        let byte = match read {
            Some(b) => b,
            None => 0u8,
        };
        let fault = if read.is_none() {
            Some(Fault::read_failure())
        } else {
            None
        };
        if self.seeking {
            if byte == SENTINEL {
                self.seeking = false;
            }
            assert(self.model() =~= delim_step(old(self).model(), read).next);
            FeedEvent { fault, frame: None }
        } else {
            self.buf.push(byte);
            if self.buf.len() == DELIMITED_PAYLOAD_LEN {
                let mut payload: Vec<u8> = Vec::new();
                core::mem::swap(&mut payload, &mut self.buf);
                self.seeking = true;
                assert(self.model() =~= delim_step(old(self).model(), read).next);
                FeedEvent { fault, frame: Some(payload) }
            } else {
                assert(self.model() =~= delim_step(old(self).model(), read).next);
                FeedEvent { fault, frame: None }
            }
        }
    }
}

// ---------------------------------------------------------------------------
// Strategy-polymorphic receiver
// ---------------------------------------------------------------------------

/// A receiver for whichever framing strategy the deployment was configured
/// with; the control loop feeds it without caring which one.
pub enum FrameReceiver {
    /// Fixed-width framing in progress.
    FixedWidth(FixedReceiver),
    /// Delimited framing in progress.
    Delimited(DelimitedReceiver),
}

impl FrameReceiver {
    /// The strategy this receiver implements.
    pub open spec fn strategy(&self) -> FrameStrategy {
        match self {
            FrameReceiver::FixedWidth(_) => FrameStrategy::FixedWidth,
            FrameReceiver::Delimited(_) => FrameStrategy::Delimited,
        }
    }

    /// The wrapped receiver is well formed.
    pub open spec fn wf(&self) -> bool {
        match self {
            FrameReceiver::FixedWidth(r) => r.wf(),
            FrameReceiver::Delimited(r) => r.wf(),
        }
    }

    /// A fresh receiver for the given strategy.
    pub fn for_strategy(s: FrameStrategy) -> (r: Self)
        ensures
            r.wf(),
            r.strategy() == s,
            (r matches FrameReceiver::FixedWidth(f) ==> f.collected() == Seq::<u8>::empty()),
            (r matches FrameReceiver::Delimited(d) ==> d.model() == delim_initial()),
    {
        match s {
            FrameStrategy::FixedWidth => FrameReceiver::FixedWidth(FixedReceiver::new()),
            FrameStrategy::Delimited => FrameReceiver::Delimited(DelimitedReceiver::new()),
        }
    }

    /// Feed one byte outcome to whichever receiver is configured; the
    /// strategy never changes, and the wrapped receiver steps by its own
    /// transition contract.
    pub fn feed(&mut self, read: Option<u8>) -> (ev: FeedEvent)
        requires
            old(self).wf(),
        ensures
            final(self).wf(),
            final(self).strategy() == old(self).strategy(),
            ((*old(self)) matches FrameReceiver::FixedWidth(pre) ==> (*final(self)) matches
                FrameReceiver::FixedWidth(post) && FixedReceiver::feed_post(pre, post, read, ev)),
            ((*old(self)) matches FrameReceiver::Delimited(pre) ==> (*final(self)) matches
                FrameReceiver::Delimited(post) && DelimitedReceiver::feed_post(pre, post, read, ev)),
    {
        match self {
            FrameReceiver::FixedWidth(r) => r.feed(read),
            FrameReceiver::Delimited(r) => r.feed(read),
        }
    }
}

} // verus!
