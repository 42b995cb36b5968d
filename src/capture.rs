use vstd::prelude::*;

use crate::temperature_humidity::SensorError;

verus! {

/// Shortest high phase, in nanoseconds, that encodes a 1 bit.
pub const ONE_BIT_THRESHOLD_NS: u64 = 40000;

/// Number of bits that one capture collects.
pub const CAPTURE_BITS: usize = 40;

/// Direction of a transition on the line.
#[derive(Debug, PartialEq, Eq, Structural, Clone, Copy)]
pub enum EdgeKind {
    Rising,
    Falling,
}

/// One observed transition: its direction and its monotonic timestamp in
/// nanoseconds.
#[derive(Debug, PartialEq, Eq, Structural, Clone, Copy)]
pub struct EdgeEvent {
    pub kind: EdgeKind,
    pub timestamp: u64,
}

/// What the line's edge stream yields to an ongoing capture.
#[derive(Debug)]
pub enum LineSignal {
    /// The next edge.
    Edge(EdgeEvent),
    /// The stream ended.
    StreamEnded,
    /// The line reported an error.
    LineFault(gpio_cdev::Error),
    /// The overall deadline of the read passed.
    DeadlineExceeded,
}

/// Where a capture stands.
#[derive(Debug, PartialEq, Eq, Structural, Clone, Copy)]
pub enum CapturePhase {
    /// Waiting for the sensor's falling-edge acknowledgment.
    AwaitingAck,
    /// Acknowledged; pairing edges into bits.
    CollectingBits,
    /// All bits were collected.
    Complete,
    /// The capture failed.
    Faulted,
}

/// What the driver does after handing a signal to the capture.
#[derive(Debug)]
pub enum CaptureStep {
    /// Await the next signal.
    Continue,
    /// Stop: these are the captured bits.
    Done(Vec<u8>),
    /// Stop: the read failed.
    Failed(SensorError),
}

/// The bit that a high phase of `interval` nanoseconds encodes.
pub open spec fn bit_for_interval(interval: int) -> u8 {
    if interval < ONE_BIT_THRESHOLD_NS {
        0
    } else {
        1
    }
}

/// The abstract state of a capture.
pub struct CaptureModel {
    pub phase: CapturePhase,
    /// Bits collected so far.
    pub bits: Seq<u8>,
    /// Timestamp of the first edge of a bit whose second edge is awaited.
    pub pending: Option<u64>,
}

/// Whether a capture in phase `p` takes no more signals.
pub open spec fn is_terminal(p: CapturePhase) -> bool {
    p == CapturePhase::Complete || p == CapturePhase::Faulted
}

/// The transition of the capture protocol: from state `s`, the signal `sig`
/// leads to state `t` and the driver action `out`.
pub open spec fn steps_to(s: CaptureModel, sig: LineSignal, t: CaptureModel, out: CaptureStep) -> bool {
    match sig {
        LineSignal::StreamEnded => {
            &&& t.phase == CapturePhase::Faulted
            &&& out matches CaptureStep::Failed(SensorError::BadRead)
        },
        LineSignal::DeadlineExceeded => {
            &&& t.phase == CapturePhase::Faulted
            &&& out matches CaptureStep::Failed(SensorError::TimeoutError)
        },
        LineSignal::LineFault(e) => {
            &&& t.phase == CapturePhase::Faulted
            &&& out matches CaptureStep::Failed(SensorError::GpioError(x)) && x == e
        },
        LineSignal::Edge(edge) => if s.phase == CapturePhase::AwaitingAck {
            if edge.kind == EdgeKind::Falling {
                &&& t == (CaptureModel {
                    phase: CapturePhase::CollectingBits,
                    bits: Seq::empty(),
                    pending: None,
                })
                &&& out is Continue
            } else {
                &&& t.phase == CapturePhase::Faulted
                &&& out matches CaptureStep::Failed(SensorError::InvalidAck)
            }
        } else {
            match s.pending {
                None => {
                    &&& t == (CaptureModel { pending: Some(edge.timestamp), ..s })
                    &&& out is Continue
                },
                Some(start) => if edge.timestamp < start {
                    &&& t.phase == CapturePhase::Faulted
                    &&& out matches CaptureStep::Failed(SensorError::BadRead)
                } else {
                    let bits = s.bits.push(bit_for_interval(edge.timestamp - start));
                    &&& t.bits == bits
                    &&& t.pending is None
                    &&& if bits.len() == CAPTURE_BITS {
                        &&& t.phase == CapturePhase::Complete
                        &&& out matches CaptureStep::Done(v) && v@ == bits
                    } else {
                        &&& t.phase == CapturePhase::CollectingBits
                        &&& out is Continue
                    }
                },
            }
        },
    }
}

/// A capture whose first edge is not a falling edge fails at once with an
/// invalid acknowledgment and takes no further edge.
pub proof fn lemma_rising_ack_fails(s: CaptureModel, edge: EdgeEvent, t: CaptureModel, out: CaptureStep)
    requires
        s.phase == CapturePhase::AwaitingAck,
        edge.kind != EdgeKind::Falling,
        steps_to(s, LineSignal::Edge(edge), t, out),
    ensures
        out matches CaptureStep::Failed(SensorError::InvalidAck),
        is_terminal(t.phase),
{
}

/// Once the deadline passes, a capture fails with a timeout from any state
/// in which it still takes signals, however many edges were still to come.
pub proof fn lemma_deadline_times_out(s: CaptureModel, t: CaptureModel, out: CaptureStep)
    requires
        !is_terminal(s.phase),
        steps_to(s, LineSignal::DeadlineExceeded, t, out),
    ensures
        out matches CaptureStep::Failed(SensorError::TimeoutError),
        is_terminal(t.phase),
{
}

/// The timing rule is a threshold: below it a 0, at or above it a 1.
pub proof fn lemma_timing_threshold(interval: int)
    ensures
        interval < 40000 ==> bit_for_interval(interval) == 0,
        interval >= 40000 ==> bit_for_interval(interval) == 1,
        bit_for_interval(40000) == 1,
{
}

/// The bits that the timing rule gives to the first `n` pairs of edges after
/// the acknowledgment `edges[0]`.
pub open spec fn pair_bits(edges: Seq<EdgeEvent>, n: int) -> Seq<u8> {
    Seq::new(
        n as nat,
        |j: int| bit_for_interval(edges[2 * j + 2].timestamp - edges[2 * j + 1].timestamp),
    )
}

/// The state of a capture that has taken `edges[0..k]`, acknowledged and
/// still collecting.
pub open spec fn collecting_after(edges: Seq<EdgeEvent>, k: int) -> CaptureModel {
    CaptureModel {
        phase: CapturePhase::CollectingBits,
        bits: pair_bits(edges, (k - 1) / 2),
        pending: if (k - 1) % 2 == 1 {
            Some(edges[k - 1].timestamp)
        } else {
            None
        },
    }
}

/// A run of the capture protocol over `edges`: `states[i]` takes `edges[i]`
/// to `states[i + 1]`, with driver action `outs[i]`.
pub open spec fn is_run(
    edges: Seq<EdgeEvent>,
    states: Seq<CaptureModel>,
    outs: Seq<CaptureStep>,
) -> bool {
    &&& states.len() == edges.len() + 1
    &&& outs.len() == edges.len()
    &&& forall|i: int|
        0 <= i < edges.len() ==> #[trigger] steps_to(
            states[i],
            LineSignal::Edge(edges[i]),
            states[i + 1],
            outs[i],
        )
}

/// Timestamps that never decrease.
pub open spec fn monotonic(edges: Seq<EdgeEvent>) -> bool {
    forall|i: int|
        0 <= i < edges.len() - 1 ==> #[trigger] edges[i].timestamp <= edges[i + 1].timestamp
}

proof fn lemma_run_prefix(
    edges: Seq<EdgeEvent>,
    states: Seq<CaptureModel>,
    outs: Seq<CaptureStep>,
    k: int,
)
    requires
        edges.len() == 81,
        is_run(edges, states, outs),
        states[0] == (CaptureModel {
            phase: CapturePhase::AwaitingAck,
            bits: Seq::empty(),
            pending: None,
        }),
        edges[0].kind == EdgeKind::Falling,
        monotonic(edges),
        1 <= k <= 80,
    ensures
        states[k] == collecting_after(edges, k),
        forall|i: int| 0 <= i < k ==> outs[i] is Continue,
    decreases k,
{
    assert(steps_to(states[0], LineSignal::Edge(edges[0]), states[1], outs[0]));
    if k == 1 {
        assert(pair_bits(edges, 0) =~= Seq::<u8>::empty());
    } else {
        lemma_run_prefix(edges, states, outs, k - 1);
        let i = k - 1;
        assert(steps_to(states[i], LineSignal::Edge(edges[i]), states[k], outs[i]));
        if (i - 1) % 2 == 1 {
            let j = (i - 1) / 2;
            assert(edges[i - 1].timestamp <= edges[i].timestamp);
            assert(pair_bits(edges, j + 1) =~= pair_bits(edges, j).push(
                bit_for_interval(edges[i].timestamp - edges[i - 1].timestamp),
            ));
            assert(states[k] =~= collecting_after(edges, k));
        } else {
            assert(states[k] =~= collecting_after(edges, k));
        }
    }
}

/// A capture that takes a falling acknowledgment and then eighty edges whose
/// timestamps never decrease asks for every edge and ends with the forty bits
/// that the timing rule gives to the eighty edges, pair by pair.
pub proof fn lemma_full_capture(
    edges: Seq<EdgeEvent>,
    states: Seq<CaptureModel>,
    outs: Seq<CaptureStep>,
)
    requires
        edges.len() == 81,
        is_run(edges, states, outs),
        states[0] == (CaptureModel {
            phase: CapturePhase::AwaitingAck,
            bits: Seq::empty(),
            pending: None,
        }),
        edges[0].kind == EdgeKind::Falling,
        monotonic(edges),
    ensures
        forall|i: int| 0 <= i < 80 ==> outs[i] is Continue,
        outs[80] matches CaptureStep::Done(v) && v@ == pair_bits(edges, 40),
        states[81].phase == CapturePhase::Complete,
{
    lemma_run_prefix(edges, states, outs, 80);
    assert(steps_to(states[80], LineSignal::Edge(edges[80]), states[81], outs[80]));
    assert(edges[79].timestamp <= edges[80].timestamp);
    assert(pair_bits(edges, 40) =~= pair_bits(edges, 39).push(
        bit_for_interval(edges[80].timestamp - edges[79].timestamp),
    ));
}

/// The bit encoded by the high phase between two consecutive edges: 0 below
/// the threshold, 1 at or above it.
pub fn line_evt_tuple_to_bit(edges: (EdgeEvent, EdgeEvent)) -> (r: u8)
    requires
        edges.0.timestamp <= edges.1.timestamp,
    ensures
        r == bit_for_interval(edges.1.timestamp - edges.0.timestamp),
{
    let (edge_one, edge_two) = edges;
    if edge_two.timestamp - edge_one.timestamp < ONE_BIT_THRESHOLD_NS {
        0
    } else {
        1
    }
}

/// One read's capture of the sensor's reply: the acknowledgment edge, then
/// forty pairs of edges, one bit per pair.
pub struct BitCapture {
    phase: CapturePhase,
    bits: Vec<u8>,
    pending: Option<u64>,
}

impl View for BitCapture {
    type V = CaptureModel;

    closed spec fn view(&self) -> CaptureModel {
        CaptureModel { phase: self.phase, bits: self.bits@, pending: self.pending }
    }
}

impl BitCapture {
    /// Whether the collected bits and the phase agree.
    pub closed spec fn wf(&self) -> bool {
        &&& self.bits@.len() <= CAPTURE_BITS
        &&& (self.phase == CapturePhase::CollectingBits ==> self.bits@.len() < CAPTURE_BITS)
        &&& (self.phase == CapturePhase::AwaitingAck ==> self.bits@.len() == 0
            && self.pending is None)
    }

    /// A capture waiting for the acknowledgment.
    pub fn new() -> (r: BitCapture)
        ensures
            r.wf(),
            r@ == (CaptureModel { phase: CapturePhase::AwaitingAck, bits: Seq::empty(), pending: None }),
    {
        BitCapture { phase: CapturePhase::AwaitingAck, bits: Vec::new(), pending: None }
    }

    /// Where the capture stands.
    pub fn phase(&self) -> (r: CapturePhase)
        ensures
            r == self@.phase,
    {
        self.phase
    }

    /// Whether the capture takes no more signals.
    pub fn is_finished(&self) -> (r: bool)
        ensures
            r == is_terminal(self@.phase),
    {
        self.phase == CapturePhase::Complete || self.phase == CapturePhase::Faulted
    }

    /// Number of bits collected so far.
    pub fn bits_collected(&self) -> (r: usize)
        requires
            self.wf(),
        ensures
            r == self@.bits.len(),
    {
        self.bits.len()
    }

    /// Hands the next signal of the line to the capture and says what the
    /// driver does next.
    pub fn on_signal(&mut self, signal: LineSignal) -> (out: CaptureStep)
        requires
            old(self).wf(),
            !is_terminal(old(self)@.phase),
        ensures
            final(self).wf(),
            steps_to(old(self)@, signal, final(self)@, out),
    {
        match signal {
            LineSignal::StreamEnded => {
                self.phase = CapturePhase::Faulted;
                CaptureStep::Failed(SensorError::BadRead)
            },
            LineSignal::DeadlineExceeded => {
                self.phase = CapturePhase::Faulted;
                CaptureStep::Failed(SensorError::TimeoutError)
            },
            LineSignal::LineFault(e) => {
                self.phase = CapturePhase::Faulted;
                CaptureStep::Failed(SensorError::GpioError(e))
            },
            LineSignal::Edge(edge) => {
                if self.phase == CapturePhase::AwaitingAck {
                    if edge.kind == EdgeKind::Falling {
                        self.phase = CapturePhase::CollectingBits;
                        assert(self.bits@ =~= Seq::<u8>::empty());
                        CaptureStep::Continue
                    } else {
                        self.phase = CapturePhase::Faulted;
                        CaptureStep::Failed(SensorError::InvalidAck)
                    }
                } else {
                    match self.pending {
                        None => {
                            self.pending = Some(edge.timestamp);
                            CaptureStep::Continue
                        },
                        Some(start) => {
                            if edge.timestamp < start {
                                self.phase = CapturePhase::Faulted;
                                return CaptureStep::Failed(SensorError::BadRead);
                            }
                            let first = EdgeEvent { kind: EdgeKind::Falling, timestamp: start };
                            let bit = line_evt_tuple_to_bit((first, edge));
                            self.bits.push(bit);
                            self.pending = None;
                            if self.bits.len() == CAPTURE_BITS {
                                self.phase = CapturePhase::Complete;
                                CaptureStep::Done(self.bits.clone())
                            } else {
                                CaptureStep::Continue
                            }
                        },
                    }
                }
            },
        }
    }
}

} // verus!
