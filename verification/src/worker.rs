use crate::camera::CameraOperation;
use crate::channel::send_frame;
use crate::channel::try_recv_op;
use crate::control::ControlId;
use crate::control::ControlValueSetter;
use crate::frame::coalesced;
use crate::frame::Frame;
use crate::frame::FramePixels;
use vstd::prelude::*;

verus! {

/// The decision state of the capture worker: one long-lived loop that owns
/// the device session exclusively, pulls one frame per iteration and
/// applies pending control changes between pulls. It runs until the first
/// capture failure, which stops it for good: the consumer then keeps
/// showing the last delivered frame (freeze, not crash).
pub struct CaptureWorker {
    pub running: bool,
}

impl CaptureWorker {
    pub fn new() -> (r: CaptureWorker)
        ensures
            r.running,
    {
        CaptureWorker { running: true }
    }

    /// Step one of an iteration: a non-blocking poll of the control
    /// channel. Whatever operation was pending becomes the control
    /// application the loop hands to the device session; a failure of that
    /// application is non-fatal and must not stop the loop.
    pub fn poll_control(&self, rx: &flume::Receiver<CameraOperation>) -> (r: Option<(
        ControlId,
        ControlValueSetter,
    )>) {
        let pending = try_recv_op(rx);
        decide_control_application(pending)
    }

    /// Step two of an iteration: a successful capture is pushed onto the
    /// frame channel and the loop goes on; a capture failure stops the
    /// worker permanently and delivers nothing. Returns whether the channel
    /// accepted a frame this iteration.
    pub fn handle_capture(&mut self, captured: Option<Frame>, tx: &flume::Sender<Frame>) -> (
    forwarded: bool)
        ensures
            final(self).running == (old(self).running && captured is Some),
            forwarded ==> old(self).running && captured is Some,
    {
        if !self.running {
            return false;
        }
        match captured {
            Some(frame) => send_frame(tx, frame),
            None => {
                self.running = false;
                false
            },
        }
    }
}

/// What a pending operation asks the worker to apply to the device
/// session: for a control operation, exactly its identifier and setter.
pub open spec fn control_application_of(op: Option<CameraOperation>) -> Option<(
    ControlId,
    ControlValueSetter,
)> {
    match op {
        Some(CameraOperation::Control { id, control }) => Some((id, control)),
        None => None,
    }
}

/// The worker's decision on a polled operation, for any operation the
/// channel may have handed back.
pub fn decide_control_application(op: Option<CameraOperation>) -> (r: Option<(
    ControlId,
    ControlValueSetter,
)>)
    ensures
        r == control_application_of(op),
{
    match op {
        Some(CameraOperation::Control { id, control }) => Some((id, control)),
        None => None,
    }
}

/// The frames a worker delivers onto the frame channel, given the outcome
/// of each capture attempt in order: every captured frame up to the first
/// failure. The failure stops the worker, so nothing after it is
/// delivered.
pub open spec fn delivered_frames(outcomes: Seq<Option<FramePixels>>) -> Seq<FramePixels>
    decreases outcomes.len(),
{
    if outcomes.len() == 0 {
        Seq::empty()
    } else {
        match outcomes[0] {
            Some(f) => seq![f] + delivered_frames(outcomes.drop_first()),
            None => Seq::empty(),
        }
    }
}

/// Freeze on failure: when every capture before iteration `k` succeeded
/// and the capture of iteration `k` failed, exactly the frames of
/// iterations `0` to `k - 1` were delivered; a coalescing pass then leaves
/// the shared image at the frame of iteration `k - 1`, and every later
/// tick drains an empty channel and changes nothing.
pub proof fn lemma_freeze_on_failure(outcomes: Seq<Option<FramePixels>>, k: int, current: FramePixels)
    requires
        0 < k < outcomes.len(),
        outcomes[k] is None,
        forall|j: int| 0 <= j < k ==> outcomes[j] is Some,
    ensures
        delivered_frames(outcomes).len() == k,
        forall|j: int| 0 <= j < k ==> delivered_frames(outcomes)[j] == outcomes[j]->0,
        coalesced(delivered_frames(outcomes), current) == outcomes[k - 1]->0,
        forall|frozen: FramePixels| coalesced(Seq::<FramePixels>::empty(), frozen) == frozen,
{
    lemma_delivered_up_to_failure(outcomes, k);
}

proof fn lemma_delivered_up_to_failure(outcomes: Seq<Option<FramePixels>>, k: int)
    requires
        0 <= k < outcomes.len(),
        outcomes[k] is None,
        forall|j: int| 0 <= j < k ==> outcomes[j] is Some,
    ensures
        delivered_frames(outcomes).len() == k,
        forall|j: int| 0 <= j < k ==> delivered_frames(outcomes)[j] == outcomes[j]->0,
    decreases k,
{
    if k == 0 {
    } else {
        let rest = outcomes.drop_first();
        lemma_delivered_up_to_failure(rest, k - 1);
        let head = seq![outcomes[0]->0];
        assert(delivered_frames(outcomes) == head + delivered_frames(rest));
        assert forall|j: int| 0 <= j < k implies delivered_frames(outcomes)[j] == outcomes[j]->0 by {
            if j == 0 {
                assert((head + delivered_frames(rest))[0] == outcomes[0]->0);
            } else {
                assert((head + delivered_frames(rest))[j] == delivered_frames(rest)[j - 1]);
                assert(rest[j - 1] == outcomes[j]);
            }
        }
    }
}

} // verus!
