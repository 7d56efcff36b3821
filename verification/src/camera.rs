use crate::channel::drain_frames;
use crate::channel::new_control_channel;
use crate::channel::new_frame_channel;
use crate::channel::try_send_op;
use crate::control::lookup;
use crate::control::set_outcome;
use crate::control::CameraControl;
use crate::control::ControlId;
use crate::control::ControlStore;
use crate::control::ControlValueSetter;
use crate::frame::apply_drained;
use crate::frame::BackgroundImage;
use crate::frame::Frame;
use crate::CameraError;
use vstd::prelude::*;

verus! {

/// An operation the consumer asks the capture worker to apply to the
/// device between frame pulls.
pub enum CameraOperation {
    Control { id: ControlId, control: ControlValueSetter },
}

/// The consumer-side handle of one opened camera session: the receiving
/// end of the frame channel, the sending end of the control channel, and
/// the control surface enumerated when the session was opened.
pub struct BackgroundCamera {
    pub image_rx: flume::Receiver<Frame>,
    pub operation_tx: flume::Sender<CameraOperation>,
    pub controls: ControlStore,
}

/// How many devices were enumerated and which one was asked for decide the
/// session's device: `NoDeviceFound` exactly when the list is empty, else
/// the requested index, defaulting to the first device.
pub fn resolve_device_index(device_count: usize, requested: Option<usize>) -> (r: Result<
    usize,
    CameraError,
>)
    ensures
        device_count == 0 <==> r == Err::<usize, CameraError>(CameraError::NoDeviceFound),
        device_count > 0 ==> r == Ok::<usize, CameraError>(
            match requested {
                Some(i) => i,
                None => 0usize,
            },
        ),
{
    if device_count == 0 {
        Err(CameraError::NoDeviceFound)
    } else {
        match requested {
            Some(i) => Ok(i),
            None => Ok(0),
        }
    }
}

/// What a read of a boolean control observes: the value last accepted for
/// it, if the control exists and currently holds a boolean.
pub open spec fn read_bool(s: Seq<CameraControl>, id: ControlId) -> Option<bool> {
    match lookup(s, id) {
        Some(c) => match c.value {
            ControlValueSetter::Boolean(b) => Some(b),
            _ => None,
        },
        None => None,
    }
}

/// What a read of an integer control observes.
pub open spec fn read_i64(s: Seq<CameraControl>, id: ControlId) -> Option<i64> {
    match lookup(s, id) {
        Some(c) => match c.value {
            ControlValueSetter::Integer(x) => Some(x),
            _ => None,
        },
        None => None,
    }
}

/// What a read of a float control observes, as an IEEE-754 bit pattern.
pub open spec fn read_f64_bits(s: Seq<CameraControl>, id: ControlId) -> Option<u64> {
    match lookup(s, id) {
        Some(c) => match c.value {
            ControlValueSetter::Float(b) => Some(b),
            _ => None,
        },
        None => None,
    }
}

impl BackgroundCamera {
    pub open spec fn wf(self) -> bool {
        self.controls.wf()
    }

    /// Assembles the consumer-side handle from the controls enumerated at
    /// session start, building the two channels; returns beside it the
    /// worker-side endpoints: the sending end of the frame channel and the
    /// receiving end of the control channel. Of controls sharing an
    /// identifier only the first enumerated one is kept.
    pub fn create(enumerated: Vec<CameraControl>) -> (r: (
        BackgroundCamera,
        flume::Sender<Frame>,
        flume::Receiver<CameraOperation>,
    ))
        requires
            forall|i: int| 0 <= i < enumerated@.len() ==> enumerated@[i].wf(),
        ensures
            r.0.wf(),
            forall|id: ControlId|
                lookup(r.0.controls.controls(), id) == lookup(enumerated@, id),
    {
        let (frame_tx, frame_rx) = new_frame_channel();
        let (op_tx, op_rx) = new_control_channel();
        let mut store = ControlStore::new();
        let n = enumerated.len();
        let mut i: usize = 0;
        while i < n
            invariant
                n == enumerated@.len(),
                i <= n,
                forall|k: int| 0 <= k < enumerated@.len() ==> enumerated@[k].wf(),
                store.wf(),
                forall|id: ControlId|
                    lookup(store.controls(), id) == lookup(enumerated@.take(i as int), id),
            decreases n - i,
        {
            let c = enumerated[i];
            let ghost prev = store.controls();
            let added = store.add(c);
            proof {
                assert(enumerated@.take(i + 1) =~= enumerated@.take(i as int).push(c));
                assert forall|id: ControlId|
                    lookup(store.controls(), id) == lookup(enumerated@.take(i + 1), id) by {
                    crate::control::lemma_lookup_push(enumerated@.take(i as int), c, id);
                    if added {
                        crate::control::lemma_lookup_push(prev, c, id);
                    }
                }
            }
            i = i + 1;
        }
        proof {
            assert(enumerated@.take(n as int) =~= enumerated@);
        }
        let camera = BackgroundCamera { image_rx: frame_rx, operation_tx: op_tx, controls: store };
        (camera, frame_tx, op_rx)
    }

    /// Reads the locally recorded value of a boolean control: the value
    /// last accepted for it, if the control exists and is boolean-valued.
    pub fn get_mut_bool_control(&self, id: &ControlId) -> (r: Option<bool>)
        requires
            self.wf(),
        ensures
            r == read_bool(self.controls.controls(), *id),
    {
        match self.controls.get(*id) {
            Some(c) => match c.value {
                ControlValueSetter::Boolean(b) => Some(b),
                _ => None,
            },
            None => None,
        }
    }

    /// Reads the locally recorded value of an integer control, as
    /// `get_mut_bool_control` does for booleans.
    pub fn get_mut_i64_control(&self, id: &ControlId) -> (r: Option<i64>)
        requires
            self.wf(),
        ensures
            r == read_i64(self.controls.controls(), *id),
    {
        match self.controls.get(*id) {
            Some(c) => match c.value {
                ControlValueSetter::Integer(x) => Some(x),
                _ => None,
            },
            None => None,
        }
    }

    /// Reads the locally recorded value of a float control, as the IEEE-754
    /// bit pattern of the 64-bit value (`f64::from_bits` recovers it at the
    /// unverified edge).
    pub fn get_mut_f64_control(&self, id: &ControlId) -> (r: Option<u64>)
        requires
            self.wf(),
        ensures
            r == read_f64_bits(self.controls.controls(), *id),
    {
        match self.controls.get(*id) {
            Some(c) => match c.value {
                ControlValueSetter::Float(b) => Some(b),
                _ => None,
            },
            None => None,
        }
    }

    /// The control-mutation API. Validates the setter against the control's
    /// enumerated description; a rejected setter changes nothing and names
    /// its reason (`UnsupportedControl`, `InvalidValue`). An accepted one
    /// is recorded locally and enqueued for the capture worker,
    /// fire-and-forget: `Ok(queued)` says whether the capacity-1 control
    /// channel took it, and a dropped enqueue is not an error.
    pub fn set_control(&mut self, id: ControlId, v: ControlValueSetter) -> (r: Result<
        bool,
        CameraError,
    >)
        requires
            old(self).wf(),
        ensures
            final(self).wf(),
            r is Ok <==> set_outcome(old(self).controls.controls(), id, v) is Ok,
            r matches Err(e) ==> set_outcome(old(self).controls.controls(), id, v) == Err::<
                (),
                CameraError,
            >(e),
            r is Err ==> final(self).controls.controls() == old(self).controls.controls(),
            r is Ok ==> {
                &&& lookup(final(self).controls.controls(), id) matches Some(c2)
                    && lookup(old(self).controls.controls(), id) matches Some(c) && c2
                    == (CameraControl { id: c.id, description: c.description, value: v })
                &&& forall|other: ControlId|
                    other != id ==> lookup(final(self).controls.controls(), other) == lookup(
                        old(self).controls.controls(),
                        other,
                    )
            },
    {
        match self.controls.set(id, v) {
            Ok(()) => {
                let queued = try_send_op(
                    &self.operation_tx,
                    CameraOperation::Control { id, control: v },
                );
                Ok(queued)
            },
            Err(e) => Err(e),
        }
    }
}

/// Control round-trip: once a store carries an accepted setter for a
/// control — as `ControlStore::set` and `BackgroundCamera::set_control`
/// ensure after a successful write — the read for that control's kind
/// returns exactly the written value, whichever kind it is.
pub proof fn lemma_control_round_trip(s: Seq<CameraControl>, id: ControlId, v: ControlValueSetter)
    requires
        lookup(s, id) matches Some(c) && c.value == v,
    ensures
        v matches ControlValueSetter::Integer(x) ==> read_i64(s, id) == Some(x),
        v matches ControlValueSetter::Float(b) ==> read_f64_bits(s, id) == Some(b),
        v matches ControlValueSetter::Boolean(b) ==> read_bool(s, id) == Some(b),
{
}

/// Runs once per render tick on the consumer schedule: drains the frame
/// channel completely and overwrites the shared image with the most recent
/// frame, leaving it untouched when none arrived. Never blocks and never
/// panics, whatever the capture thread did meanwhile.
pub fn handle_background_image(camera: &BackgroundCamera, image: &mut BackgroundImage)
    ensures
        final(image).0@.wf(),
{
    let drained = drain_frames(&camera.image_rx);
    apply_drained(image, drained);
    image.0.check_wf();
}

} // verus!
