use crate::camera::CameraOperation;
use crate::frame::Frame;
use vstd::prelude::*;

verus! {

#[verifier::external_type_specification]
#[verifier::external_body]
#[verifier::reject_recursive_types(T)]
pub struct ExSender<T>(flume::Sender<T>);

#[verifier::external_type_specification]
#[verifier::external_body]
#[verifier::reject_recursive_types(T)]
pub struct ExReceiver<T>(flume::Receiver<T>);

/// Relies on flume::unbounded: a channel with no capacity bound, whose
/// sends never block; the capture worker owns the sending end, the
/// consumer the receiving end.
#[verifier::external_body]
pub(crate) fn new_frame_channel() -> (flume::Sender<Frame>, flume::Receiver<Frame>) {
    flume::unbounded()
}

/// Relies on flume::bounded with capacity 1: at most one control operation
/// is ever pending; the consumer owns the sending end, the capture worker
/// the receiving end.
#[verifier::external_body]
pub(crate) fn new_control_channel() -> (flume::Sender<CameraOperation>, flume::Receiver<
    CameraOperation,
>) {
    flume::bounded(1)
}

/// Relies on flume::Sender::send on an unbounded channel: never blocks,
/// hands ownership of the frame to the channel, and fails only when every
/// receiver is gone. Returns whether the channel accepted the frame.
#[verifier::external_body]
pub(crate) fn send_frame(tx: &flume::Sender<Frame>, frame: Frame) -> (delivered: bool) {
    tx.send(frame).is_ok()
}

/// Relies on flume::Receiver::drain: takes every frame sitting in the
/// channel at the moment of the call, in the order they were sent, without
/// blocking and without waiting for more. What it holds depends on the
/// capture thread, so nothing is promised of the contents.
#[verifier::external_body]
pub(crate) fn drain_frames(rx: &flume::Receiver<Frame>) -> (drained: Vec<Frame>) {
    rx.drain().collect()
}

/// Relies on flume::Sender::try_send on the capacity-1 control channel:
/// never blocks; refuses the operation when one is already pending or the
/// worker is gone (best-effort delivery). Returns whether it was queued.
#[verifier::external_body]
pub(crate) fn try_send_op(tx: &flume::Sender<CameraOperation>, op: CameraOperation) -> (queued:
    bool) {
    tx.try_send(op).is_ok()
}

/// Relies on flume::Receiver::try_recv: takes the pending control
/// operation without blocking, if one was queued.
#[verifier::external_body]
pub(crate) fn try_recv_op(rx: &flume::Receiver<CameraOperation>) -> (op: Option<CameraOperation>) {
    rx.try_recv().ok()
}

} // verus!
