mod background;
mod camera;
mod channel;
mod control;
mod frame;
mod worker;

pub use background::image_nonempty;
pub use background::lemma_dimension_change_rebuild;
pub use background::next_upload_state;
pub use background::upload_action;
pub use background::BackgroundNode;
pub use background::UploadAction;
pub use background::UploadState;

pub use camera::handle_background_image;
pub use camera::lemma_control_round_trip;
pub use camera::read_bool;
pub use camera::read_f64_bits;
pub use camera::read_i64;
pub use camera::resolve_device_index;
pub use camera::BackgroundCamera;
pub use camera::CameraOperation;

pub use control::accepts;
pub use control::float_le;
pub use control::float_order_key;
pub use control::lemma_out_of_range_rejection;
pub use control::lookup;
pub use control::set_outcome;
pub use control::unique_ids;
pub use control::value_accepted;
pub use control::CameraControl;
pub use control::ControlDescription;
pub use control::ControlId;
pub use control::ControlStore;
pub use control::ControlValueSetter;

pub use frame::apply_drained;
pub use frame::coalesced;
pub use frame::lemma_coalescing_correctness;
pub use frame::lemma_no_new_frame_idempotence;
pub use frame::views_of;
pub use frame::BackgroundImage;
pub use frame::Frame;
pub use frame::FramePixels;

pub use worker::control_application_of;
pub use worker::decide_control_application;
pub use worker::delivered_frames;
pub use worker::lemma_freeze_on_failure;
pub use worker::CaptureWorker;

use vstd::prelude::*;

verus! {

/// The error taxonomy of the capture/transport/upload pipeline.
///
/// Construction-time failures (`NoDeviceFound`, `StreamOpenError`) are fatal
/// and surfaced to the caller; control-application failures
/// (`UnsupportedControl`, `InvalidValue`) are non-fatal and leave state
/// unchanged; a `CaptureError` is fatal to the capture worker only; a GPU
/// resource-creation failure is fatal to the render pipeline.
#[derive(Clone, Copy, Debug, PartialEq, Eq, Structural)]
pub enum CameraError {
    NoDeviceFound,
    StreamOpenError,
    UnsupportedControl,
    InvalidValue,
    CaptureError,
    GpuResourceCreationError,
}

} // verus!
