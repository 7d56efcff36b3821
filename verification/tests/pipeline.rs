use bevy_nokhwa::{
    decide_control_application, CameraOperation,
    handle_background_image, resolve_device_index, BackgroundCamera, BackgroundImage,
    BackgroundNode, CameraControl, CameraError, CaptureWorker, ControlDescription, ControlId,
    ControlValueSetter, Frame, UploadAction,
};

fn rgba_frame(width: u32, height: u32, fill: u8) -> Frame {
    let data = vec![fill; (4 * width * height) as usize];
    Frame::new(width, height, data).expect("buffer length matches dimensions")
}

fn test_controls() -> Vec<CameraControl> {
    vec![
        CameraControl::new(
            ControlId::Brightness,
            ControlDescription::IntegerRange { min: -64, max: 64, step: 1 },
            ControlValueSetter::Integer(0),
        )
        .unwrap(),
        CameraControl::new(
            ControlId::Exposure,
            ControlDescription::FloatRange {
                min: (-8.0f64).to_bits(),
                max: 8.0f64.to_bits(),
                step: 0.5f64.to_bits(),
            },
            ControlValueSetter::Float(0.0f64.to_bits()),
        )
        .unwrap(),
        CameraControl::new(
            ControlId::WhiteBalance,
            ControlDescription::Boolean,
            ControlValueSetter::Boolean(false),
        )
        .unwrap(),
    ]
}

#[test]
fn coalescing_keeps_only_last_frame() {
    let (camera, frame_tx, _op_rx) = BackgroundCamera::create(Vec::new());
    let mut worker = CaptureWorker::new();
    for fill in [10u8, 20u8, 30u8] {
        let forwarded = worker.handle_capture(Some(rgba_frame(640, 480, fill)), &frame_tx);
        assert!(forwarded);
    }
    let mut image = BackgroundImage::new(640, 480);
    handle_background_image(&camera, &mut image);
    assert_eq!(image.0.width(), 640);
    assert_eq!(image.0.height(), 480);
    assert!(image.0.bytes().iter().all(|&b| b == 30));
    // the channel was drained completely: a second tick changes nothing
    handle_background_image(&camera, &mut image);
    assert!(image.0.bytes().iter().all(|&b| b == 30));
}

#[test]
fn no_new_frame_leaves_image_unchanged() {
    let (camera, _frame_tx, _op_rx) = BackgroundCamera::create(Vec::new());
    let mut image = BackgroundImage::new(640, 480);
    handle_background_image(&camera, &mut image);
    assert_eq!(image.0.width(), 640);
    assert_eq!(image.0.height(), 480);
    assert_eq!(image.0.bytes().len(), 4 * 640 * 480);
    assert!(image.0.bytes().iter().all(|&b| b == 0));
}

#[test]
fn control_round_trip_integer() {
    let (mut camera, _frame_tx, op_rx) = BackgroundCamera::create(test_controls());
    let r = camera.set_control(ControlId::Brightness, ControlValueSetter::Integer(17));
    assert_eq!(r, Ok(true));
    // one worker iteration sees exactly the queued operation
    let worker = CaptureWorker::new();
    let applied = worker.poll_control(&op_rx);
    assert_eq!(
        applied,
        Some((ControlId::Brightness, ControlValueSetter::Integer(17)))
    );
    assert_eq!(camera.get_mut_i64_control(&ControlId::Brightness), Some(17));
}

#[test]
fn control_round_trip_float() {
    let (mut camera, _frame_tx, op_rx) = BackgroundCamera::create(test_controls());
    let v = 2.5f64.to_bits();
    let r = camera.set_control(ControlId::Exposure, ControlValueSetter::Float(v));
    assert_eq!(r, Ok(true));
    let worker = CaptureWorker::new();
    let applied = worker.poll_control(&op_rx);
    assert_eq!(applied, Some((ControlId::Exposure, ControlValueSetter::Float(v))));
    assert_eq!(camera.get_mut_f64_control(&ControlId::Exposure), Some(v));
    assert_eq!(f64::from_bits(v), 2.5);
}

#[test]
fn control_round_trip_boolean() {
    let (mut camera, _frame_tx, op_rx) = BackgroundCamera::create(test_controls());
    let r = camera.set_control(ControlId::WhiteBalance, ControlValueSetter::Boolean(true));
    assert_eq!(r, Ok(true));
    let worker = CaptureWorker::new();
    let applied = worker.poll_control(&op_rx);
    assert_eq!(
        applied,
        Some((ControlId::WhiteBalance, ControlValueSetter::Boolean(true)))
    );
    assert_eq!(camera.get_mut_bool_control(&ControlId::WhiteBalance), Some(true));
}

#[test]
fn out_of_range_integer_rejected() {
    let (mut camera, _frame_tx, _op_rx) = BackgroundCamera::create(test_controls());
    assert_eq!(
        camera.set_control(ControlId::Brightness, ControlValueSetter::Integer(5)),
        Ok(true)
    );
    let r = camera.set_control(ControlId::Brightness, ControlValueSetter::Integer(65));
    assert_eq!(r, Err(CameraError::InvalidValue));
    // the previously applied value stands
    assert_eq!(camera.get_mut_i64_control(&ControlId::Brightness), Some(5));
}

#[test]
fn out_of_range_float_rejected() {
    let (mut camera, _frame_tx, _op_rx) = BackgroundCamera::create(test_controls());
    let r = camera.set_control(
        ControlId::Exposure,
        ControlValueSetter::Float(16.0f64.to_bits()),
    );
    assert_eq!(r, Err(CameraError::InvalidValue));
    let low = camera.set_control(
        ControlId::Exposure,
        ControlValueSetter::Float((-9.5f64).to_bits()),
    );
    assert_eq!(low, Err(CameraError::InvalidValue));
    assert_eq!(
        camera.get_mut_f64_control(&ControlId::Exposure),
        Some(0.0f64.to_bits())
    );
}

#[test]
fn mismatched_kind_rejected() {
    let (mut camera, _frame_tx, _op_rx) = BackgroundCamera::create(test_controls());
    let r = camera.set_control(ControlId::Brightness, ControlValueSetter::Boolean(true));
    assert_eq!(r, Err(CameraError::InvalidValue));
    assert_eq!(camera.get_mut_i64_control(&ControlId::Brightness), Some(0));
}

#[test]
fn unsupported_control_rejected() {
    let (mut camera, _frame_tx, _op_rx) = BackgroundCamera::create(test_controls());
    let r = camera.set_control(ControlId::Zoom, ControlValueSetter::Integer(1));
    assert_eq!(r, Err(CameraError::UnsupportedControl));
}

#[test]
fn control_channel_capacity_is_one() {
    let (mut camera, _frame_tx, op_rx) = BackgroundCamera::create(test_controls());
    let first = camera.set_control(ControlId::Brightness, ControlValueSetter::Integer(1));
    assert_eq!(first, Ok(true));
    // nothing drained the pending operation yet: the second enqueue is
    // dropped, best-effort, while the value is still recorded locally
    let second = camera.set_control(ControlId::Brightness, ControlValueSetter::Integer(2));
    assert_eq!(second, Ok(false));
    assert_eq!(camera.get_mut_i64_control(&ControlId::Brightness), Some(2));
    let worker = CaptureWorker::new();
    assert_eq!(
        worker.poll_control(&op_rx),
        Some((ControlId::Brightness, ControlValueSetter::Integer(1)))
    );
    assert_eq!(worker.poll_control(&op_rx), None);
}

#[test]
fn duplicate_control_ids_keep_first() {
    let mut controls = test_controls();
    controls.push(
        CameraControl::new(
            ControlId::Brightness,
            ControlDescription::IntegerRange { min: 0, max: 1, step: 1 },
            ControlValueSetter::Integer(1),
        )
        .unwrap(),
    );
    let (camera, _frame_tx, _op_rx) = BackgroundCamera::create(controls);
    assert_eq!(camera.get_mut_i64_control(&ControlId::Brightness), Some(0));
}

#[test]
fn dimension_change_rebuilds_exactly_once() {
    let mut node = BackgroundNode::new();
    assert_eq!(
        node.update(640, 480),
        UploadAction::CreateAll { width: 640, height: 480 }
    );
    let mut rebuilds = 0;
    for action in [node.update(1280, 720), node.update(1280, 720)] {
        if let UploadAction::Rebuild { .. } = action {
            rebuilds += 1;
        }
    }
    assert_eq!(rebuilds, 1);
}

#[test]
fn identical_dimensions_never_rebuild() {
    let mut node = BackgroundNode::new();
    node.update(640, 480);
    assert_eq!(node.update(640, 480), UploadAction::Reupload);
    assert_eq!(node.update(640, 480), UploadAction::Reupload);
}

#[test]
fn empty_image_waits() {
    let mut node = BackgroundNode::new();
    assert_eq!(node.update(0, 480), UploadAction::Wait);
    assert_eq!(node.update(640, 0), UploadAction::Wait);
    assert_eq!(
        node.update(640, 480),
        UploadAction::CreateAll { width: 640, height: 480 }
    );
}

#[test]
fn capture_failure_freezes_image() {
    let (camera, frame_tx, _op_rx) = BackgroundCamera::create(Vec::new());
    let mut worker = CaptureWorker::new();
    assert!(worker.handle_capture(Some(rgba_frame(640, 480, 7)), &frame_tx));
    // the capture of this iteration fails: the worker stops for good
    assert!(!worker.handle_capture(None, &frame_tx));
    assert!(!worker.running);
    // a stopped worker delivers nothing, even when captures would succeed
    assert!(!worker.handle_capture(Some(rgba_frame(640, 480, 9)), &frame_tx));
    let mut image = BackgroundImage::new(640, 480);
    handle_background_image(&camera, &mut image);
    assert!(image.0.bytes().iter().all(|&b| b == 7));
    // every later tick drains an empty channel and changes nothing
    handle_background_image(&camera, &mut image);
    handle_background_image(&camera, &mut image);
    assert!(image.0.bytes().iter().all(|&b| b == 7));
}

#[test]
fn resolve_device_index_defaults_to_first() {
    assert_eq!(resolve_device_index(0, None), Err(CameraError::NoDeviceFound));
    assert_eq!(resolve_device_index(0, Some(1)), Err(CameraError::NoDeviceFound));
    assert_eq!(resolve_device_index(3, None), Ok(0));
    assert_eq!(resolve_device_index(3, Some(2)), Ok(2));
}

#[test]
fn frame_rejects_mismatched_buffer() {
    assert!(Frame::new(2, 2, vec![0u8; 16]).is_some());
    assert!(Frame::new(2, 2, vec![0u8; 15]).is_none());
    assert!(Frame::new(2, 2, vec![0u8; 17]).is_none());
    assert!(Frame::new(0, 0, Vec::new()).is_some());
}

#[test]
fn frame_dimension_change_reaches_consumer() {
    let (camera, frame_tx, _op_rx) = BackgroundCamera::create(Vec::new());
    let mut worker = CaptureWorker::new();
    assert!(worker.handle_capture(Some(rgba_frame(640, 480, 1)), &frame_tx));
    let mut image = BackgroundImage::new(640, 480);
    handle_background_image(&camera, &mut image);
    let mut node = BackgroundNode::new();
    assert_eq!(
        node.update(image.0.width(), image.0.height()),
        UploadAction::CreateAll { width: 640, height: 480 }
    );
    assert!(worker.handle_capture(Some(rgba_frame(1280, 720, 2)), &frame_tx));
    handle_background_image(&camera, &mut image);
    assert_eq!(image.0.width(), 1280);
    assert_eq!(image.0.height(), 720);
    assert_eq!(
        node.update(image.0.width(), image.0.height()),
        UploadAction::Rebuild { width: 1280, height: 720 }
    );
}

#[test]
fn float_bit_order_matches_double_order() {
    let values = [-8.0f64, -2.5, -0.5, 0.0, 0.5, 1.5, 2.5, 8.0];
    for &a in &values {
        for &b in &values {
            assert_eq!(
                bevy_nokhwa::float_le(a.to_bits(), b.to_bits()),
                a <= b,
                "order of {a} and {b}"
            );
        }
    }
}

#[test]
fn enumerated_surface_is_exposed() {
    let (camera, _frame_tx, _op_rx) = BackgroundCamera::create(test_controls());
    let entries = camera.controls.entries();
    assert_eq!(entries.len(), 3);
    assert_eq!(entries[0].id, ControlId::Brightness);
    assert_eq!(entries[1].id, ControlId::Exposure);
    assert_eq!(entries[2].id, ControlId::WhiteBalance);
}

#[test]
fn decide_control_application_passes_operation_through() {
    let op = CameraOperation::Control {
        id: ControlId::Gain,
        control: ControlValueSetter::Integer(3),
    };
    assert_eq!(
        decide_control_application(Some(op)),
        Some((ControlId::Gain, ControlValueSetter::Integer(3)))
    );
    assert_eq!(decide_control_application(None), None);
}

#[test]
fn frame_duplicate_is_byte_identical() {
    let f = rgba_frame(2, 3, 9);
    let g = f.duplicate();
    assert_eq!(f.width(), g.width());
    assert_eq!(f.height(), g.height());
    assert_eq!(f.bytes(), g.bytes());
}
