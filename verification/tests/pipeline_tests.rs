use neolink::format::SinkFormat;
use neolink::media::Codec;
use neolink::media::MediaUnit;
use neolink::pipeline::Pipeline;
use neolink::pipeline::RelayAction;
use neolink::pipeline::BOOTSTRAP_BUDGET;
use neolink::sink::FrameSink;
use neolink::supervisor::StreamError;
use neolink::supervisor::TransientKind;

fn descriptor_v1(width: u32, height: u32, fps: u8) -> MediaUnit {
    MediaUnit::DescriptorV1 { width, height, fps }
}

#[test]
fn scenario_a_descriptor_then_keyframe() {
    // DescriptorV1{1920,1080,15} then a 1000-byte H264 keyframe: the sink
    // format is set to (1920,1080,15,H264) and the one frame is written as a
    // 1000-byte exact copy.
    let mut pipeline = Pipeline::new();
    assert_eq!(
        pipeline.step(descriptor_v1(1920, 1080, 15)),
        Ok(RelayAction::Ignore)
    );

    let payload: Vec<u8> = vec![0xAA; 1000];
    let action = pipeline
        .step(MediaUnit::Keyframe { codec: Codec::H264, payload: payload.clone() })
        .expect("a completing keyframe is not an error");
    let expected_format =
        SinkFormat { width: 1920, height: 1080, fps: 15, codec: Codec::H264 };
    assert_eq!(
        action,
        RelayAction::ConfigureThenDeliver {
            format: expected_format,
            codec: Codec::H264,
            payload: payload.clone(),
        }
    );

    // Perform the action against the sink model.
    let mut sink = FrameSink::new();
    sink.set_format(expected_format);
    let mut slot: Vec<u8> = vec![0; 4096];
    let meta = sink.deliver(Codec::H264, &payload, &mut slot);
    assert_eq!(meta.bytesused, 1000);
    assert_eq!(meta.field, 0);
    assert_eq!(&slot[..1000], payload.as_slice());
    assert!(slot[1000..].iter().all(|&b| b == 0));
}

#[test]
fn codec_alone_does_not_complete_bootstrap() {
    // A frame before any descriptor supplies only the codec; it is consumed,
    // not written, and the later completing descriptor configures without
    // delivering anything.
    let mut pipeline = Pipeline::new();
    assert_eq!(
        pipeline.step(MediaUnit::Keyframe { codec: Codec::H265, payload: vec![1, 2, 3] }),
        Ok(RelayAction::Ignore)
    );
    let expected_format = SinkFormat { width: 640, height: 480, fps: 30, codec: Codec::H265 };
    assert_eq!(
        pipeline.step(MediaUnit::DescriptorV2 { width: 640, height: 480, fps: 30 }),
        Ok(RelayAction::Configure { format: expected_format })
    );
    // The next frame of the committed codec is a plain write.
    assert_eq!(
        pipeline.step(MediaUnit::Deltaframe { codec: Codec::H265, payload: vec![9] }),
        Ok(RelayAction::Deliver { codec: Codec::H265, payload: vec![9] })
    );
}

#[test]
fn other_units_are_ignored_during_bootstrap_and_streaming() {
    let mut pipeline = Pipeline::new();
    assert_eq!(pipeline.step(MediaUnit::Other), Ok(RelayAction::Ignore));
    assert_eq!(pipeline.step(descriptor_v1(1920, 1080, 15)), Ok(RelayAction::Ignore));
    assert_eq!(
        pipeline.step(MediaUnit::Keyframe { codec: Codec::H264, payload: vec![5] }),
        Ok(RelayAction::ConfigureThenDeliver {
            format: SinkFormat { width: 1920, height: 1080, fps: 15, codec: Codec::H264 },
            codec: Codec::H264,
            payload: vec![5],
        })
    );
    assert_eq!(pipeline.step(MediaUnit::Other), Ok(RelayAction::Ignore));
}

#[test]
fn bootstrap_budget_exhaustion_is_transient() {
    // A stream that never describes itself exhausts the unit budget; the
    // failure is the retryable bootstrap error.
    let mut pipeline = Pipeline::new();
    for _ in 0..BOOTSTRAP_BUDGET - 1 {
        assert_eq!(pipeline.step(MediaUnit::Other), Ok(RelayAction::Ignore));
    }
    assert_eq!(
        pipeline.step(MediaUnit::Other),
        Err(StreamError::Transient(TransientKind::BootstrapExhausted))
    );
}

#[test]
fn descriptors_alone_never_configure() {
    // Without a frame the codec stays unknown: descriptors keep being
    // absorbed and nothing is committed until the budget runs out.
    let mut pipeline = Pipeline::new();
    for _ in 0..BOOTSTRAP_BUDGET - 1 {
        assert_eq!(pipeline.step(descriptor_v1(1920, 1080, 15)), Ok(RelayAction::Ignore));
    }
    assert_eq!(
        pipeline.step(descriptor_v1(1920, 1080, 15)),
        Err(StreamError::Transient(TransientKind::BootstrapExhausted))
    );
}

#[test]
fn live_codec_change_reconfigures_before_delivery() {
    // A live H264 stream switches to H265: the sink is reconfigured with the
    // new codec (geometry unchanged) in the same action that carries the
    // first H265 frame, and later H265 frames are plain writes.
    let mut pipeline = Pipeline::new();
    pipeline.step(descriptor_v1(1920, 1080, 15)).unwrap();
    pipeline
        .step(MediaUnit::Keyframe { codec: Codec::H264, payload: vec![1] })
        .unwrap();

    let switched = SinkFormat { width: 1920, height: 1080, fps: 15, codec: Codec::H265 };
    assert_eq!(
        pipeline.step(MediaUnit::Keyframe { codec: Codec::H265, payload: vec![2, 2] }),
        Ok(RelayAction::ConfigureThenDeliver {
            format: switched,
            codec: Codec::H265,
            payload: vec![2, 2],
        })
    );
    assert_eq!(
        pipeline.step(MediaUnit::Deltaframe { codec: Codec::H265, payload: vec![3] }),
        Ok(RelayAction::Deliver { codec: Codec::H265, payload: vec![3] })
    );
}

#[test]
fn live_geometry_change_reconfigures() {
    let mut pipeline = Pipeline::new();
    pipeline.step(descriptor_v1(1920, 1080, 15)).unwrap();
    pipeline
        .step(MediaUnit::Keyframe { codec: Codec::H264, payload: vec![1] })
        .unwrap();

    let rescaled = SinkFormat { width: 1280, height: 720, fps: 30, codec: Codec::H264 };
    assert_eq!(
        pipeline.step(MediaUnit::DescriptorV2 { width: 1280, height: 720, fps: 30 }),
        Ok(RelayAction::Configure { format: rescaled })
    );
}

#[test]
fn repeated_descriptor_is_a_no_op() {
    // Re-announcing the committed format does not re-commit it.
    let mut pipeline = Pipeline::new();
    pipeline.step(descriptor_v1(1920, 1080, 15)).unwrap();
    pipeline
        .step(MediaUnit::Keyframe { codec: Codec::H264, payload: vec![1] })
        .unwrap();
    assert_eq!(pipeline.step(descriptor_v1(1920, 1080, 15)), Ok(RelayAction::Ignore));
    assert_eq!(
        pipeline.step(MediaUnit::DescriptorV2 { width: 1920, height: 1080, fps: 15 }),
        Ok(RelayAction::Ignore)
    );
}
