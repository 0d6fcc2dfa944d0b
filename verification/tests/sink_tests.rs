use neolink::format::SinkFormat;
use neolink::media::Codec;
use neolink::sink::fill_slot;
use neolink::sink::FrameSink;

#[test]
fn fill_slot_copies_exactly_and_leaves_the_rest() {
    let mut slot: Vec<u8> = vec![7; 8];
    let payload: Vec<u8> = vec![1, 2, 3];
    let meta = fill_slot(&mut slot, &payload);
    assert_eq!(meta.bytesused, 3);
    assert_eq!(meta.field, 0);
    assert_eq!(slot, vec![1, 2, 3, 7, 7, 7, 7, 7]);
}

#[test]
fn fill_slot_with_empty_payload_touches_nothing() {
    let mut slot: Vec<u8> = vec![9; 4];
    let payload: Vec<u8> = Vec::new();
    let meta = fill_slot(&mut slot, &payload);
    assert_eq!(meta.bytesused, 0);
    assert_eq!(slot, vec![9, 9, 9, 9]);
}

#[test]
fn fill_slot_payload_as_large_as_slot() {
    let mut slot: Vec<u8> = vec![0; 5];
    let payload: Vec<u8> = vec![10, 20, 30, 40, 50];
    let meta = fill_slot(&mut slot, &payload);
    assert_eq!(meta.bytesused, 5);
    assert_eq!(slot, payload);
}

#[test]
fn sink_delivers_only_with_matching_commitment() {
    let mut sink = FrameSink::new();
    assert!(sink.committed.is_none());
    let format = SinkFormat { width: 640, height: 480, fps: 10, codec: Codec::H265 };
    sink.set_format(format);
    assert_eq!(sink.committed, Some(format));

    let payload: Vec<u8> = vec![4, 5, 6, 7];
    let mut slot: Vec<u8> = vec![0; 16];
    let meta = sink.deliver(Codec::H265, &payload, &mut slot);
    assert_eq!(meta.bytesused, 4);
    assert_eq!(&slot[..4], payload.as_slice());
    assert!(slot[4..].iter().all(|&b| b == 0));
}

#[test]
fn fourcc_matches_codec() {
    let h264 = SinkFormat { width: 1, height: 1, fps: 1, codec: Codec::H264 };
    let h265 = SinkFormat { width: 1, height: 1, fps: 1, codec: Codec::H265 };
    assert_eq!(h264.fourcc_bytes(), b"H264".to_vec());
    assert_eq!(h265.fourcc_bytes(), b"HEVC".to_vec());
}
