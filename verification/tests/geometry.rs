use larql_compute::device::{device_rank, preferred_device, DeviceKind};
use larql_compute::geometry::{div_ceil_u32, div_ceil_usize, groups_of_256, position_span, position_span_usize, Span};
use larql_compute::quant::{pack_q8_words, pad_to_words, QuantFormat};

#[test]
fn div_ceil_rounds_up() {
    assert_eq!(div_ceil_u32(0, 32), 0);
    assert_eq!(div_ceil_u32(1, 32), 1);
    assert_eq!(div_ceil_u32(32, 32), 1);
    assert_eq!(div_ceil_u32(33, 32), 2);
    assert_eq!(div_ceil_u32(u32::MAX, 1), u32::MAX);
    assert_eq!(div_ceil_u32(u32::MAX, 256), 16_777_216);
    assert_eq!(div_ceil_usize(2049, 32), 65);
}

#[test]
fn groups_of_256_matches_div_ceil() {
    for n in [0u32, 1, 255, 256, 257, 4096, 4097] {
        assert_eq!(groups_of_256(n), n.div_ceil(256));
    }
}

#[test]
fn position_spans_are_strided_and_disjoint() {
    let a = position_span(0, 3, 100, 64);
    let b = position_span(1, 3, 100, 64);
    let c = position_span(2, 3, 100, 64);
    assert_eq!(a, Span { start: 0, end: 64 });
    assert_eq!(b, Span { start: 100, end: 164 });
    assert_eq!(c, Span { start: 200, end: 264 });
    assert!(a.end <= b.start && b.end <= c.start);
    assert_eq!(position_span_usize(3, 4, 10, 10), Span { start: 30, end: 40 });
}

#[test]
fn pad_to_words_appends_zero_bytes() {
    assert_eq!(pad_to_words(&[1, 2, 3, 4, 5]), vec![1, 2, 3, 4, 5, 0, 0, 0]);
    assert_eq!(pad_to_words(&[9, 9, 9, 9]), vec![9, 9, 9, 9]);
    assert_eq!(pad_to_words(&[]), Vec::<u8>::new());
    assert_eq!(pad_to_words(&[7, 7, 7]), vec![7, 7, 7, 0]);
}

#[test]
fn pack_q8_words_little_endian() {
    let x8: [i8; 8] = [1, 2, 3, 4, -1, 0, -128, 127];
    let words = pack_q8_words(&x8);
    assert_eq!(words, vec![0x0403_0201, 0x7f80_00ff]);
    for (j, w) in words.iter().enumerate() {
        for i in 0..4 {
            assert_eq!(((w >> (8 * i)) & 0xff) as u8, x8[4 * j + i] as u8);
        }
    }
    assert_eq!(pack_q8_words(&[]), Vec::<u32>::new());
}

#[test]
fn quant_format_is_copy_and_comparable() {
    let f = QuantFormat::Q4_K;
    let g = f;
    assert_eq!(f, g);
    assert_ne!(QuantFormat::Q4_K, QuantFormat::Q4_KF);
}

#[test]
fn device_ranking_prefers_discrete_gpus() {
    assert_eq!(device_rank(DeviceKind::DiscreteGpu), 0);
    assert_eq!(device_rank(DeviceKind::Cpu), 3);
    assert_eq!(device_rank(DeviceKind::Unknown), 5);
    assert_eq!(preferred_device(&[]), None);
    assert_eq!(preferred_device(&[DeviceKind::Cpu, DeviceKind::IntegratedGpu, DeviceKind::DiscreteGpu]), Some(2));
    assert_eq!(preferred_device(&[DeviceKind::Other, DeviceKind::VirtualGpu, DeviceKind::VirtualGpu]), Some(1));
    assert_eq!(preferred_device(&[DeviceKind::Unknown]), Some(0));
}
