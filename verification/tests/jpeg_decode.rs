use fev::jpeg::decode::{num_mcus, DecodeParameters, DecodeState, Phase};
use fev::jpeg::parser::{Dht, Dqt, Dri, FrameComponent, JpegParser, SegmentKind, Sof, Sos};
use fev::jpeg::{
    ColorSpace, Component, HuffmanTable, HuffmanTableBuffer, JpegError, JpegInfo, ScanComponent,
};
use fev::{Rotation, SliceDataFlags};

fn segment(marker: u8, payload: &[u8]) -> Vec<u8> {
    let length = payload.len() + 2;
    let mut bytes = vec![0xFF, marker, (length >> 8) as u8, (length & 0xFF) as u8];
    bytes.extend_from_slice(payload);
    bytes
}

fn quant(slot: u8, fill: u8) -> Vec<u8> {
    let mut payload = vec![slot];
    payload.extend(std::iter::repeat(fill).take(64));
    segment(0xDB, &payload)
}

fn huffman(tc_th: u8, counts: &[u8], values: &[u8]) -> Vec<u8> {
    let mut payload = vec![tc_th];
    let mut li = [0u8; 16];
    li[..counts.len()].copy_from_slice(counts);
    payload.extend_from_slice(&li);
    payload.extend_from_slice(values);
    segment(0xC4, &payload)
}

fn frame(marker: u8, precision: u8, width: u16, height: u16, components: &[[u8; 3]]) -> Vec<u8> {
    let mut payload = vec![
        precision,
        (height >> 8) as u8,
        height as u8,
        (width >> 8) as u8,
        width as u8,
        components.len() as u8,
    ];
    for c in components {
        payload.extend_from_slice(c);
    }
    segment(marker, &payload)
}

fn scan(components: &[[u8; 2]], ss: u8, se: u8, ah_al: u8, data: &[u8]) -> Vec<u8> {
    let mut payload = vec![components.len() as u8];
    for c in components {
        payload.extend_from_slice(c);
    }
    payload.extend_from_slice(&[ss, se, ah_al]);
    let mut bytes = segment(0xDA, &payload);
    bytes.extend_from_slice(data);
    bytes
}

const SOI: [u8; 2] = [0xFF, 0xD8];
const EOI: [u8; 2] = [0xFF, 0xD9];

fn join(parts: &[&[u8]]) -> Vec<u8> {
    parts.iter().flat_map(|p| p.iter().copied()).collect()
}

/// A minimal 16x16 luminance-only baseline JPEG.
fn gray_16x16() -> Vec<u8> {
    join(&[
        &SOI,
        &quant(0, 16),
        &frame(0xC0, 8, 16, 16, &[[1, 0x11, 0]]),
        &huffman(0x00, &[0, 1], &[0]),
        &huffman(0x10, &[0, 1], &[0]),
        &scan(&[[1, 0x00]], 0, 63, 0, &[0xDE, 0xAD, 0xBE, 0xEF]),
        &EOI,
    ])
}

fn parse(jpeg: &[u8]) -> Result<DecodeParameters, JpegError> {
    DecodeParameters::parse(jpeg, None)
}

fn error_of(jpeg: &[u8]) -> JpegError {
    match parse(jpeg) {
        Ok(_) => panic!("expected the decode to fail"),
        Err(e) => e,
    }
}

#[test]
fn mcu_count_is_the_product_of_the_ceilings() {
    assert_eq!(num_mcus(17, 9, 2, 1), 4);
    assert_eq!(num_mcus(16, 16, 1, 1), 4);
    assert_eq!(num_mcus(16, 16, 2, 2), 1);
    assert_eq!(num_mcus(1, 1, 1, 1), 1);
    assert_eq!(num_mcus(8, 8, 1, 1), 1);
    assert_eq!(num_mcus(9, 8, 1, 1), 2);
    assert_eq!(num_mcus(640, 480, 2, 2), 40 * 30);
    assert_eq!(num_mcus(641, 481, 2, 2), 41 * 31);
    assert_eq!(num_mcus(65535, 65535, 1, 1), 8192 * 8192);
    assert_eq!(num_mcus(65535, 65535, 4, 4), 2048 * 2048);
    assert_eq!(num_mcus(65535, 1, 255, 255), 33);
    assert_eq!(num_mcus(0, 10, 1, 1), 0);
}

#[test]
fn mcu_count_matches_the_ceiling_for_many_sizes() {
    for w in (1u16..200).step_by(7) {
        for h in (1u16..100).step_by(5) {
            for hf in 1u8..=4 {
                for vf in 1u8..=4 {
                    let cols = (w as f64 / (8.0 * hf as f64)).ceil() as u32;
                    let rows = (h as f64 / (8.0 * vf as f64)).ceil() as u32;
                    assert_eq!(num_mcus(w, h, hf, vf), cols * rows);
                }
            }
        }
    }
}

#[test]
fn minimal_gray_jpeg_decodes() {
    let jpeg = gray_16x16();
    let p = parse(&jpeg).unwrap();
    assert_eq!(p.slice.num_mcus(), 4);
    assert_eq!(p.picture.num_components(), 1);
    assert_eq!(p.slice.num_components(), 1);
    assert_eq!(p.picture.picture_width(), 16);
    assert_eq!(p.picture.picture_height(), 16);
    assert_eq!(p.picture.color_space, ColorSpace(ColorSpace::YUV));
    assert_eq!(p.picture.rotation, Rotation(Rotation::NONE));
    assert_eq!(
        p.picture.component(0),
        Component { component_id: 1, h_sampling_factor: 1, v_sampling_factor: 1, quantiser_table_selector: 0 }
    );
    assert_eq!(
        p.slice.component(0),
        ScanComponent { component_selector: 1, dc_table_selector: 0, ac_table_selector: 0 }
    );
    assert_eq!(p.slice.restart_interval(), 0);
    assert_eq!(p.slice.base().slice_data_size(), 4);
    assert_eq!(p.slice.base().slice_data_offset(), 0);
    assert_eq!(p.slice.base().slice_data_flags(), SliceDataFlags(SliceDataFlags::ALL));
    assert_eq!(p.slice_data(&jpeg), &[0xDE, 0xAD, 0xBE, 0xEF]);
    assert_eq!(p.data_end, jpeg.len() - 2);
    assert_eq!(p.quant.quantization_table(0), &[16u8; 64]);
    assert!(p.quant.modified().contains(0));
    assert!(!p.quant.modified().contains(1));
    assert_eq!(p.huffman.huffman_table(0).num_dc_codes[1], 1);
    assert_eq!(p.huffman.huffman_table(0).num_ac_codes[1], 1);
    assert!(p.huffman.modified().contains(0));
    assert!(!p.huffman.modified().contains(1));
}

#[test]
fn three_component_jpeg_keeps_file_order() {
    let jpeg = join(&[
        &SOI,
        &segment(0xE0, b"JFIF\0"),
        &quant(0, 1),
        &quant(1, 2),
        &frame(0xC0, 8, 17, 9, &[[1, 0x21, 0], [2, 0x11, 1], [3, 0x11, 1]]),
        &segment(0xDD, &[0x00, 0x05]),
        &scan(&[[1, 0x00], [2, 0x11], [3, 0x10]], 0, 63, 0, &[1, 2, 0xFF, 0x00, 3, 0xFF, 0xD0, 4]),
        &EOI,
    ]);
    let p = parse(&jpeg).unwrap();
    assert_eq!(p.picture.num_components(), 3);
    assert_eq!(p.slice.num_components(), 3);
    let ids: Vec<u8> = (0..3).map(|i| p.picture.component(i).component_id).collect();
    assert_eq!(ids, vec![1, 2, 3]);
    assert_eq!(
        p.picture.component(0),
        Component { component_id: 1, h_sampling_factor: 2, v_sampling_factor: 1, quantiser_table_selector: 0 }
    );
    assert_eq!(
        p.picture.component(2),
        Component { component_id: 3, h_sampling_factor: 1, v_sampling_factor: 1, quantiser_table_selector: 1 }
    );
    assert_eq!(
        p.slice.component(2),
        ScanComponent { component_selector: 3, dc_table_selector: 1, ac_table_selector: 0 }
    );
    assert_eq!(p.slice.component(1).ac_table_selector, 1);
    // W=17, H=9, Hmax=2, Vmax=1.
    assert_eq!(p.slice.num_mcus(), 4);
    assert_eq!(p.slice.restart_interval(), 5);
    assert_eq!(p.slice_data(&jpeg), &[1, 2, 0xFF, 0x00, 3, 0xFF, 0xD0, 4]);
    assert_eq!(p.slice.base().slice_data_size(), 8);
    assert_eq!(p.quant.quantization_table(1), &[2u8; 64]);
}

#[test]
fn absent_dht_falls_back_to_the_default_tables() {
    let jpeg = join(&[
        &SOI,
        &quant(0, 16),
        &frame(0xC0, 8, 16, 16, &[[1, 0x11, 0]]),
        &scan(&[[1, 0x00]], 0, 63, 0, &[0x00]),
        &EOI,
    ]);
    let p = parse(&jpeg).unwrap();
    let defaults = HuffmanTableBuffer::default_tables();
    assert_eq!(p.huffman.load_huffman_table, [1, 1]);
    for slot in 0..2 {
        assert_eq!(p.huffman.huffman_table(slot).num_dc_codes, defaults.huffman_table(slot).num_dc_codes);
        assert_eq!(p.huffman.huffman_table(slot).dc_values, defaults.huffman_table(slot).dc_values);
        assert_eq!(p.huffman.huffman_table(slot).num_ac_codes, defaults.huffman_table(slot).num_ac_codes);
        assert_eq!(p.huffman.huffman_table(slot).ac_values, defaults.huffman_table(slot).ac_values);
    }
    assert_eq!(p.huffman.huffman_table(0).num_ac_codes[15], 125);
    assert_eq!(p.huffman.huffman_table(1).num_ac_codes[15], 119);
}

#[test]
fn present_dht_is_used_as_it_is() {
    let jpeg = join(&[
        &SOI,
        &frame(0xC0, 8, 16, 16, &[[1, 0x11, 0]]),
        &huffman(0x11, &[0, 0, 2], &[0x33, 0x44]),
        &scan(&[[1, 0x00]], 0, 63, 0, &[0x00]),
        &EOI,
    ]);
    let p = parse(&jpeg).unwrap();
    assert_eq!(p.huffman.load_huffman_table, [0, 1]);
    assert_eq!(p.huffman.huffman_table(0).num_dc_codes, [0u8; 16]);
    assert_eq!(p.huffman.huffman_table(0).ac_values, [0u8; 162]);
    assert_eq!(p.huffman.huffman_table(1).num_ac_codes[2], 2);
    assert_eq!(&p.huffman.huffman_table(1).ac_values[..3], &[0x33, 0x44, 0]);
    assert_eq!(p.huffman.huffman_table(1).num_dc_codes, [0u8; 16]);
}

#[test]
fn dht_slot_above_one_is_malformed() {
    for tc_th in [0x02u8, 0x03, 0x12, 0x13] {
        let jpeg = join(&[
            &SOI,
            &huffman(tc_th, &[0, 1], &[0]),
            &frame(0xC0, 8, 16, 16, &[[1, 0x11, 0]]),
            &scan(&[[1, 0x00]], 0, 63, 0, &[0x00]),
            &EOI,
        ]);
        assert_eq!(error_of(&jpeg), JpegError::MalformedSegment);
    }
}

#[test]
fn dht_with_too_many_values_is_malformed() {
    let dc = huffman(0x00, &[13], &[0u8; 13]);
    let jpeg = join(&[&SOI, &dc, &frame(0xC0, 8, 16, 16, &[[1, 0x11, 0]]), &scan(&[[1, 0]], 0, 63, 0, &[0]), &EOI]);
    assert_eq!(error_of(&jpeg), JpegError::MalformedSegment);
    let ac = huffman(0x10, &[163], &[0u8; 163]);
    let jpeg = join(&[&SOI, &ac, &frame(0xC0, 8, 16, 16, &[[1, 0x11, 0]]), &scan(&[[1, 0]], 0, 63, 0, &[0]), &EOI]);
    assert_eq!(error_of(&jpeg), JpegError::MalformedSegment);
    let full_dc = huffman(0x00, &[12], &[1u8; 12]);
    let full_ac = huffman(0x10, &[162], &[2u8; 162]);
    let jpeg = join(&[&SOI, &full_dc, &full_ac, &frame(0xC0, 8, 16, 16, &[[1, 0x11, 0]]), &scan(&[[1, 0]], 0, 63, 0, &[0]), &EOI]);
    let p = parse(&jpeg).unwrap();
    assert_eq!(p.huffman.huffman_table(0).dc_values, [1u8; 12]);
    assert_eq!(p.huffman.huffman_table(0).ac_values, [2u8; 162]);
}

#[test]
fn dqt_with_16_bit_precision_fails_the_decode() {
    let mut payload = vec![0x10];
    payload.extend(std::iter::repeat(1u8).take(64));
    let jpeg = join(&[
        &SOI,
        &segment(0xDB, &payload),
        &frame(0xC0, 8, 16, 16, &[[1, 0x11, 0]]),
        &scan(&[[1, 0x00]], 0, 63, 0, &[0x00]),
        &EOI,
    ]);
    assert_eq!(error_of(&jpeg), JpegError::MalformedSegment);
}

#[test]
fn non_baseline_frame_is_unsupported() {
    for marker in [0xC1u8, 0xC2, 0xC3, 0xC5, 0xC9, 0xCF] {
        let jpeg = join(&[
            &SOI,
            &frame(marker, 8, 16, 16, &[[1, 0x11, 0]]),
            &scan(&[[1, 0x00]], 0, 63, 0, &[0x00]),
            &EOI,
        ]);
        assert_eq!(error_of(&jpeg), JpegError::UnsupportedCodec);
        assert_eq!(JpegInfo::new(&jpeg).unwrap_err(), JpegError::UnsupportedCodec);
    }
}

#[test]
fn non_baseline_frame_is_unsupported_even_if_nothing_follows() {
    let jpeg = join(&[&SOI, &frame(0xC2, 8, 16, 16, &[[1, 0x11, 0]])]);
    assert_eq!(error_of(&jpeg), JpegError::UnsupportedCodec);
}

#[test]
fn other_sample_precision_is_unsupported() {
    for precision in [0u8, 7, 12, 16] {
        let jpeg = join(&[
            &SOI,
            &frame(0xC0, precision, 16, 16, &[[1, 0x11, 0]]),
            &scan(&[[1, 0x00]], 0, 63, 0, &[0x00]),
            &EOI,
        ]);
        assert_eq!(error_of(&jpeg), JpegError::UnsupportedCodec);
        assert_eq!(JpegInfo::new(&jpeg).unwrap_err(), JpegError::UnsupportedCodec);
    }
}

#[test]
fn truncated_after_soi_is_a_truncated_image() {
    assert_eq!(error_of(&SOI), JpegError::TruncatedImage);
    assert_eq!(JpegInfo::new(&SOI).unwrap_err(), JpegError::TruncatedImage);
}

#[test]
fn empty_input_is_a_truncated_image() {
    assert_eq!(error_of(&[]), JpegError::TruncatedImage);
    assert_eq!(JpegInfo::new(&[]).unwrap_err(), JpegError::TruncatedImage);
    assert_eq!(error_of(&[0, 1, 2, 3]), JpegError::TruncatedImage);
}

#[test]
fn eoi_before_the_frame_header_is_a_truncated_image() {
    let jpeg = join(&[&SOI, &quant(0, 1), &EOI, &frame(0xC0, 8, 16, 16, &[[1, 0x11, 0]])]);
    assert_eq!(error_of(&jpeg), JpegError::TruncatedImage);
}

#[test]
fn eoi_before_the_scan_header_is_a_truncated_image() {
    let jpeg = join(&[&SOI, &frame(0xC0, 8, 16, 16, &[[1, 0x11, 0]]), &EOI]);
    assert_eq!(error_of(&jpeg), JpegError::TruncatedImage);
    let jpeg = join(&[&SOI, &frame(0xC0, 8, 16, 16, &[[1, 0x11, 0]])]);
    assert_eq!(error_of(&jpeg), JpegError::TruncatedImage);
}

#[test]
fn scan_data_cut_short_is_a_truncated_image() {
    let jpeg = join(&[
        &SOI,
        &frame(0xC0, 8, 16, 16, &[[1, 0x11, 0]]),
        &scan(&[[1, 0x00]], 0, 63, 0, &[1, 2, 3]),
    ]);
    assert_eq!(error_of(&jpeg), JpegError::TruncatedImage);
}

#[test]
fn segment_cut_short_is_unexpected_eof() {
    let full = gray_16x16();
    // Cut inside the DQT segment.
    assert_eq!(error_of(&full[..20]), JpegError::UnexpectedEof);
    assert_eq!(JpegInfo::new(&full[..20]).unwrap_err(), JpegError::UnexpectedEof);
}

#[test]
fn progressive_scan_fields_are_unsupported() {
    for (ss, se, ah_al) in [(1u8, 63u8, 0u8), (0, 62, 0), (0, 0, 0), (0, 63, 0x10), (0, 63, 0x01)] {
        let jpeg = join(&[
            &SOI,
            &frame(0xC0, 8, 16, 16, &[[1, 0x11, 0]]),
            &scan(&[[1, 0x00]], ss, se, ah_al, &[0x00]),
            &EOI,
        ]);
        assert_eq!(error_of(&jpeg), JpegError::UnsupportedCodec);
    }
}

#[test]
fn scan_component_count_must_be_one_to_four() {
    let jpeg = join(&[&SOI, &frame(0xC0, 8, 16, 16, &[[1, 0x11, 0]]), &scan(&[], 0, 63, 0, &[0]), &EOI]);
    assert_eq!(error_of(&jpeg), JpegError::MalformedSegment);
    let five = [[1u8, 0u8]; 5];
    let jpeg = join(&[&SOI, &frame(0xC0, 8, 16, 16, &[[1, 0x11, 0]]), &scan(&five, 0, 63, 0, &[0]), &EOI]);
    assert_eq!(error_of(&jpeg), JpegError::MalformedSegment);
    let four = [[1u8, 0u8], [2, 0], [3, 0], [4, 0x11]];
    let jpeg = join(&[&SOI, &frame(0xC0, 8, 16, 16, &[[1, 0x11, 0]]), &scan(&four, 0, 63, 0, &[0]), &EOI]);
    let p = parse(&jpeg).unwrap();
    assert_eq!(p.slice.num_components(), 4);
    assert_eq!(p.slice.component(3).component_selector, 4);
}

#[test]
fn frame_with_zero_size_or_no_component_is_malformed() {
    for (w, h) in [(0u16, 16u16), (16, 0), (0, 0)] {
        let jpeg = join(&[&SOI, &frame(0xC0, 8, w, h, &[[1, 0x11, 0]]), &scan(&[[1, 0]], 0, 63, 0, &[0]), &EOI]);
        assert_eq!(error_of(&jpeg), JpegError::MalformedSegment);
    }
    let jpeg = join(&[&SOI, &frame(0xC0, 8, 16, 16, &[]), &scan(&[[1, 0]], 0, 63, 0, &[0]), &EOI]);
    assert_eq!(error_of(&jpeg), JpegError::MalformedSegment);
}

#[test]
fn zero_sampling_factor_is_malformed() {
    for packed in [0x00u8, 0x01, 0x10, 0x0F, 0xF0] {
        let jpeg = join(&[
            &SOI,
            &frame(0xC0, 8, 16, 16, &[[1, 0x11, 0], [2, packed, 0]]),
            &scan(&[[1, 0]], 0, 63, 0, &[0]),
            &EOI,
        ]);
        assert_eq!(error_of(&jpeg), JpegError::MalformedSegment);
    }
}

#[test]
fn expected_size_must_match() {
    let jpeg = gray_16x16();
    assert!(DecodeParameters::parse(&jpeg, Some((16, 16))).is_ok());
    for size in [(17u16, 16u16), (16, 17), (8, 8)] {
        match DecodeParameters::parse(&jpeg, Some(size)) {
            Err(e) => assert_eq!(e, JpegError::UnsupportedCodec),
            Ok(_) => panic!("expected a size mismatch"),
        }
    }
    // Width and height are not interchangeable.
    let wide = join(&[&SOI, &frame(0xC0, 8, 32, 16, &[[1, 0x11, 0]]), &scan(&[[1, 0]], 0, 63, 0, &[0]), &EOI]);
    assert!(DecodeParameters::parse(&wide, Some((32, 16))).is_ok());
    assert!(DecodeParameters::parse(&wide, Some((16, 32))).is_err());
}

#[test]
fn unknown_segments_are_ignored() {
    let jpeg = join(&[
        &SOI,
        &segment(0xE1, b"Exif"),
        &segment(0xFE, b"a comment"),
        &segment(0xEF, &[]),
        &frame(0xC0, 8, 16, 16, &[[1, 0x11, 0]]),
        &segment(0xE2, &[1, 2, 3]),
        &segment(0xC8, &[]),
        &scan(&[[1, 0x00]], 0, 63, 0, &[0x55]),
        &EOI,
    ]);
    let p = parse(&jpeg).unwrap();
    assert_eq!(p.slice_data(&jpeg), &[0x55]);
}

#[test]
fn tables_between_frame_and_scan_are_folded() {
    let jpeg = join(&[
        &SOI,
        &frame(0xC0, 8, 16, 16, &[[1, 0x11, 2]]),
        &quant(2, 77),
        &segment(0xDD, &[0x01, 0x00]),
        &scan(&[[1, 0x00]], 0, 63, 0, &[0x55]),
        &EOI,
    ]);
    let p = parse(&jpeg).unwrap();
    assert_eq!(p.quant.quantization_table(2), &[77u8; 64]);
    assert_eq!(p.slice.restart_interval(), 256);
    assert_eq!(p.picture.component(0).quantiser_table_selector, 2);
}

#[test]
fn later_tables_overwrite_earlier_ones() {
    let jpeg = join(&[
        &SOI,
        &quant(0, 1),
        &quant(0, 2),
        &segment(0xDD, &[0, 1]),
        &segment(0xDD, &[0, 9]),
        &frame(0xC0, 8, 16, 16, &[[1, 0x11, 0]]),
        &scan(&[[1, 0x00]], 0, 63, 0, &[0x55]),
        &EOI,
    ]);
    let p = parse(&jpeg).unwrap();
    assert_eq!(p.quant.quantization_table(0), &[2u8; 64]);
    assert_eq!(p.slice.restart_interval(), 9);
}

#[test]
fn everything_behind_eoi_is_ignored() {
    let mut jpeg = gray_16x16();
    let clean = parse(&jpeg).unwrap();
    jpeg.extend_from_slice(&[0xFF, 0xE0, 0x00, 0x01, 0xFF, 0xC2, 0xFF, 0xDB, 0x00]);
    let p = parse(&jpeg).unwrap();
    assert_eq!(p.data_start, clean.data_start);
    assert_eq!(p.data_end, clean.data_end);
    assert_eq!(p.slice.num_mcus(), 4);
}

#[test]
fn segments_behind_the_scan_do_not_change_the_parameters() {
    let jpeg = join(&[
        &SOI,
        &quant(0, 1),
        &frame(0xC0, 8, 16, 16, &[[1, 0x11, 0]]),
        &scan(&[[1, 0x00]], 0, 63, 0, &[0x55]),
        &quant(0, 9),
        &segment(0xDD, &[0, 7]),
        &frame(0xC2, 8, 99, 99, &[[1, 0x11, 0]]),
        &scan(&[[1, 0x11], [2, 0x11]], 0, 63, 0, &[0x66, 0x77]),
        &EOI,
    ]);
    let p = parse(&jpeg).unwrap();
    assert_eq!(p.quant.quantization_table(0), &[1u8; 64]);
    assert_eq!(p.slice.restart_interval(), 0);
    assert_eq!(p.picture.picture_width(), 16);
    assert_eq!(p.slice.num_components(), 1);
    assert_eq!(p.slice_data(&jpeg), &[0x55]);
}

#[test]
fn malformed_segment_behind_the_scan_still_fails() {
    let jpeg = join(&[
        &SOI,
        &frame(0xC0, 8, 16, 16, &[[1, 0x11, 0]]),
        &scan(&[[1, 0x00]], 0, 63, 0, &[0x55]),
        &[0xFF, 0xE0, 0x00, 0x01],
        &EOI,
    ]);
    assert_eq!(error_of(&jpeg), JpegError::MalformedSegment);
}

#[test]
fn a_second_frame_header_before_the_scan_is_ignored() {
    let jpeg = join(&[
        &SOI,
        &frame(0xC0, 8, 16, 16, &[[1, 0x11, 0]]),
        &frame(0xC0, 8, 64, 64, &[[1, 0x22, 0], [2, 0x11, 0]]),
        &scan(&[[1, 0x00]], 0, 63, 0, &[0x55]),
        &EOI,
    ]);
    let p = parse(&jpeg).unwrap();
    assert_eq!(p.picture.picture_width(), 16);
    assert_eq!(p.picture.num_components(), 1);
    assert_eq!(p.slice.num_mcus(), 4);
}

#[test]
fn a_scan_header_before_the_frame_header_is_ignored() {
    let jpeg = join(&[
        &SOI,
        &scan(&[[1, 0x00]], 0, 63, 0, &[0x11]),
        &frame(0xC0, 8, 16, 16, &[[1, 0x11, 0]]),
        &EOI,
    ]);
    assert_eq!(error_of(&jpeg), JpegError::TruncatedImage);
    let jpeg = join(&[
        &SOI,
        &scan(&[[9, 0x11]], 5, 6, 7, &[0x11]),
        &frame(0xC0, 8, 16, 16, &[[1, 0x11, 0]]),
        &scan(&[[1, 0x00]], 0, 63, 0, &[0x22]),
        &EOI,
    ]);
    let p = parse(&jpeg).unwrap();
    assert_eq!(p.slice_data(&jpeg), &[0x22]);
    assert_eq!(p.slice.component(0).component_selector, 1);
}

#[test]
fn decode_without_eoi_ends_with_the_input() {
    let jpeg = join(&[
        &SOI,
        &frame(0xC0, 8, 16, 16, &[[1, 0x11, 0]]),
        &scan(&[[1, 0x00]], 0, 63, 0, &[0x55]),
        &segment(0xFE, b"end"),
    ]);
    let p = parse(&jpeg).unwrap();
    assert_eq!(p.slice_data(&jpeg), &[0x55]);
}

#[test]
fn decode_does_not_need_soi() {
    let jpeg = join(&[&frame(0xC0, 8, 16, 16, &[[1, 0x11, 0]]), &scan(&[[1, 0x00]], 0, 63, 0, &[0x55]), &EOI]);
    assert!(parse(&jpeg).is_ok());
    assert_eq!(JpegInfo::new(&jpeg).unwrap_err(), JpegError::MalformedSegment);
}

#[test]
fn jpeg_info_reads_the_size() {
    let info = JpegInfo::new(&gray_16x16()).unwrap();
    assert_eq!((info.width(), info.height()), (16, 16));
    let jpeg = join(&[&SOI, &segment(0xE0, &[0; 14]), &frame(0xC0, 8, 640, 480, &[[1, 0x22, 0]])]);
    let info = JpegInfo::new(&jpeg).unwrap();
    assert_eq!((info.width(), info.height()), (640, 480));
}

#[test]
fn jpeg_info_looks_past_eoi_for_the_frame_header() {
    let jpeg = join(&[&SOI, &EOI, &frame(0xC0, 8, 3, 5, &[[1, 0x11, 0]])]);
    let info = JpegInfo::new(&jpeg).unwrap();
    assert_eq!((info.width(), info.height()), (3, 5));
}

#[test]
fn jpeg_info_needs_soi_first() {
    let jpeg = join(&[&segment(0xE0, &[1]), &SOI, &frame(0xC0, 8, 3, 5, &[[1, 0x11, 0]])]);
    assert_eq!(JpegInfo::new(&jpeg).unwrap_err(), JpegError::MalformedSegment);
    assert_eq!(JpegInfo::new(&EOI).unwrap_err(), JpegError::MalformedSegment);
}

#[test]
fn jpeg_info_reports_parse_errors() {
    let jpeg = join(&[&SOI, &[0xFF, 0xE0, 0x00, 0x00]]);
    assert_eq!(JpegInfo::new(&jpeg).unwrap_err(), JpegError::MalformedSegment);
    let jpeg = join(&[&SOI, &[0xFF, 0xE0, 0x10, 0x00]]);
    assert_eq!(JpegInfo::new(&jpeg).unwrap_err(), JpegError::UnexpectedEof);
}

fn baseline_sof(width: u16, height: u16) -> Sof {
    Sof { sof: 0xC0, P: 8, Y: height, X: width, components: vec![FrameComponent { Ci: 1, HiVi: 0x11, Tqi: 0 }] }
}

fn baseline_sos(start: usize, end: usize) -> Sos {
    Sos {
        components: vec![fev::jpeg::parser::ScanComponent { Csj: 1, TdjTaj: 0 }],
        Ss: 0,
        Se: 63,
        AhAl: 0,
        data_start: start,
        data_end: end,
    }
}

#[test]
fn state_moves_through_the_phases() {
    let state = DecodeState::new(None);
    assert_eq!(state.phase(), Phase::AwaitFrame);
    assert!(state.finish().is_err());
    let state = state.step(&SegmentKind::Dri(Dri { Ri: 3 })).ok().unwrap();
    assert_eq!(state.phase(), Phase::AwaitFrame);
    let state = state.step(&SegmentKind::Other { marker: 0xE0, start: 0, end: 0 }).ok().unwrap();
    assert_eq!(state.phase(), Phase::AwaitFrame);
    let state = state.step(&SegmentKind::Sof(baseline_sof(8, 8))).ok().unwrap();
    assert_eq!(state.phase(), Phase::AwaitScan);
    assert_eq!(state.finish().err(), Some(JpegError::TruncatedImage));
    let state = state.step(&SegmentKind::Sos(baseline_sos(10, 30))).ok().unwrap();
    assert_eq!(state.phase(), Phase::Ready);
    let state = state.step(&SegmentKind::Eoi).ok().unwrap();
    assert_eq!(state.phase(), Phase::Ready);
    let p = state.finish().ok().unwrap();
    assert_eq!(p.slice.restart_interval(), 3);
    assert_eq!(p.slice.base().slice_data_size(), 20);
    assert_eq!((p.data_start, p.data_end), (10, 30));
    assert_eq!(p.slice.num_mcus(), 1);
}

#[test]
fn eoi_before_ready_is_a_truncated_image() {
    let state = DecodeState::new(None);
    assert_eq!(state.step(&SegmentKind::Eoi).err(), Some(JpegError::TruncatedImage));
    let state = state.step(&SegmentKind::Sof(baseline_sof(8, 8))).ok().unwrap();
    assert_eq!(state.step(&SegmentKind::Eoi).err(), Some(JpegError::TruncatedImage));
}

#[test]
fn step_refuses_tables_that_cannot_be_stored() {
    let state = DecodeState::new(None);
    let bad_slot = SegmentKind::Dqt(vec![Dqt { Pq: 0, Tq: 4, Qk: [0; 64] }]);
    assert_eq!(state.step(&bad_slot).err(), Some(JpegError::MalformedSegment));
    let bad_precision = SegmentKind::Dqt(vec![Dqt { Pq: 1, Tq: 0, Qk: [0; 64] }]);
    assert_eq!(state.step(&bad_precision).err(), Some(JpegError::MalformedSegment));
    let bad_class = SegmentKind::Dht(vec![Dht { Tc: 2, Th: 0, Li: [0; 16], Vij: vec![] }]);
    assert_eq!(state.step(&bad_class).err(), Some(JpegError::MalformedSegment));
    let bad_huffman_slot = SegmentKind::Dht(vec![Dht { Tc: 0, Th: 2, Li: [0; 16], Vij: vec![] }]);
    assert_eq!(state.step(&bad_huffman_slot).err(), Some(JpegError::MalformedSegment));
    let second_bad = SegmentKind::Dht(vec![
        Dht { Tc: 0, Th: 0, Li: [0; 16], Vij: vec![1] },
        Dht { Tc: 1, Th: 0, Li: [0; 16], Vij: vec![0; 163] },
    ]);
    assert_eq!(state.step(&second_bad).err(), Some(JpegError::MalformedSegment));
}

#[test]
fn step_folds_tables_in_order() {
    let state = DecodeState::new(None);
    let tables = SegmentKind::Dqt(vec![
        Dqt { Pq: 0, Tq: 1, Qk: [1; 64] },
        Dqt { Pq: 0, Tq: 3, Qk: [3; 64] },
        Dqt { Pq: 0, Tq: 1, Qk: [7; 64] },
    ]);
    let state = state.step(&tables).ok().unwrap();
    assert_eq!(state.quant.quantization_table(1), &[7u8; 64]);
    assert_eq!(state.quant.quantization_table(3), &[3u8; 64]);
    assert_eq!(state.quant.quantization_table(0), &[0u8; 64]);
    assert!(state.quant.modified().contains(1) && state.quant.modified().contains(3));
    assert!(!state.quant.modified().contains(0));
    let mut li = [0u8; 16];
    li[0] = 2;
    let huffman = SegmentKind::Dht(vec![
        Dht { Tc: 0, Th: 1, Li: li, Vij: vec![5, 6] },
        Dht { Tc: 1, Th: 1, Li: li, Vij: vec![8, 9] },
    ]);
    let state = state.step(&huffman).ok().unwrap();
    assert!(state.seen_dht);
    let table: &HuffmanTable = state.huffman.huffman_table(1);
    assert_eq!((table.num_dc_codes[0], table.dc_values[0], table.dc_values[1]), (2, 5, 6));
    assert_eq!((table.num_ac_codes[0], table.ac_values[0], table.ac_values[1]), (2, 8, 9));
    assert_eq!(state.huffman.load_huffman_table, [0, 1]);
}

#[test]
fn an_empty_dht_segment_counts_as_present() {
    let state = DecodeState::new(None).step(&SegmentKind::Dht(vec![])).ok().unwrap();
    assert!(state.seen_dht);
    let state = state.step(&SegmentKind::Sof(baseline_sof(8, 8))).ok().unwrap();
    let state = state.step(&SegmentKind::Sos(baseline_sos(0, 1))).ok().unwrap();
    let p = state.finish().ok().unwrap();
    assert_eq!(p.huffman.load_huffman_table, [0, 0]);
    assert_eq!(p.huffman.huffman_table(0).ac_values, [0u8; 162]);
}

#[test]
fn scan_with_reversed_data_extent_is_malformed() {
    let state = DecodeState::new(None).step(&SegmentKind::Sof(baseline_sof(8, 8))).ok().unwrap();
    assert_eq!(
        state.step(&SegmentKind::Sos(baseline_sos(5, 4))).err(),
        Some(JpegError::MalformedSegment)
    );
}

#[test]
fn scan_data_beyond_a_32_bit_size_is_unsupported() {
    if usize::BITS < 64 {
        return;
    }
    let state = DecodeState::new(None).step(&SegmentKind::Sof(baseline_sof(8, 8))).ok().unwrap();
    let end = (u32::MAX as usize) + 11;
    assert_eq!(
        state.step(&SegmentKind::Sos(baseline_sos(10, end))).err(),
        Some(JpegError::UnsupportedCodec)
    );
    let state = state.step(&SegmentKind::Sos(baseline_sos(10, end - 1))).ok().unwrap();
    let p = state.finish().ok().unwrap();
    assert_eq!(p.slice.base().slice_data_size(), u32::MAX);
}

#[test]
fn parser_and_decode_agree_on_the_scan() {
    let jpeg = gray_16x16();
    let mut parser = JpegParser::new(&jpeg);
    let mut frames = 0;
    let mut scans = 0;
    let mut extent = (0, 0);
    while let Some(segment) = parser.next_segment().unwrap() {
        match segment.kind {
            SegmentKind::Sof(sof) => {
                frames += 1;
                assert_eq!(sof.components.len(), 1);
            }
            SegmentKind::Sos(sos) => {
                scans += 1;
                assert_eq!(sos.components.len(), 1);
                extent = (sos.data_start, sos.data_end);
            }
            _ => {}
        }
    }
    assert_eq!((frames, scans), (1, 1));
    let p = parse(&jpeg).unwrap();
    assert_eq!((p.data_start, p.data_end), extent);
}
