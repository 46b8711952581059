use fev::jpeg::{
    ColorSpace, Component, HuffmanTable, HuffmanTableBuffer, IQMatrixBuffer,
    PictureParameterBuffer, ScanComponent, SliceParameterBuffer, TableSet,
};
use fev::{Rotation, SliceDataFlags, SliceParameterBufferBase};

fn pattern() -> [u8; 64] {
    let mut table = [0u8; 64];
    for (i, b) in table.iter_mut().enumerate() {
        *b = (i as u8) * 3 + 1;
    }
    table
}

#[test]
fn new_quantization_buffer_is_zero_and_clean() {
    let q = IQMatrixBuffer::new();
    for slot in 0..4 {
        assert_eq!(q.quantization_table(slot), &[0u8; 64]);
        assert!(!q.modified().contains(slot));
    }
    assert!(q.modified().is_empty());
}

#[test]
fn quantization_table_round_trip() {
    let mut q = IQMatrixBuffer::new();
    let table = pattern();
    let modified = q.set_quantization_table(0, &table);
    assert_eq!(q.quantization_table(0), &table);
    assert!(modified.contains(0));
    assert!(q.modified().contains(0));
    for slot in 1..4 {
        assert!(!modified.contains(slot));
        assert_eq!(q.quantization_table(slot), &[0u8; 64]);
    }
    assert_eq!(q.load_quantiser_table, [1, 0, 0, 0]);
}

#[test]
fn clearing_forgets_only_earlier_modifications() {
    let mut q = IQMatrixBuffer::new();
    let table = pattern();
    q.set_quantization_table(0, &table);
    q.set_quantization_table(2, &[9u8; 64]);
    let cleared = q.clear_modified();
    assert!(cleared.contains(0) && cleared.contains(2));
    assert!(!cleared.contains(1) && !cleared.contains(3));
    assert!(q.modified().is_empty());
    assert_eq!(q.quantization_table(0), &table);
    assert_eq!(q.quantization_table(2), &[9u8; 64]);
    let modified = q.set_quantization_table(3, &[5u8; 64]);
    assert!(modified.contains(3));
    assert!(!modified.contains(0) && !modified.contains(2));
    assert_eq!(q.load_quantiser_table, [0, 0, 0, 1]);
    let again = q.clear_modified();
    assert!(again.contains(3) && !again.contains(0));
}

#[test]
fn overwriting_a_slot_keeps_the_last_table() {
    let mut q = IQMatrixBuffer::new();
    q.set_quantization_table(1, &[1u8; 64]);
    q.set_quantization_table(1, &pattern());
    assert_eq!(q.quantization_table(1), &pattern());
}

#[test]
fn table_set_membership() {
    let set = TableSet { slots: [true, false, false, true] };
    assert!(set.contains(0));
    assert!(!set.contains(1));
    assert!(set.contains(3));
    assert!(!set.contains(4));
    assert!(!set.contains(255));
    assert!(!set.is_empty());
    assert!(TableSet { slots: [false; 4] }.is_empty());
}

#[test]
fn zeroed_huffman_table_is_zero() {
    let t = HuffmanTable::zeroed();
    assert_eq!(t.num_dc_codes, [0u8; 16]);
    assert_eq!(t.dc_values, [0u8; 12]);
    assert_eq!(t.num_ac_codes, [0u8; 16]);
    assert_eq!(t.ac_values, [0u8; 162]);
    assert_eq!(t.pad, [0u8; 2]);
}

#[test]
fn setting_a_dc_table_overwrites_the_front() {
    let mut t = HuffmanTable::zeroed();
    t.set_dc_table(&[9u8; 16], &[7u8; 12]);
    t.set_dc_table(&[1, 2, 3], &[4, 5]);
    let mut counts = [9u8; 16];
    counts[..3].copy_from_slice(&[1, 2, 3]);
    let mut values = [7u8; 12];
    values[..2].copy_from_slice(&[4, 5]);
    assert_eq!(t.num_dc_codes, counts);
    assert_eq!(t.dc_values, values);
    assert_eq!(t.num_ac_codes, [0u8; 16]);
    assert_eq!(t.ac_values, [0u8; 162]);
}

#[test]
fn setting_an_ac_table_overwrites_the_front() {
    let mut t = HuffmanTable::zeroed();
    let values: Vec<u8> = (0..162).map(|i| i as u8).collect();
    t.set_ac_table(&[2u8; 16], &values);
    t.set_ac_table(&[], &[0xEE]);
    assert_eq!(t.num_ac_codes, [2u8; 16]);
    assert_eq!(t.ac_values[0], 0xEE);
    assert_eq!(&t.ac_values[1..], &values[1..]);
    assert_eq!(t.num_dc_codes, [0u8; 16]);
    assert_eq!(t.dc_values, [0u8; 12]);
}

#[test]
fn default_luminance_table_is_the_recommended_one() {
    let t = HuffmanTable::default_luminance();
    assert_eq!(t.num_dc_codes, [0, 1, 5, 1, 1, 1, 1, 1, 1, 0, 0, 0, 0, 0, 0, 0]);
    assert_eq!(t.dc_values, [0, 1, 2, 3, 4, 5, 6, 7, 8, 9, 10, 11]);
    assert_eq!(t.num_ac_codes, [0, 2, 1, 3, 3, 2, 4, 3, 5, 5, 4, 4, 0, 0, 1, 125]);
    assert_eq!(&t.ac_values[..8], &[0x01, 0x02, 0x03, 0x00, 0x04, 0x11, 0x05, 0x12]);
    assert_eq!(&t.ac_values[154..], &[0xf3, 0xf4, 0xf5, 0xf6, 0xf7, 0xf8, 0xf9, 0xfa]);
    let dc: usize = t.num_dc_codes.iter().map(|&c| c as usize).sum();
    let ac: usize = t.num_ac_codes.iter().map(|&c| c as usize).sum();
    assert_eq!((dc, ac), (12, 162));
}

#[test]
fn default_chrominance_table_is_the_recommended_one() {
    let t = HuffmanTable::default_chrominance();
    assert_eq!(t.num_dc_codes, [0, 3, 1, 1, 1, 1, 1, 1, 1, 1, 1, 0, 0, 0, 0, 0]);
    assert_eq!(t.dc_values, [0, 1, 2, 3, 4, 5, 6, 7, 8, 9, 10, 11]);
    assert_eq!(t.num_ac_codes, [0, 2, 1, 2, 4, 4, 3, 4, 7, 5, 4, 4, 0, 1, 2, 119]);
    assert_eq!(&t.ac_values[..8], &[0x00, 0x01, 0x02, 0x03, 0x11, 0x04, 0x05, 0x21]);
    assert_eq!(&t.ac_values[154..], &[0xf3, 0xf4, 0xf5, 0xf6, 0xf7, 0xf8, 0xf9, 0xfa]);
    let dc: usize = t.num_dc_codes.iter().map(|&c| c as usize).sum();
    let ac: usize = t.num_ac_codes.iter().map(|&c| c as usize).sum();
    assert_eq!((dc, ac), (12, 162));
    // Every AC symbol occurs once.
    let mut seen = [false; 256];
    for &v in t.ac_values.iter() {
        assert!(!seen[v as usize]);
        seen[v as usize] = true;
    }
}

#[test]
fn default_tables_fill_both_slots() {
    let b = HuffmanTableBuffer::default_tables();
    assert_eq!(b.load_huffman_table, [1, 1]);
    assert!(b.modified().contains(0) && b.modified().contains(1));
    assert_eq!(b.huffman_table(0).ac_values, HuffmanTable::default_luminance().ac_values);
    assert_eq!(b.huffman_table(0).num_dc_codes, HuffmanTable::default_luminance().num_dc_codes);
    assert_eq!(b.huffman_table(1).ac_values, HuffmanTable::default_chrominance().ac_values);
    assert_eq!(b.huffman_table(1).num_dc_codes, HuffmanTable::default_chrominance().num_dc_codes);
}

#[test]
fn huffman_buffer_tracks_modified_slots() {
    let mut b = HuffmanTableBuffer::zeroed();
    assert!(b.modified().is_empty());
    assert_eq!(b.huffman_table(0).dc_values, [0u8; 12]);
    b.huffman_table_mut(1).set_dc_table(&[1], &[2]);
    assert!(b.modified().contains(1) && !b.modified().contains(0));
    assert_eq!(b.huffman_table(1).num_dc_codes[0], 1);
    assert_eq!(b.huffman_table(1).dc_values[0], 2);
    let cleared = b.clear_modified();
    assert!(cleared.contains(1) && !cleared.contains(0));
    assert!(b.modified().is_empty());
    assert_eq!(b.huffman_table(1).dc_values[0], 2);
    let modified = b.set_huffman_table(0, &HuffmanTable::default_chrominance());
    assert!(modified.contains(0) && !modified.contains(1));
    assert_eq!(b.huffman_table(0).num_ac_codes[15], 119);
}

#[test]
fn picture_parameters_collect_components_in_order() {
    let mut p = PictureParameterBuffer::new(640, 480, ColorSpace(ColorSpace::YUV));
    assert_eq!(p.picture_width(), 640);
    assert_eq!(p.picture_height(), 480);
    assert_eq!(p.num_components(), 0);
    assert_eq!(p.color_space, ColorSpace(0));
    assert_eq!(p.rotation, Rotation(Rotation::NONE));
    p.push_component(1, 2, 2, 0);
    p.push_component(2, 1, 1, 1);
    assert_eq!(p.num_components(), 2);
    assert_eq!(
        p.component(0),
        Component { component_id: 1, h_sampling_factor: 2, v_sampling_factor: 2, quantiser_table_selector: 0 }
    );
    assert_eq!(
        p.component(1),
        Component { component_id: 2, h_sampling_factor: 1, v_sampling_factor: 1, quantiser_table_selector: 1 }
    );
    assert_eq!(p.components[2], Component { component_id: 0, h_sampling_factor: 0, v_sampling_factor: 0, quantiser_table_selector: 0 });
    p.set_rotation(Rotation(Rotation::R180));
    assert_eq!(p.rotation, Rotation(2));
    assert_eq!(p.num_components(), 2);
    assert_eq!(p.picture_width(), 640);
}

#[test]
fn picture_parameters_take_255_components() {
    let mut p = PictureParameterBuffer::new(1, 1, ColorSpace(ColorSpace::RGB));
    for i in 0..255u16 {
        p.push_component(i as u8, 1, 1, 0);
    }
    assert_eq!(p.num_components(), 255);
    assert_eq!(p.component(254).component_id, 254);
    assert_eq!(p.color_space, ColorSpace(1));
}

#[test]
fn slice_parameters_collect_components_in_order() {
    let base = SliceParameterBufferBase::new(1234);
    let mut s = SliceParameterBuffer::new(base, 8, 42);
    assert_eq!(s.num_components(), 0);
    assert_eq!(s.num_mcus(), 42);
    assert_eq!(s.restart_interval(), 8);
    assert_eq!(s.base().slice_data_size(), 1234);
    assert_eq!(s.base().slice_data_offset(), 0);
    assert_eq!(s.base().slice_data_flags(), SliceDataFlags(SliceDataFlags::ALL));
    assert_eq!((s.slice_horizontal_position, s.slice_vertical_position), (0, 0));
    s.push_component(1, 0, 0);
    s.push_component(2, 1, 1);
    s.push_component(3, 1, 0);
    s.push_component(4, 0, 1);
    assert_eq!(s.num_components(), 4);
    assert_eq!(s.component(0), ScanComponent { component_selector: 1, dc_table_selector: 0, ac_table_selector: 0 });
    assert_eq!(s.component(3), ScanComponent { component_selector: 4, dc_table_selector: 0, ac_table_selector: 1 });
    assert_eq!(s.num_mcus(), 42);
}

#[test]
fn slice_base_setters_change_one_field() {
    let mut base = SliceParameterBufferBase::new(10);
    base.set_slice_data_offset(3);
    assert_eq!((base.slice_data_size(), base.slice_data_offset()), (10, 3));
    base.set_slice_data_flags(SliceDataFlags(SliceDataFlags::BEGIN | SliceDataFlags::END));
    assert_eq!(base.slice_data_flags().bits(), 5);
    assert!(base.slice_data_flags().contains(SliceDataFlags(SliceDataFlags::END)));
    assert!(!base.slice_data_flags().contains(SliceDataFlags(SliceDataFlags::MIDDLE)));
    assert_eq!((base.slice_data_size(), base.slice_data_offset()), (10, 3));
}
