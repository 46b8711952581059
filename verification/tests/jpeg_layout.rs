use fev::buffer::BufferType;
use fev::jpeg::{
    ColorSpace, DecodeParameters, HuffmanTable, HuffmanTableBuffer, IQMatrixBuffer,
    PictureParameterBuffer, SliceParameterBuffer,
};
use fev::raw::Rectangle;
use fev::{Rotation, SliceDataFlags, SliceParameterBufferBase};

#[test]
fn quantization_layout() {
    let mut q = IQMatrixBuffer::new();
    q.set_quantization_table(1, &[0xAB; 64]);
    q.set_quantization_table(3, &[0xCD; 64]);
    q.va_reserved = [0x04030201, 0, 0, 0x0D0C0B0A];
    let bytes = q.to_bytes();
    assert_eq!(bytes.len(), 276);
    assert_eq!(bytes.len(), IQMatrixBuffer::SIZE);
    assert_eq!(&bytes[..4], &[0, 1, 0, 1]);
    assert_eq!(&bytes[4..68], &[0u8; 64]);
    assert_eq!(&bytes[68..132], &[0xABu8; 64]);
    assert_eq!(&bytes[132..196], &[0u8; 64]);
    assert_eq!(&bytes[196..260], &[0xCDu8; 64]);
    assert_eq!(&bytes[260..264], &[1, 2, 3, 4]);
    assert_eq!(&bytes[264..272], &[0u8; 8]);
    assert_eq!(&bytes[272..], &[0x0A, 0x0B, 0x0C, 0x0D]);
}

#[test]
fn huffman_table_layout() {
    let mut t = HuffmanTable::zeroed();
    t.set_dc_table(&[1u8; 16], &[2u8; 12]);
    t.set_ac_table(&[3u8; 16], &[4u8; 162]);
    let bytes = t.to_bytes();
    assert_eq!(bytes.len(), 208);
    assert_eq!(bytes.len(), HuffmanTable::SIZE);
    assert_eq!(&bytes[..16], &[1u8; 16]);
    assert_eq!(&bytes[16..28], &[2u8; 12]);
    assert_eq!(&bytes[28..44], &[3u8; 16]);
    assert_eq!(&bytes[44..206], &[4u8; 162]);
    assert_eq!(&bytes[206..], &[0, 0]);
}

#[test]
fn huffman_buffer_layout() {
    let b = HuffmanTableBuffer::default_tables();
    let bytes = b.to_bytes();
    assert_eq!(bytes.len(), 436);
    assert_eq!(bytes.len(), HuffmanTableBuffer::SIZE);
    assert_eq!(&bytes[..2], &[1, 1]);
    assert_eq!(&bytes[2..210], &HuffmanTable::default_luminance().to_bytes()[..]);
    assert_eq!(&bytes[210..418], &HuffmanTable::default_chrominance().to_bytes()[..]);
    assert_eq!(&bytes[418..], &[0u8; 18]);
    // Spot checks at absolute offsets.
    assert_eq!(bytes[2 + 2], 5);
    assert_eq!(bytes[2 + 28 + 15], 125);
    assert_eq!(bytes[210 + 1], 3);
    assert_eq!(bytes[210 + 28 + 15], 119);
}

#[test]
fn picture_layout() {
    let mut p = PictureParameterBuffer::new(0x0123, 0x4567, ColorSpace(ColorSpace::BGR));
    p.push_component(1, 2, 3, 4);
    p.push_component(5, 6, 7, 8);
    p.set_rotation(Rotation(Rotation::R270));
    p.crop_rectangle = Rectangle { x: -2, y: 3, width: 0x1122, height: 0x3344 };
    p.va_reserved = [1, 2, 3, 4, 0xFFFFFFFF];
    let bytes = p.to_bytes();
    assert_eq!(bytes.len(), 1060);
    assert_eq!(bytes.len(), PictureParameterBuffer::SIZE);
    assert_eq!(&bytes[..4], &[0x23, 0x01, 0x67, 0x45]);
    assert_eq!(&bytes[4..12], &[1, 2, 3, 4, 5, 6, 7, 8]);
    assert!(bytes[12..1024].iter().all(|&b| b == 0));
    assert_eq!(&bytes[1024..1028], &[2, 2, 0, 0]);
    assert_eq!(&bytes[1028..1032], &[3, 0, 0, 0]);
    assert_eq!(&bytes[1032..1040], &[0xFE, 0xFF, 3, 0, 0x22, 0x11, 0x44, 0x33]);
    assert_eq!(&bytes[1040..1044], &[1, 0, 0, 0]);
    assert_eq!(&bytes[1056..], &[0xFF; 4]);
}

#[test]
fn slice_layout() {
    let mut base = SliceParameterBufferBase::new(0x01020304);
    base.set_slice_data_offset(0x0A0B0C0D);
    base.set_slice_data_flags(SliceDataFlags(SliceDataFlags::END));
    let mut s = SliceParameterBuffer::new(base, 0x1234, 0x00ABCDEF);
    s.push_component(1, 0, 1);
    s.push_component(2, 1, 0);
    s.slice_horizontal_position = 7;
    s.slice_vertical_position = 9;
    s.va_reserved = [0, 0, 0, 0x80000000];
    let bytes = s.to_bytes();
    assert_eq!(bytes.len(), 56);
    assert_eq!(bytes.len(), SliceParameterBuffer::SIZE);
    assert_eq!(&bytes[..4], &[4, 3, 2, 1]);
    assert_eq!(&bytes[4..8], &[0x0D, 0x0C, 0x0B, 0x0A]);
    assert_eq!(&bytes[8..12], &[4, 0, 0, 0]);
    assert_eq!(&bytes[12..16], &[7, 0, 0, 0]);
    assert_eq!(&bytes[16..20], &[9, 0, 0, 0]);
    assert_eq!(&bytes[20..32], &[1, 0, 1, 2, 1, 0, 0, 0, 0, 0, 0, 0]);
    assert_eq!(&bytes[32..34], &[2, 0]);
    assert_eq!(&bytes[34..36], &[0x34, 0x12]);
    assert_eq!(&bytes[36..40], &[0xEF, 0xCD, 0xAB, 0x00]);
    assert_eq!(&bytes[40..52], &[0u8; 12]);
    assert_eq!(&bytes[52..], &[0, 0, 0, 0x80]);
}

fn segment(marker: u8, payload: &[u8]) -> Vec<u8> {
    let length = payload.len() + 2;
    let mut bytes = vec![0xFF, marker, (length >> 8) as u8, (length & 0xFF) as u8];
    bytes.extend_from_slice(payload);
    bytes
}

fn small_jpeg() -> Vec<u8> {
    let mut jpeg = vec![0xFF, 0xD8];
    let mut table = vec![0x01];
    table.extend(std::iter::repeat(9u8).take(64));
    jpeg.extend(segment(0xDB, &table));
    jpeg.extend(segment(0xDD, &[0x00, 0x02]));
    jpeg.extend(segment(0xC0, &[8, 0, 24, 0, 40, 2, 1, 0x21, 1, 2, 0x11, 1]));
    jpeg.extend(segment(0xDA, &[2, 1, 0x01, 2, 0x10, 0, 63, 0]));
    jpeg.extend_from_slice(&[1, 2, 3, 4, 5]);
    jpeg.extend_from_slice(&[0xFF, 0xD9]);
    jpeg
}

#[test]
fn records_come_in_submission_order() {
    let jpeg = small_jpeg();
    let p = DecodeParameters::parse(&jpeg, None).ok().unwrap();
    let records = p.records();
    let types: Vec<BufferType> = records.iter().map(|r| r.buffer_type).collect();
    assert_eq!(
        types,
        vec![
            BufferType(BufferType::HuffmanTable),
            BufferType(BufferType::IQMatrix),
            BufferType(BufferType::PictureParameter),
            BufferType(BufferType::SliceParameter),
        ]
    );
    let sizes: Vec<usize> = records.iter().map(|r| r.bytes.len()).collect();
    assert_eq!(sizes, vec![436, 276, 1060, 56]);
    assert_eq!(records[0].bytes, p.huffman.to_bytes());
    assert_eq!(records[1].bytes, p.quant.to_bytes());
    assert_eq!(records[2].bytes, p.picture.to_bytes());
    assert_eq!(records[3].bytes, p.slice.to_bytes());
}

#[test]
fn decoded_records_have_the_expected_bytes() {
    let jpeg = small_jpeg();
    let p = DecodeParameters::parse(&jpeg, Some((40, 24))).ok().unwrap();
    let records = p.records();

    // No DHT segment: the default tables, both marked for loading.
    assert_eq!(records[0].bytes, HuffmanTableBuffer::default_tables().to_bytes());

    let quant = &records[1].bytes;
    assert_eq!(&quant[..4], &[0, 1, 0, 0]);
    assert_eq!(&quant[68..132], &[9u8; 64]);
    assert!(quant[4..68].iter().chain(quant[132..].iter()).all(|&b| b == 0));

    let picture = &records[2].bytes;
    assert_eq!(&picture[..4], &[40, 0, 24, 0]);
    assert_eq!(&picture[4..12], &[1, 2, 1, 1, 2, 1, 1, 1]);
    assert!(picture[12..1024].iter().all(|&b| b == 0));
    assert_eq!(&picture[1024..1026], &[2, 0]);
    assert!(picture[1026..].iter().all(|&b| b == 0));

    let slice = &records[3].bytes;
    assert_eq!(&slice[..4], &[5, 0, 0, 0]);
    assert_eq!(&slice[4..20], &[0u8; 16]);
    assert_eq!(&slice[20..26], &[1, 0, 1, 2, 1, 0]);
    assert_eq!(&slice[26..32], &[0u8; 6]);
    assert_eq!(&slice[32..34], &[2, 0]);
    assert_eq!(&slice[34..36], &[2, 0]);
    // 40x24 with Hmax=2, Vmax=1: ceil(40/16) * ceil(24/8) = 3 * 3.
    assert_eq!(&slice[36..40], &[9, 0, 0, 0]);
    assert_eq!(&slice[40..], &[0u8; 16]);

    assert_eq!(p.slice_data(&jpeg), &[1, 2, 3, 4, 5]);
}
