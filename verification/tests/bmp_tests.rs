use kid_internet_lock::bmp::{bmp_file, row_stride, BmpInfoHeader};

#[test]
fn rows_are_padded_to_four_bytes() {
    assert_eq!(row_stride(0), 0);
    assert_eq!(row_stride(1), 4);
    assert_eq!(row_stride(3), 12);
    assert_eq!(row_stride(5), 16);
    assert_eq!(row_stride(1920), 5760);
    assert_eq!(row_stride(1366), 4100);
}

#[test]
fn bmp_file_layout() {
    let info = BmpInfoHeader {
        size: 40,
        width: 2,
        height: -1,
        planes: 1,
        bit_count: 24,
        compression: 0,
        size_image: 8,
        x_pels_per_meter: 0,
        y_pels_per_meter: 0,
        clr_used: 0,
        clr_important: 0,
    };
    let pixels = [1u8, 2, 3, 4, 5, 6, 0, 0];
    let out = bmp_file(&info, &pixels);
    assert_eq!(out.len(), 62);
    assert_eq!(&out[0..14], &[b'B', b'M', 62, 0, 0, 0, 0, 0, 0, 0, 54, 0, 0, 0]);
    assert_eq!(&out[14..18], &[40, 0, 0, 0]);
    assert_eq!(&out[18..22], &[2, 0, 0, 0]);
    assert_eq!(&out[22..26], &[0xFF, 0xFF, 0xFF, 0xFF]);
    assert_eq!(&out[26..30], &[1, 0, 24, 0]);
    assert_eq!(&out[30..38], &[0, 0, 0, 0, 8, 0, 0, 0]);
    assert_eq!(&out[38..54], &[0u8; 16]);
    assert_eq!(&out[54..], &pixels);
}
