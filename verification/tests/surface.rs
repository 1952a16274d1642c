use textui::{LineId, LineIndex, ScmBuffer, ScmBufferInfo, TextuiBuf, TextuiError};

fn surface(width: u32, height: u32, depth: u32) -> ScmBufferInfo {
    let len = (width * height * (depth / 8)) as usize;
    ScmBufferInfo::new(width, height, depth, ScmBuffer::DoubleBuffer(vec![0u8; len])).unwrap()
}

fn bytes(info: &ScmBufferInfo) -> Vec<u8> {
    (0..info.buf_size()).map(|at| info.byte(at)).collect()
}

#[test]
fn framebuffer_reports_what_it_was_made_with() {
    let info = ScmBufferInfo::new(16, 32, 24, ScmBuffer::DeviceBuffer(vec![7u8; 16 * 32 * 3]))
        .unwrap();
    assert_eq!(info.width(), 16);
    assert_eq!(info.height(), 32);
    assert_eq!(info.bit_depth(), 24);
    assert_eq!(info.buf_size(), 16 * 32 * 3);
    assert!(info.is_device());
    assert_eq!(info.byte(5), 7);
    assert!(!surface(8, 16, 32).is_device());
}

#[test]
fn unsupported_depth_is_refused() {
    for depth in [0u32, 8, 15, 17, 48, 64] {
        let made = ScmBufferInfo::new(8, 16, depth, ScmBuffer::DoubleBuffer(vec![0u8; 4096]));
        assert!(matches!(made, Err(TextuiError::Unsupported)));
    }
}

#[test]
fn too_short_memory_is_refused() {
    let made = ScmBufferInfo::new(8, 16, 32, ScmBuffer::DoubleBuffer(vec![0u8; 8 * 16 * 4 - 1]));
    assert!(matches!(made, Err(TextuiError::InvalidArgument)));
    let made = ScmBufferInfo::new(8, 16, 32, ScmBuffer::DoubleBuffer(vec![0u8; 8 * 16 * 4]));
    assert!(made.is_ok());
    let made = ScmBufferInfo::new(8, 16, 16, ScmBuffer::DoubleBuffer(vec![0u8; 8 * 16 * 2 + 5]));
    assert!(made.is_ok());
}

#[test]
fn empty_framebuffer_has_no_pixels() {
    let info = ScmBufferInfo::empty();
    assert_eq!(info.width(), 0);
    assert_eq!(info.height(), 0);
    assert_eq!(info.buf_size(), 0);
}

#[test]
fn put_color_in_pixel_32_bits_stores_four_bytes() {
    let mut info = surface(4, 2, 32);
    {
        let mut buf = TextuiBuf::new(&mut info);
        buf.put_color_in_pixel(0x8912_3456, 3);
    }
    let mut expected = vec![0u8; 32];
    expected[12..16].copy_from_slice(&[0x56, 0x34, 0x12, 0x89]);
    assert_eq!(bytes(&info), expected);
}

#[test]
fn put_color_in_pixel_24_bits_stores_three_bytes() {
    let mut info = surface(4, 2, 24);
    {
        let mut buf = TextuiBuf::new(&mut info);
        buf.put_color_in_pixel(0x8912_3456, 3);
    }
    let mut expected = vec![0u8; 24];
    expected[9..12].copy_from_slice(&[0x56, 0x34, 0x12]);
    assert_eq!(bytes(&info), expected);
}

#[test]
fn put_color_in_pixel_16_bits_stores_two_bytes() {
    let mut info = surface(4, 2, 16);
    {
        let mut buf = TextuiBuf::new(&mut info);
        buf.put_color_in_pixel(0x8912_3456, 7);
    }
    let mut expected = vec![0u8; 16];
    expected[14..16].copy_from_slice(&[0x56, 0x34]);
    assert_eq!(bytes(&info), expected);
}

#[test]
fn put_color_at_stores_from_the_given_byte() {
    let mut info = surface(4, 2, 24);
    {
        let mut buf = TextuiBuf::new(&mut info);
        buf.put_color_at(0x00ab_cdef, 6);
    }
    let mut expected = vec![0u8; 24];
    expected[6..9].copy_from_slice(&[0xef, 0xcd, 0xab]);
    assert_eq!(bytes(&info), expected);
}

#[test]
fn buf_mut_gives_the_bytes_of_the_framebuffer() {
    let mut info = surface(2, 2, 16);
    {
        let mut buf = TextuiBuf::new(&mut info);
        buf.buf_mut()[5] = 0x99;
    }
    assert_eq!(info.byte(5), 0x99);
    assert_eq!(info.byte(4), 0);
}

#[test]
fn pixel_numbers_count_row_by_row() {
    let mut info = surface(24, 48, 32);
    let buf = TextuiBuf::new(&mut info);
    assert_eq!(buf.get_index_by_x_y(0, 0), 0);
    assert_eq!(buf.get_index_by_x_y(5, 3), 24 * 3 + 5);
    assert_eq!(buf.get_index_of_next_line(10), 34);
    assert_eq!(buf.get_start_index_by_lineid_lineindex(LineId::new(0), LineIndex::new(0)), 0);
    assert_eq!(
        buf.get_start_index_by_lineid_lineindex(LineId::new(2), LineIndex::new(1)),
        24 * 32 + 8
    );
}

#[test]
fn copy_takes_over_what_both_hold() {
    let mut target =
        ScmBufferInfo::new(2, 2, 16, ScmBuffer::DoubleBuffer((0u8..8).collect())).unwrap();
    let source =
        ScmBufferInfo::new(1, 2, 16, ScmBuffer::DeviceBuffer(vec![0xaa, 0xbb, 0xcc, 0xdd]))
            .unwrap();
    target.copy_from_nonoverlapping(&source);
    assert_eq!(bytes(&target), vec![0xaa, 0xbb, 0xcc, 0xdd, 4, 5, 6, 7]);
    assert_eq!(target.width(), 2);
    assert!(!target.is_device());

    let mut small =
        ScmBufferInfo::new(1, 1, 16, ScmBuffer::DoubleBuffer(vec![1, 2])).unwrap();
    small.copy_from_nonoverlapping(&target);
    assert_eq!(bytes(&small), vec![0xaa, 0xbb]);
}
