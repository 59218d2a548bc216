use pathtracing::math::{Ext2, Scalar, Vec3};
use pathtracing::uniform::{
    words_to_bytes, wrap_millis, CameraDescriptor, SystemData, CAMERA_RECORD_SIZE,
    SYSTEM_RECORD_SIZE, TIME_WRAP_MILLIS,
};

fn scalar(value: f32) -> Scalar {
    Scalar(value.to_bits())
}

fn read(bytes: &[u8], word: usize) -> f32 {
    f32::from_le_bytes([
        bytes[4 * word],
        bytes[4 * word + 1],
        bytes[4 * word + 2],
        bytes[4 * word + 3],
    ])
}

#[test]
fn a_word_is_written_least_significant_byte_first() {
    assert_eq!(words_to_bytes(&vec![0x0403_0201]), vec![1, 2, 3, 4]);
    assert_eq!(words_to_bytes(&vec![0xffee_ddcc, 1]), vec![0xcc, 0xdd, 0xee, 0xff, 1, 0, 0, 0]);
    assert_eq!(words_to_bytes(&vec![]), Vec::<u8>::new());
}

#[test]
fn words_are_written_as_the_machine_format_of_the_gpu_has_them() {
    let words = vec![0u32, 1, 0x8000_0000, u32::MAX, 0x1234_5678];
    let mut expected = Vec::new();
    for word in &words {
        expected.extend_from_slice(&word.to_le_bytes());
    }
    assert_eq!(words_to_bytes(&words), expected);
}

#[test]
fn the_camera_record_has_four_rows_of_a_vector_and_a_scalar() {
    let camera = CameraDescriptor {
        location: Vec3::new(scalar(-3.2), scalar(2.8), scalar(0.3)),
        at: Vec3::new(scalar(-2.4), scalar(2.4), scalar(-0.1)),
        dir: Vec3::new(scalar(0.5), scalar(-0.25), scalar(0.75)),
        right: Vec3::new(scalar(1.0), scalar(0.0), scalar(-1.0)),
        up: Vec3::new(scalar(0.125), scalar(8.0), scalar(16.0)),
        projection_extent: Ext2::new(scalar(1.333), scalar(1.0)),
        near: scalar(1.5),
    };
    let bytes = camera.record_bytes();
    assert_eq!(bytes.len(), CAMERA_RECORD_SIZE);
    assert_eq!(bytes.len(), 64);
    let expected: [f32; 16] = [
        -3.2, 2.8, 0.3, 0.0, 0.5, -0.25, 0.75, 1.5, 1.0, 0.0, -1.0, 1.333, 0.125, 8.0, 16.0, 1.0,
    ];
    for (word, value) in expected.iter().enumerate() {
        assert_eq!(read(&bytes, word).to_bits(), value.to_bits());
    }
    assert_eq!(&bytes[12..16], &[0, 0, 0, 0]);
}

#[test]
fn the_camera_record_in_bytes() {
    let camera = CameraDescriptor {
        location: Vec3::new(Scalar(0x0101_0101), Scalar(0x0202_0202), Scalar(0x0303_0303)),
        at: Vec3::new(Scalar(0xaaaa_aaaa), Scalar(0xbbbb_bbbb), Scalar(0xcccc_cccc)),
        dir: Vec3::new(Scalar(0x0404_0404), Scalar(0x0505_0505), Scalar(0x0606_0606)),
        right: Vec3::new(Scalar(0x0808_0808), Scalar(0x0909_0909), Scalar(0x0a0a_0a0a)),
        up: Vec3::new(Scalar(0x0c0c_0c0c), Scalar(0x0d0d_0d0d), Scalar(0x0e0e_0e0e)),
        projection_extent: Ext2::new(Scalar(0x0b0b_0b0b), Scalar(0x0f0f_0f0f)),
        near: Scalar(0x0707_0707),
    };
    let mut expected = Vec::new();
    for row in [1u8, 2, 3, 0, 4, 5, 6, 7, 8, 9, 10, 11, 12, 13, 14, 15] {
        expected.extend_from_slice(&[row; 4]);
    }
    assert_eq!(camera.record_bytes(), expected);
    assert_eq!(
        camera.words(),
        vec![
            0x0101_0101,
            0x0202_0202,
            0x0303_0303,
            0,
            0x0404_0404,
            0x0505_0505,
            0x0606_0606,
            0x0707_0707,
            0x0808_0808,
            0x0909_0909,
            0x0a0a_0a0a,
            0x0b0b_0b0b,
            0x0c0c_0c0c,
            0x0d0d_0d0d,
            0x0e0e_0e0e,
            0x0f0f_0f0f,
        ]
    );
}

#[test]
fn the_look_at_point_is_not_in_the_camera_record() {
    let camera = CameraDescriptor {
        location: Vec3::new(Scalar(1), Scalar(2), Scalar(3)),
        at: Vec3::new(Scalar(4), Scalar(5), Scalar(6)),
        dir: Vec3::new(Scalar(7), Scalar(8), Scalar(9)),
        right: Vec3::new(Scalar(10), Scalar(11), Scalar(12)),
        up: Vec3::new(Scalar(13), Scalar(14), Scalar(15)),
        projection_extent: Ext2::new(Scalar(16), Scalar(17)),
        near: Scalar(18),
    };
    let elsewhere = CameraDescriptor {
        at: Vec3::new(Scalar(400), Scalar(500), Scalar(600)),
        ..camera
    };
    assert_eq!(camera.record_bytes(), elsewhere.record_bytes());
}

#[test]
fn the_system_record_is_resolution_time_counter_texel_size() {
    let system = SystemData {
        resolution: Ext2::new(scalar(800.0), scalar(600.0)),
        time: scalar(12.5),
        static_frame_index: 0x0a0b_0c0d,
        texel_size: Ext2::new(scalar(1.0 / 800.0), scalar(1.0 / 600.0)),
    };
    let bytes = system.record_bytes();
    assert_eq!(bytes.len(), SYSTEM_RECORD_SIZE);
    assert_eq!(bytes.len(), 24);
    assert_eq!(read(&bytes, 0), 800.0);
    assert_eq!(read(&bytes, 1), 600.0);
    assert_eq!(read(&bytes, 2), 12.5);
    assert_eq!(&bytes[12..16], &[0x0d, 0x0c, 0x0b, 0x0a]);
    assert_eq!(read(&bytes, 4), 1.0 / 800.0);
    assert_eq!(read(&bytes, 5), 1.0 / 600.0);
    assert_eq!(
        system.words(),
        vec![
            800.0f32.to_bits(),
            600.0f32.to_bits(),
            12.5f32.to_bits(),
            0x0a0b_0c0d,
            (1.0f32 / 800.0).to_bits(),
            (1.0f32 / 600.0).to_bits(),
        ]
    );
}

#[test]
fn the_time_wraps_at_two_to_the_24th_milliseconds() {
    assert_eq!(TIME_WRAP_MILLIS, 16_777_216);
    assert_eq!(wrap_millis(0), 0);
    assert_eq!(wrap_millis(1), 1);
    assert_eq!(wrap_millis(16_777_215), 16_777_215);
    assert_eq!(wrap_millis(16_777_216), 0);
    assert_eq!(wrap_millis(16_777_217), 1);
    assert_eq!(wrap_millis(1_700_000_000_000) as u128, 1_700_000_000_000u128 % 16_777_216);
    assert_eq!(wrap_millis(1_700_000_000_000), 15_034_368);
    assert_eq!(wrap_millis(u128::MAX), 16_777_215);
}

#[test]
fn a_wrapped_time_is_exact_in_single_precision() {
    for millis in [0u128, 1, 999, 16_777_215, 1_700_000_000_123] {
        let wrapped = wrap_millis(millis);
        assert_eq!(wrapped as f32 as u32, wrapped);
    }
}
