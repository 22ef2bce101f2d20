use cubeb::{DeviceState, DeviceType, Layout, LogLevel, SampleFormat};

#[test]
fn sample_format_raw_values() {
    assert_eq!(SampleFormat::Signed16LittleEndian.to_raw(), 0);
    assert_eq!(SampleFormat::Signed16BigEndian.to_raw(), 1);
    assert_eq!(SampleFormat::Float32LittleEndian.to_raw(), 2);
    assert_eq!(SampleFormat::Float32BigEndian.to_raw(), 3);
    for raw in 0..4u32 {
        assert_eq!(SampleFormat::from_raw(raw).to_raw(), raw);
    }
    assert_eq!(SampleFormat::from_raw(2), SampleFormat::Float32LittleEndian);
}

#[test]
fn layout_raw_values() {
    assert_eq!(Layout::Undefined.to_raw(), 0);
    assert_eq!(Layout::Mono.to_raw(), 3);
    assert_eq!(Layout::Stereo.to_raw(), 5);
    assert_eq!(Layout::Front3Surround2LFE.to_raw(), 16);
    assert_eq!(Layout::Front3Surround4LFE.to_raw(), 18);
    for raw in 0..19u32 {
        assert_eq!(Layout::from_raw(raw).to_raw(), raw);
    }
    assert_eq!(Layout::from_raw(6), Layout::StereoLFE);
    assert_eq!(Layout::from_raw(9), Layout::Front2Surround1);
}

#[test]
fn device_state_raw_values() {
    assert_eq!(DeviceState::Disabled.to_raw(), 0);
    assert_eq!(DeviceState::Unplugged.to_raw(), 1);
    assert_eq!(DeviceState::Enabled.to_raw(), 2);
    assert_eq!(DeviceState::from_raw(1), DeviceState::Unplugged);
    for raw in 0..3u32 {
        assert_eq!(DeviceState::from_raw(raw).to_raw(), raw);
    }
}

#[test]
fn device_type_raw_values() {
    assert_eq!(DeviceType::Unknown.to_raw(), 0);
    assert_eq!(DeviceType::Input.to_raw(), 1);
    assert_eq!(DeviceType::Output.to_raw(), 2);
    assert_eq!(DeviceType::from_raw(2), DeviceType::Output);
    for raw in 0..3u32 {
        assert_eq!(DeviceType::from_raw(raw).to_raw(), raw);
    }
}

#[test]
fn log_level_raw_values() {
    assert_eq!(LogLevel::Disabled.to_raw(), 0);
    assert_eq!(LogLevel::Normal.to_raw(), 1);
    assert_eq!(LogLevel::Verbose.to_raw(), 2);
    assert_eq!(LogLevel::from_raw(0), LogLevel::Disabled);
    for raw in 0..3u32 {
        assert_eq!(LogLevel::from_raw(raw).to_raw(), raw);
    }
}

#[test]
fn enum_round_trip_from_variants() {
    let formats = [
        SampleFormat::Signed16LittleEndian,
        SampleFormat::Signed16BigEndian,
        SampleFormat::Float32LittleEndian,
        SampleFormat::Float32BigEndian,
    ];
    for f in formats {
        assert_eq!(SampleFormat::from_raw(f.to_raw()), f);
    }
    let levels = [LogLevel::Disabled, LogLevel::Normal, LogLevel::Verbose];
    for l in levels {
        assert_eq!(LogLevel::from_raw(l.to_raw()), l);
    }
}

#[test]
fn byte_order_formats() {
    assert_eq!(SampleFormat::signed_16_with_byte_order(true), SampleFormat::Signed16LittleEndian);
    assert_eq!(SampleFormat::signed_16_with_byte_order(false), SampleFormat::Signed16BigEndian);
    assert_eq!(SampleFormat::float_32_with_byte_order(true), SampleFormat::Float32LittleEndian);
    assert_eq!(SampleFormat::float_32_with_byte_order(false), SampleFormat::Float32BigEndian);
}

#[test]
fn native_endian_formats_follow_the_machine() {
    let little = u16::from_ne_bytes([1, 0]) == 1;
    let s16 = SampleFormat::signed_16_native_endian();
    let f32 = SampleFormat::float_32_native_endian();
    if little {
        assert_eq!(s16, SampleFormat::Signed16LittleEndian);
        assert_eq!(f32, SampleFormat::Float32LittleEndian);
    } else {
        assert_eq!(s16, SampleFormat::Signed16BigEndian);
        assert_eq!(f32, SampleFormat::Float32BigEndian);
    }
}

#[test]
fn layout_count_matches_variants() {
    assert_eq!(cubeb::CUBEB_LAYOUT_MAX, 19);
    assert_eq!(Layout::from_raw(cubeb::CUBEB_LAYOUT_MAX - 1), Layout::Front3Surround4LFE);
}
