use vst3_skeleton::processor::{
    bus_count, bus_info, channel_layout, has_main_buses, latency_samples, meter_side,
    process_status, BusDirection, MediaType, MeterSide, ProcessLayout,
};
use vst3_skeleton::status::ResultCode;

#[test]
fn one_stereo_bus() {
    assert_eq!(bus_count(), 1);
    assert_eq!(latency_samples(), 0);
    let b = bus_info(MediaType::Audio, 0).unwrap();
    assert_eq!(b.media_type, MediaType::Audio);
    assert_eq!(b.direction, BusDirection::Input);
    assert_eq!(b.channel_count, 2);
    assert!(b.is_main);
    assert_eq!(b.name, "Main");
    assert!(b.default_active);
    let b = bus_info(MediaType::Other(1), 0).unwrap();
    assert_eq!(b.media_type, MediaType::Other(1));
    assert_eq!(b.direction, BusDirection::Output);
    assert_eq!(bus_info(MediaType::Audio, 1).unwrap_err(), ResultCode::InvalidArgument);
    assert_eq!(bus_info(MediaType::Audio, -1).unwrap_err(), ResultCode::InvalidArgument);
}

#[test]
fn process_decisions() {
    assert_eq!(process_status(false), ResultCode::InvalidArgument);
    assert_eq!(process_status(true), ResultCode::ResultOk);
    assert!(has_main_buses(1, 1));
    assert!(!has_main_buses(0, 1));
    assert!(!has_main_buses(1, 0));
}

#[test]
fn layouts() {
    assert_eq!(
        channel_layout(true, true, 2, 1, 64),
        Some(ProcessLayout { channels: 1, frames: 64, rms_divisor: 64 })
    );
    assert_eq!(
        channel_layout(true, true, 2, 2, 0),
        Some(ProcessLayout { channels: 2, frames: 0, rms_divisor: 1 })
    );
    assert_eq!(channel_layout(false, true, 2, 2, 64), None);
    assert_eq!(channel_layout(true, false, 2, 2, 64), None);
}

#[test]
fn meter_sides() {
    assert_eq!(meter_side(0), Some(MeterSide::Left));
    assert_eq!(meter_side(1), Some(MeterSide::Right));
    assert_eq!(meter_side(2), None);
}
