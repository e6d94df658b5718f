use vault::orchestration::sensor_passthrough::{VirtioInputSensorDispatcher, MAX_RING_BUFFER_SAMPLES};

#[derive(Debug, Clone, PartialEq)]
struct Battery {
    level_percent: u8,
    voltage_mv: u32,
    temperature_c: f32,
    is_charging: bool,
}

#[derive(Debug, Clone, PartialEq)]
struct Gps {
    latitude: f64,
    longitude: f64,
    altitude_meters: f32,
    speed_kmh: f32,
    accuracy_meters: f32,
}

#[derive(Debug, Clone, PartialEq)]
struct Sample {
    timestamp_ns: u64,
    sample_rate_hz: u32,
    accel_x: f32,
    accel_y: f32,
    accel_z: f32,
    gyro_yaw: f32,
    gyro_pitch: f32,
    gyro_roll: f32,
    pressure_hpa: f32,
    battery: Battery,
    gps: Gps,
    target_virtio_device: String,
}

#[test]
fn test_sensor_injection_at_120hz() {
    let mut dispatcher = VirtioInputSensorDispatcher::new();
    assert_eq!(dispatcher.sample_rate_hz(), 120);

    let sample = Sample {
        timestamp_ns: 1770000000000,
        sample_rate_hz: 120,
        accel_x: 0.15,
        accel_y: 9.81,
        accel_z: 0.02,
        gyro_yaw: 0.01,
        gyro_pitch: -0.04,
        gyro_roll: 0.02,
        pressure_hpa: 1013.25,
        battery: Battery { level_percent: 88, voltage_mv: 4150, temperature_c: 32.5, is_charging: false },
        gps: Gps { latitude: 19.4326, longitude: -99.1332, altitude_meters: 2240.0, speed_kmh: 0.0, accuracy_meters: 3.5 },
        target_virtio_device: "/dev/input/event2".to_string(),
    };

    dispatcher.inject_sample(sample);
    assert_eq!(dispatcher.total_injected_events(), 1);
    assert!(dispatcher.latest_sample().is_some());
}

#[test]
fn ring_buffer_keeps_the_latest_two_seconds() {
    let mut dispatcher: VirtioInputSensorDispatcher<u64> = VirtioInputSensorDispatcher::new();
    assert!(dispatcher.latest_sample().is_none());
    for i in 0..(MAX_RING_BUFFER_SAMPLES as u64 + 10) {
        dispatcher.inject_sample(i);
        assert_eq!(dispatcher.latest_sample(), Some(&i));
    }
    assert_eq!(dispatcher.total_injected_events(), MAX_RING_BUFFER_SAMPLES as u64 + 10);
}

#[test]
fn inactive_dispatcher_ignores_samples() {
    let mut dispatcher: VirtioInputSensorDispatcher<u32> = VirtioInputSensorDispatcher::new();
    assert!(dispatcher.is_active());
    dispatcher.inject_sample(1);
    dispatcher.set_active(false);
    assert!(!dispatcher.is_active());
    dispatcher.inject_sample(2);
    assert_eq!(dispatcher.total_injected_events(), 1);
    assert_eq!(dispatcher.latest_sample(), Some(&1));
}
