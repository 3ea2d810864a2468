//! Tests for the orientation path: the fusion filter running beside the
//! library, fed and recorded through the service's bit-pattern interface.

use madgwick::{F32x3, Marg};
use phoenix::codec::{decode_message, encode_message};
use phoenix::data_manager::DataManager;
use phoenix::madgwick_service::{MadgwickService, BOOTSTRAP_UPDATES};
use phoenix::messages::{
    Data, FormattedTime, Imu, Message, Quat, Sensor, SensorData, Vec3,
};

fn stamp() -> FormattedTime {
    FormattedTime { year: 2024, month: 3, day: 4, hour: 5, minute: 6, second: 7 }
}

fn vec3_to_f32x3(v: Vec3) -> F32x3 {
    F32x3 { x: f32::from_bits(v.x), y: f32::from_bits(v.y), z: f32::from_bits(v.z) }
}

fn quat_bits(q: madgwick::Quaternion) -> Quat {
    Quat { w: q.0.to_bits(), x: q.1.to_bits(), y: q.2.to_bits(), z: q.3.to_bits() }
}

/// Runs the bootstrap the way the filter loop does: several synthetic
/// at-rest updates, then the converged estimate is recorded.
fn bootstrap(service: &mut MadgwickService, filter: &mut Marg) {
    let accel = vec3_to_f32x3(MadgwickService::bootstrap_accel());
    let gyro = vec3_to_f32x3(MadgwickService::bootstrap_gyro());
    let mag = vec3_to_f32x3(MadgwickService::bootstrap_mag());
    let mut quat = madgwick::Quaternion(1.0, 0.0, 0.0, 0.0);
    for _ in 0..BOOTSTRAP_UPDATES {
        quat = filter.update(mag, gyro, accel);
    }
    service.bootstrap_done(quat_bits(quat));
}

fn new_service_and_filter(beta: f32, period: f32) -> (MadgwickService, Marg) {
    let mut service = MadgwickService::new_with_params(beta.to_bits(), period.to_bits());
    let mut filter = Marg::new(
        f32::from_bits(service.get_beta()),
        f32::from_bits(service.get_sample_period()),
    );
    bootstrap(&mut service, &mut filter);
    (service, filter)
}

#[test]
fn test_madgwick_initialization() {
    let mut service = MadgwickService::new();
    assert!(service.needs_init);
    let mut filter = Marg::new(
        f32::from_bits(service.get_beta()),
        f32::from_bits(service.get_sample_period()),
    );
    bootstrap(&mut service, &mut filter);
    let q = service.get_quaternion();
    let (w, x, y, z) = (
        f32::from_bits(q.w),
        f32::from_bits(q.x),
        f32::from_bits(q.y),
        f32::from_bits(q.z),
    );
    assert!(w > 0.9, "Expected w to be close to 1.0, got {}", w);
    assert!(x.abs() < 0.1, "Expected x to be close to 0.0, got {}", x);
    assert!(y.abs() < 0.1, "Expected y to be close to 0.0, got {}", y);
    assert!(z.abs() < 0.1, "Expected z to be close to 0.0, got {}", z);
}

#[test]
fn test_custom_parameters() {
    let (service, _filter) = new_service_and_filter(0.05, 0.02);
    let q = service.get_quaternion();
    let (w, x, y, z) = (
        f32::from_bits(q.w),
        f32::from_bits(q.x),
        f32::from_bits(q.y),
        f32::from_bits(q.z),
    );
    assert!(w > 0.9, "Expected w to be close to 1.0, got {}", w);
    assert!(x.abs() < 0.1, "Expected x to be close to 0.0, got {}", x);
    assert!(y.abs() < 0.1, "Expected y to be close to 0.0, got {}", y);
    assert!(z.abs() < 0.1, "Expected z to be close to 0.0, got {}", z);
}

#[test]
fn test_continuous_updates() {
    let (service, mut filter) = new_service_and_filter(0.1, 0.01);
    let q1 = service.get_quaternion();
    let (w1, x1, y1, z1) = (
        f32::from_bits(q1.w),
        f32::from_bits(q1.x),
        f32::from_bits(q1.y),
        f32::from_bits(q1.z),
    );
    let mag = vec3_to_f32x3(MadgwickService::bootstrap_mag());
    for _ in 0..10 {
        filter.update(
            mag,
            F32x3 { x: 0.0, y: 0.0, z: 0.1 },
            F32x3 { x: 0.0, y: 1.0, z: 0.0 },
        );
    }
    let latest_update = filter.update(
        mag,
        F32x3 { x: 0.0, y: 0.0, z: 0.0 },
        F32x3 { x: 0.0, y: 1.0, z: 0.0 },
    );
    assert!(
        (w1 != latest_update.0) || (x1 != latest_update.1) || (y1 != latest_update.2)
            || (z1 != latest_update.3),
        "Quaternion should change after processing gyroscope data"
    );
}

#[test]
fn output_quaternion_keeps_unit_norm() {
    // For a spread of (accel, gyro) pairs and any number of updates, the
    // estimate stays a unit quaternion within floating-point tolerance.
    // The host build's inverse square root is undefined at zero, so the
    // filter is fed the reference heading rather than the zero vector.
    let (_service, mut filter) = new_service_and_filter(0.1, 0.01);
    let mag = vec3_to_f32x3(MadgwickService::bootstrap_mag());
    let cases = [
        ([0.0f32, 0.0, 1.0], [0.0f32, 0.0, 0.0]),
        ([0.0, 1.0, 0.0], [0.0, 0.0, 0.1]),
        ([1.0, 0.0, 0.0], [0.5, -0.25, 0.1]),
        ([0.3, -0.4, 0.86], [-1.0, 2.0, -3.0]),
        ([-0.5, 0.5, -0.7], [0.01, 0.02, 0.03]),
    ];
    for (accel, gyro) in cases {
        for _ in 0..40 {
            let q = filter.update(
                mag,
                F32x3 { x: gyro[0], y: gyro[1], z: gyro[2] },
                F32x3 { x: accel[0], y: accel[1], z: accel[2] },
            );
            let norm = (q.0 * q.0 + q.1 * q.1 + q.2 * q.2 + q.3 * q.3).sqrt();
            assert!(
                (norm - 1.0).abs() < 1e-3,
                "norm {} drifted from unity for accel {:?} gyro {:?}",
                norm,
                accel,
                gyro
            );
        }
    }
}

#[test]
fn bootstrap_converges_near_identity() {
    // Five at-rest readings leave every component within 0.1 of the
    // identity quaternion.
    let (service, _filter) = new_service_and_filter(0.1, 0.01);
    let q = service.get_quaternion();
    assert!((f32::from_bits(q.w) - 1.0).abs() < 0.1);
    assert!((f32::from_bits(q.x) - 0.0).abs() < 0.1);
    assert!((f32::from_bits(q.y) - 0.0).abs() < 0.1);
    assert!((f32::from_bits(q.z) - 0.0).abs() < 0.1);
}

fn imu_frame(accel: [f32; 3], gyro: [f32; 3], time_stamp: u32) -> Vec<u8> {
    let msg = Message::new(
        stamp(),
        4,
        Data::Sensor(Sensor::new(SensorData::Imu(Imu {
            time_stamp,
            status: 0x30,
            accelerometers: Some(Vec3 {
                x: accel[0].to_bits(),
                y: accel[1].to_bits(),
                z: accel[2].to_bits(),
            }),
            gyroscopes: Some(Vec3 {
                x: gyro[0].to_bits(),
                y: gyro[1].to_bits(),
                z: gyro[2].to_bits(),
            }),
            temperature: None,
            delta_velocity: None,
            delta_angle: None,
        }))),
    );
    let mut buf: Vec<u8> = Vec::new();
    encode_message(&mut buf, msg);
    buf
}

#[test]
fn end_to_end_imu_frames_move_the_stored_estimate() {
    // Bootstrap, then ten real inertial frames over the CAN path: the
    // stored orientation envelope must differ from the bootstrap estimate
    // in at least one component.
    let (mut service, mut filter) = new_service_and_filter(0.1, 0.01);
    let bootstrap_quat = service.get_quaternion();
    let mut dm = DataManager::new();
    for i in 0..10u32 {
        let frame = imu_frame([0.0, 1.0, 0.0], [0.0, 0.0, 0.1], 1000 + i);
        let (msg, _) = decode_message(&frame, 0).expect("the injected frame decodes");
        if let Some((accel, gyro, _ts)) = MadgwickService::imu_update_inputs(&msg) {
            // A reference heading instead of the heading-free zero vector:
            // the host build's inverse square root is undefined at zero.
            let q = filter.update(
                vec3_to_f32x3(MadgwickService::bootstrap_mag()),
                vec3_to_f32x3(gyro),
                vec3_to_f32x3(accel),
            );
            if let Some(result) = service.process_imu_data(&msg, quat_bits(q)) {
                dm.store_madgwick_result(result);
            }
        }
    }
    let stored = dm.madgwick_quat.expect("ten inertial frames produce an estimate");
    let quat = match stored.data {
        Data::Sensor(sensor) => match sensor.data {
            SensorData::EkfQuat(e) => e.quaternion.expect("the estimate is present"),
            _ => panic!("the stored envelope is an orientation sample"),
        },
        _ => panic!("the stored envelope is a sensor envelope"),
    };
    assert_ne!(quat, bootstrap_quat, "the estimate must move off the bootstrap value");
    // The envelope carries the source sample's device timestamp.
    assert_eq!(service.get_quaternion(), quat);
}

#[test]
fn non_imu_envelopes_feed_nothing() {
    let msg = Message::new(
        stamp(),
        4,
        Data::State(phoenix::messages::State::new(phoenix::messages::StateData::Ascent)),
    );
    assert_eq!(MadgwickService::imu_update_inputs(&msg), None);
    let mut service = MadgwickService::new();
    let before = service.get_quaternion();
    let out = service.process_imu_data(&msg, Quat { w: 1, x: 2, y: 3, z: 4 });
    assert!(out.is_none());
    assert_eq!(service.get_quaternion(), before);
}

#[test]
fn imu_without_valid_axes_feeds_nothing() {
    let msg = Message::new(
        stamp(),
        4,
        Data::Sensor(Sensor::new(SensorData::Imu(Imu {
            time_stamp: 5,
            status: 0x10,
            accelerometers: Some(Vec3 { x: 0, y: 0, z: 0x3f800000 }),
            gyroscopes: None,
            temperature: None,
            delta_velocity: None,
            delta_angle: None,
        }))),
    );
    assert_eq!(MadgwickService::imu_update_inputs(&msg), None);
}

#[test]
fn parameter_change_calls_for_rebootstrap() {
    let (mut service, _filter) = new_service_and_filter(0.1, 0.01);
    assert!(!service.needs_init);
    service.set_beta(0.2f32.to_bits());
    assert!(service.needs_init);
    assert_eq!(f32::from_bits(service.get_beta()), 0.2);
    let mut filter = Marg::new(
        f32::from_bits(service.get_beta()),
        f32::from_bits(service.get_sample_period()),
    );
    bootstrap(&mut service, &mut filter);
    assert!(!service.needs_init);
    service.set_sample_period(0.005f32.to_bits());
    assert!(service.needs_init);
    assert_eq!(f32::from_bits(service.get_sample_period()), 0.005);
}
