//! Wire-level tests of the gimbal framing and packet builders.

use bot_controller::gimbal_framing::{GimbalFraming, GimbalPacket, PacketReceiver};
use bot_controller::gimbal_protocol::{cmd, pack, target, unpack, values};
use bot_controller::gimbal_util::encoder_sub;

#[test]
fn encode_boot_cmd01() {
    let packet = GimbalPacket {
        framing: GimbalFraming::Bootloader,
        command: 1,
        target: 0,
        data: vec![],
    };
    let mut v = Vec::new();
    packet.write_to(&mut v);
    assert_eq!(v, vec![0x55, 0xaa, 0x00, 0x01, 0x00, 0x00, 0xf0, 0xb3]);
}

#[test]
fn decode_boot_cmd01() {
    let mut recv = PacketReceiver::new();
    recv.push_bytes(&[0x12, 0x34, 0x55, 0xaa, 0x00, 0x01, 0x00, 0x00, 0xf0, 0xb3, 0x55, 0xaa]);
    assert_eq!(
        recv.next_packet(),
        Some(GimbalPacket {
            framing: GimbalFraming::Bootloader,
            command: 1,
            target: 0,
            data: vec![],
        })
    );
    assert_eq!(recv.buffer, vec![0x55, 0xaa]);
}

#[test]
fn decode_boot_cmd01_bad_crc() {
    let mut recv = PacketReceiver::new();
    recv.push_bytes(&[0x12, 0x34, 0x55, 0xaa, 0x00, 0x01, 0x00, 0x00, 0xff, 0xb3, 0x99, 0xaa]);
    assert_eq!(recv.next_packet(), None);
    assert_eq!(recv.buffer, vec![0x99, 0xaa]);
}

#[test]
fn encode_version_packet() {
    let packet = GimbalPacket {
        framing: GimbalFraming::Normal,
        command: 8,
        target: 0,
        data: vec![0x65, 0x00, 0x2c, 0x01],
    };
    let mut v = Vec::new();
    packet.write_to(&mut v);
    assert_eq!(v, vec![0xa5, 0x5a, 0x00, 0x08, 0x04, 0x65, 0x00, 0x2c, 0x01, 0x79, 0x32]);
}

#[test]
fn decode_version_packet() {
    let mut recv = PacketReceiver::new();
    recv.push_bytes(&[0xa5, 0x5a, 0x00, 0x08, 0x04, 0x65, 0x00, 0x2c, 0x01, 0x79, 0x32, 0x00, 0x00, 0x00]);
    assert_eq!(
        recv.next_packet(),
        Some(GimbalPacket {
            framing: GimbalFraming::Normal,
            command: 8,
            target: 0,
            data: vec![0x65, 0x00, 0x2c, 0x01],
        })
    );
    assert_eq!(recv.buffer, vec![0x00, 0x00, 0x00]);
}

#[test]
fn round_trip_normal_packet() {
    let packet = GimbalPacket {
        framing: GimbalFraming::Normal,
        command: cmd::SET_VALUE,
        target: target::YAW,
        data: vec![0x03, 0x00, 0x10, 0x00],
    };
    let mut wire = Vec::new();
    packet.write_to(&mut wire);
    let mut recv = PacketReceiver::new();
    recv.push_bytes(&wire);
    assert_eq!(recv.next_packet(), Some(packet));
    assert!(recv.buffer.is_empty());
}

#[test]
fn partial_packet_waits_for_more_bytes() {
    let packet = GimbalPacket {
        framing: GimbalFraming::Normal,
        command: cmd::GET_VALUE,
        target: target::PITCH,
        data: vec![values::ENCODER_ANGLE],
    };
    let mut wire = Vec::new();
    packet.write_to(&mut wire);
    let (head, tail) = wire.split_at(5);
    let mut recv = PacketReceiver::new();
    recv.push_bytes(head);
    assert_eq!(recv.next_packet(), None);
    recv.push_bytes(tail);
    assert_eq!(recv.next_packet(), Some(packet));
}

#[test]
fn pack_get_value_shape() {
    let p = pack::get_value(target::PITCH, values::ENCODER_ANGLE);
    assert_eq!(p.framing, GimbalFraming::Normal);
    assert_eq!(p.command, cmd::GET_VALUE);
    assert_eq!(p.target, target::PITCH);
    assert_eq!(p.data, vec![values::ENCODER_ANGLE]);
}

#[test]
fn pack_set_value_plain_slot() {
    let p = pack::set_value(target::YAW, values::FOLLOW_RATE, -2);
    assert_eq!(p.command, cmd::SET_VALUE);
    assert_eq!(p.target, target::YAW);
    assert_eq!(p.data, vec![values::FOLLOW_RATE, 0x00, 0xfe, 0xff]);
}

#[test]
fn pack_set_value_reroutes_accel_offsets() {
    // Writes to the accelerometer-offset slots must go out as an
    // accelerometer correction so the firmware updates its internal
    // floating-point mirror.
    let p = pack::set_value(target::IMU_ADJACENT, values::CALIBRATION_ACCEL_OFFSET_X, 0x0102);
    assert_eq!(p.command, cmd::SET_ACCEL_CORRECTION);
    assert_eq!(p.target, target::IMU_ADJACENT);
    assert_eq!(p.data, vec![0x01, 0x02, 0x01]);

    let pz = pack::set_value(target::IMU_ADJACENT, values::CALIBRATION_ACCEL_OFFSET_Z, 1);
    assert_eq!(pz.data, vec![0x00, 0x01, 0x00]);
}

#[test]
fn unpack_get_value_reads_little_endian() {
    let p = GimbalPacket {
        framing: GimbalFraming::Normal,
        command: cmd::GET_VALUE,
        target: target::HOST,
        data: vec![0xfe, 0xff],
    };
    assert_eq!(unpack::get_value(&p), Ok(-2));
}

#[test]
fn unpack_get_value_rejects_short_payload() {
    let p = GimbalPacket {
        framing: GimbalFraming::Normal,
        command: cmd::GET_VALUE,
        target: target::HOST,
        data: vec![0x01],
    };
    assert_eq!(unpack::get_value(&p), Err(unpack::UnpackError::Truncated));
}

#[test]
fn encoder_sub_wraps_on_circle() {
    assert_eq!(encoder_sub(10, 4090), 16);
    assert_eq!(encoder_sub(4090, 10), -16);
    assert_eq!(encoder_sub(100, 100), 0);
    assert_eq!(encoder_sub(2049, 0), -2047);
}
