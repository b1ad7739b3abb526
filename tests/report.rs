use ds4::codec::{check_bit, imu_raw_to_signed, joystick_convert, read_u16};
use ds4::discovery::{find_ds4, DS4_VENDOR_ID};
use ds4::report::{DS4Report, Dpad, Joystick, REPORT_LENGTH};

fn direct(len: usize) -> Vec<u8> {
    vec![0u8; len]
}

fn wireless(len: usize) -> Vec<u8> {
    let mut b = vec![0u8; len];
    if len >= 3 {
        b[0] = 0x11;
        b[1] = 0xC0;
        b[2] = 0x00;
    }
    b
}

#[test]
fn direct_lengths() {
    for len in 0..64 {
        assert!(DS4Report::new(&direct(len)).is_none(), "length {}", len);
    }
    for len in [64usize, 65, 79, 200] {
        let b = direct(len);
        let r = DS4Report::new(&b).expect("long enough");
        assert!(!r.is_bluetooth());
    }
}

#[test]
fn wireless_lengths() {
    for len in 3..79 {
        assert!(DS4Report::new(&wireless(len)).is_none(), "length {}", len);
    }
    for len in [79usize, 80, 128] {
        let b = wireless(len);
        let r = DS4Report::new(&b).expect("long enough");
        assert!(r.is_bluetooth());
    }
}

#[test]
fn partial_header_is_direct() {
    let mut b = direct(64);
    b[0] = 0x11;
    b[1] = 0xC0;
    b[2] = 0x01;
    assert!(!DS4Report::new(&b).unwrap().is_bluetooth());
}

#[test]
fn axis_rebias() {
    assert_eq!(joystick_convert(0), -128);
    assert_eq!(joystick_convert(128), 0);
    assert_eq!(joystick_convert(255), 127);
}

#[test]
fn imu_sign() {
    assert_eq!(imu_raw_to_signed(0xFFFF), -1);
    assert_eq!(imu_raw_to_signed(0x0000), 0);
    assert_eq!(imu_raw_to_signed(0x8000), -32768);
    assert_eq!(imu_raw_to_signed(0x7FFF), 32767);
    assert_eq!(imu_raw_to_signed(0xFFFF) as f32 / 8192.0, -1.0 / 8192.0);
}

#[test]
fn little_endian_pair() {
    let b = [0x00u8, 0x34, 0x12];
    assert_eq!(read_u16(&b, 1), 0x1234);
}

#[test]
fn bit_test() {
    assert!(check_bit(0b1000_0000, 7));
    assert!(!check_bit(0b1000_0000, 6));
    assert!(check_bit(0b0000_0001, 0));
}

fn dpad_for(code: u8) -> Dpad {
    let mut b = direct(64);
    b[5] = 0xF0 | code;
    DS4Report::new(&b).unwrap().get_button_dpad()
}

#[test]
fn dpad_codes() {
    assert_eq!(dpad_for(0b0000), Dpad { up: true, right: false, down: false, left: false });
    assert_eq!(dpad_for(0b0011), Dpad { up: false, right: true, down: true, left: false });
    assert_eq!(dpad_for(0b0111), Dpad { up: true, right: false, down: false, left: true });
    for code in 0b1000..=0b1111u8 {
        assert_eq!(dpad_for(code), Dpad { up: false, right: false, down: false, left: false });
    }
}

fn payload() -> Vec<u8> {
    let mut p = vec![0u8; 64];
    for (i, v) in p.iter_mut().enumerate() {
        *v = (i as u8).wrapping_mul(37).wrapping_add(5);
    }
    p[0] = 0x01;
    p
}

#[test]
fn same_payload_both_framings() {
    let d = payload();
    let mut w = wireless(79);
    w[2..66].copy_from_slice(&d);
    w[2] = 0x00;
    let mut d2 = d.clone();
    d2[0] = 0x00;
    let rd = DS4Report::new(&d2).unwrap();
    let rw = DS4Report::new(&w).unwrap();
    assert!(!rd.is_bluetooth());
    assert!(rw.is_bluetooth());
    assert_eq!(rd.get_accelerometer_z_raw(), rw.get_accelerometer_z_raw());
    assert_eq!(rd.get_gyroscope_x_raw(), rw.get_gyroscope_x_raw());
    assert_eq!(rd.get_left_joystick(), rw.get_left_joystick());
    assert_eq!(rd.get_right_joystick(), rw.get_right_joystick());
    assert_eq!(rd.get_button_dpad(), rw.get_button_dpad());
    assert_eq!(rd.get_report_count(), rw.get_report_count());
}

#[test]
fn accelerometer_offsets() {
    let mut d = direct(64);
    d[13] = 0xFF;
    d[14] = 0xFF;
    assert_eq!(DS4Report::new(&d).unwrap().get_accelerometer_z_raw(), -1);
    let mut w = wireless(79);
    w[15] = 0x00;
    w[16] = 0x20;
    assert_eq!(DS4Report::new(&w).unwrap().get_accelerometer_z_raw(), 0x2000);
}

#[test]
fn inertial_axes() {
    let mut d = direct(64);
    for (i, off) in [13usize, 15, 17, 19, 21, 23].iter().enumerate() {
        d[*off] = i as u8 + 1;
    }
    let r = DS4Report::new(&d).unwrap();
    assert_eq!(r.get_accelerometer_z_raw(), 1);
    assert_eq!(r.get_accelerometer_y_raw(), 2);
    assert_eq!(r.get_accelerometer_x_raw(), 3);
    assert_eq!(r.get_gyroscope_x_raw(), 4);
    assert_eq!(r.get_gyroscope_y_raw(), 5);
    assert_eq!(r.get_gyroscope_z_raw(), 6);
}

#[test]
fn accessors_idempotent() {
    let p = payload();
    let r = DS4Report::new(&p).unwrap();
    assert_eq!(r.get_left_joystick(), r.get_left_joystick());
    assert_eq!(r.get_button_dpad(), r.get_button_dpad());
    assert_eq!(r.get_report_count(), r.get_report_count());
    assert_eq!(r.get_accelerometer_x_raw(), r.get_accelerometer_x_raw());
    assert_eq!(r.get_button_l1(), r.get_button_l1());
}

#[test]
fn report_count() {
    let mut d = direct(64);
    d[7] = 0xFD;
    let r = DS4Report::new(&d).unwrap();
    assert_eq!(r.get_report_count(), 63);
    assert!(!r.get_button_touchpad());
    assert!(r.get_button_playstation());
    let mut w = wireless(79);
    w[9] = 0xFD;
    assert_eq!(DS4Report::new(&w).unwrap().get_report_count(), 63);
}

#[test]
fn sticks_share_middle_byte() {
    let mut d = direct(64);
    d[1] = 0;
    d[2] = 200;
    d[3] = 255;
    let r = DS4Report::new(&d).unwrap();
    assert_eq!(r.get_left_joystick(), Joystick { x: -128, y: 72 });
    assert_eq!(r.get_right_joystick(), Joystick { x: 72, y: 127 });
}

#[test]
fn triggers_and_id() {
    let mut w = wireless(79);
    w[10] = 7;
    w[11] = 250;
    let r = DS4Report::new(&w).unwrap();
    assert!(r.is_bluetooth());
    assert_eq!(r.get_report_id(), 0x00);
    assert_eq!(r.get_l2_trigger_analog(), 7);
    assert_eq!(r.get_r2_trigger_analog(), 250);
    let mut d = direct(64);
    d[0] = 0x01;
    d[8] = 9;
    d[9] = 10;
    let r = DS4Report::new(&d).unwrap();
    assert_eq!(r.get_report_id(), 0x01);
    assert_eq!(r.get_l2_trigger_analog(), 9);
    assert_eq!(r.get_r2_trigger_analog(), 10);
}

#[test]
fn shape_and_shoulder_buttons() {
    let mut w = wireless(79);
    w[7] = 0b1010_1000;
    w[8] = 0b1010_0101;
    let r = DS4Report::new(&w).unwrap();
    assert!(r.get_button_triangle());
    assert!(!r.get_button_circle());
    assert!(r.get_button_cross());
    assert!(!r.get_button_square());
    assert!(r.get_button_r3());
    assert!(!r.get_button_l3());
    assert!(r.get_button_options());
    assert!(!r.get_button_share());
    assert!(!r.get_button_r2());
    assert!(r.get_button_l2());
    assert!(!r.get_button_r1());
    assert!(r.get_button_l1());
}

#[test]
fn find_first_controller() {
    assert_eq!(find_ds4(&[]), None);
    assert_eq!(find_ds4(&[1, 2, 3]), None);
    assert_eq!(find_ds4(&[1, DS4_VENDOR_ID, 5, DS4_VENDOR_ID]), Some(1));
    assert_eq!(REPORT_LENGTH, 79);
}
