use vstd::prelude::*;
use crate::codec::{
    as_signed16, bit_is_set, check_bit, imu_raw_to_signed, joystick_convert, read_u16, u16_le,
};

verus! {

/// Length of the longest report: the buffer a reader should hand in.
pub const REPORT_LENGTH: usize = 79;

/// Shortest report over a direct connection.
pub const DIRECT_MIN_LENGTH: usize = 64;

/// Shortest report over the wireless link.
pub const WIRELESS_MIN_LENGTH: usize = 79;

/// Whether `b` begins with the wireless transport header `11 C0 00`.
pub open spec fn has_wireless_header(b: Seq<u8>) -> bool {
    &&& b.len() >= 3
    &&& b[0] == 0x11u8
    &&& b[1] == 0xC0u8
    &&& b[2] == 0x00u8
}

/// Shortest buffer accepted for the given framing.
pub open spec fn min_report_len(wireless: bool) -> nat {
    if wireless {
        WIRELESS_MIN_LENGTH as nat
    } else {
        DIRECT_MIN_LENGTH as nat
    }
}

/// Distance by which the wireless framing moves every field.
pub open spec fn field_shift(wireless: bool) -> int {
    if wireless {
        2
    } else {
        0
    }
}

/// A view over one raw input report.
pub struct DS4Report<'a> {
    buffer: &'a [u8],
    bluetooth: bool,
}

/// Two stick axes, each a displacement from centre in `[-128, 127]`.
#[derive(Debug, Clone, Copy, PartialEq, Eq)]
pub struct Joystick {
    pub x: i16,
    pub y: i16,
}

/// The four direction flags of the hat switch.
#[derive(Debug, Clone, Copy, PartialEq, Eq)]
pub struct Dpad {
    pub up: bool,
    pub right: bool,
    pub down: bool,
    pub left: bool,
}

/// The directions of hat code `code`: codes 0 to 7 run clockwise from up,
/// every other code is the released position.
pub open spec fn dpad_of(code: u8) -> Dpad {
    let (up, right, down, left) = if code == 0 {
        (true, false, false, false)
    } else if code == 1 {
        (true, true, false, false)
    } else if code == 2 {
        (false, true, false, false)
    } else if code == 3 {
        (false, true, true, false)
    } else if code == 4 {
        (false, false, true, false)
    } else if code == 5 {
        (false, false, true, true)
    } else if code == 6 {
        (false, false, false, true)
    } else if code == 7 {
        (true, false, false, true)
    } else {
        (false, false, false, false)
    };
    Dpad { up, right, down, left }
}

/// The stick reading of raw bytes `x` and `y`.
pub open spec fn joystick_of(x: u8, y: u8) -> Joystick {
    Joystick { x: (x - 128) as i16, y: (y - 128) as i16 }
}

impl<'a> DS4Report<'a> {
    /// The bytes of the report.
    pub closed spec fn bytes(&self) -> Seq<u8> {
        self.buffer@
    }

    /// Whether the report uses the wireless framing.
    pub closed spec fn wireless(&self) -> bool {
        self.bluetooth
    }

    #[verifier::type_invariant]
    spec fn inv(&self) -> bool {
        &&& self.bluetooth == has_wireless_header(self.buffer@)
        &&& self.buffer@.len() >= min_report_len(self.bluetooth)
    }

    /// The byte at direct-framing offset `direct`, moved for the framing.
    pub open spec fn byte_at(&self, direct: int) -> u8 {
        self.bytes()[direct + field_shift(self.wireless())]
    }

    /// The little-endian pair at direct-framing offset `direct`, moved for the framing.
    pub open spec fn u16_at(&self, direct: int) -> int {
        u16_le(self.byte_at(direct), self.byte_at(direct + 1))
    }

    /// Binds `buffer` to the framing its first three bytes announce; `None`
    /// when it is shorter than that framing needs.
    pub fn new(buffer: &'a [u8]) -> (r: Option<DS4Report<'a>>)
        ensures
            r is Some <==> buffer@.len() >= min_report_len(has_wireless_header(buffer@)),
            r matches Some(rep) ==> rep.bytes() == buffer@ && rep.wireless()
                == has_wireless_header(buffer@),
    {
        let bluetooth = buffer.len() >= 3 && buffer[0] == 0x11 && buffer[1] == 0xc0 && buffer[2]
            == 0x00;
        let min: usize = if bluetooth {
            WIRELESS_MIN_LENGTH
        } else {
            DIRECT_MIN_LENGTH
        };
        if buffer.len() < min {
            None
        } else {
            Some(DS4Report { buffer, bluetooth })
        }
    }

    /// Whether the report came over the wireless link.
    pub fn is_bluetooth(&self) -> (r: bool)
        ensures
            r == self.wireless(),
    {
        self.bluetooth
    }

    /// Reads the byte at direct-framing offset `direct`.
    fn read_byte(&self, direct: usize) -> (r: u8)
        requires
            direct < DIRECT_MIN_LENGTH,
        ensures
            r == self.byte_at(direct as int),
    {
        proof {
            use_type_invariant(self);
        }
        let idx: usize = if self.bluetooth {
            direct + 2
        } else {
            direct
        };
        self.buffer[idx]
    }

    /// Reads the signed inertial value at direct-framing offset `direct`.
    fn read_imu(&self, direct: usize) -> (r: i16)
        requires
            direct + 1 < DIRECT_MIN_LENGTH,
        ensures
            r == as_signed16(self.u16_at(direct as int) as u16),
    {
        proof {
            use_type_invariant(self);
        }
        let idx: usize = if self.bluetooth {
            direct + 2
        } else {
            direct
        };
        imu_raw_to_signed(read_u16(self.buffer, idx))
    }

    /// Signed raw accelerometer z reading: the pair at offset 13 (direct)
    /// or 15 (wireless); one unit is 1/8192 of the physical unit.
    pub fn get_accelerometer_z_raw(&self) -> (r: i16)
        ensures
            r == as_signed16(self.u16_at(13) as u16),
    {
        self.read_imu(13)
    }

    /// Signed raw accelerometer y reading: the pair at offset 15 (direct)
    /// or 17 (wireless); one unit is 1/8192 of the physical unit.
    pub fn get_accelerometer_y_raw(&self) -> (r: i16)
        ensures
            r == as_signed16(self.u16_at(15) as u16),
    {
        self.read_imu(15)
    }

    /// Signed raw accelerometer x reading: the pair at offset 17 (direct)
    /// or 19 (wireless); one unit is 1/8192 of the physical unit.
    pub fn get_accelerometer_x_raw(&self) -> (r: i16)
        ensures
            r == as_signed16(self.u16_at(17) as u16),
    {
        self.read_imu(17)
    }

    /// Signed raw gyroscope z reading: the pair at offset 23 (direct)
    /// or 25 (wireless); one unit is 1/8192 of the physical unit.
    pub fn get_gyroscope_z_raw(&self) -> (r: i16)
        ensures
            r == as_signed16(self.u16_at(23) as u16),
    {
        self.read_imu(23)
    }

    /// Signed raw gyroscope y reading: the pair at offset 21 (direct)
    /// or 23 (wireless); one unit is 1/8192 of the physical unit.
    pub fn get_gyroscope_y_raw(&self) -> (r: i16)
        ensures
            r == as_signed16(self.u16_at(21) as u16),
    {
        self.read_imu(21)
    }

    /// Signed raw gyroscope x reading: the pair at offset 19 (direct)
    /// or 21 (wireless); one unit is 1/8192 of the physical unit.
    pub fn get_gyroscope_x_raw(&self) -> (r: i16)
        ensures
            r == as_signed16(self.u16_at(19) as u16),
    {
        self.read_imu(19)
    }

    /// Left stick: bytes 1 and 2 (direct) or 3 and 4 (wireless).
    pub fn get_left_joystick(&self) -> (r: Joystick)
        ensures
            r == joystick_of(self.byte_at(1), self.byte_at(2)),
    {
        Joystick { x: joystick_convert(self.read_byte(1)), y: joystick_convert(self.read_byte(2)) }
    }

    /// Right stick: bytes 2 and 3 (direct) or 4 and 5 (wireless); its x
    /// shares a byte with the left stick's y.
    pub fn get_right_joystick(&self) -> (r: Joystick)
        ensures
            r == joystick_of(self.byte_at(2), self.byte_at(3)),
    {
        Joystick { x: joystick_convert(self.read_byte(2)), y: joystick_convert(self.read_byte(3)) }
    }

    /// L2 trigger depth: byte 8 (direct) or 10 (wireless).
    pub fn get_l2_trigger_analog(&self) -> (r: u8)
        ensures
            r == self.byte_at(8),
    {
        self.read_byte(8)
    }

    /// R2 trigger depth: byte 9 (direct) or 11 (wireless).
    pub fn get_r2_trigger_analog(&self) -> (r: u8)
        ensures
            r == self.byte_at(9),
    {
        self.read_byte(9)
    }

    /// Button triangle: bit 7 of byte 5 (direct) or 7 (wireless).
    pub fn get_button_triangle(&self) -> (r: bool)
        ensures
            r == bit_is_set(self.byte_at(5), 7),
    {
        check_bit(self.read_byte(5), 7)
    }

    /// Button circle: bit 6 of byte 5 (direct) or 7 (wireless).
    pub fn get_button_circle(&self) -> (r: bool)
        ensures
            r == bit_is_set(self.byte_at(5), 6),
    {
        check_bit(self.read_byte(5), 6)
    }

    /// Button cross: bit 5 of byte 5 (direct) or 7 (wireless).
    pub fn get_button_cross(&self) -> (r: bool)
        ensures
            r == bit_is_set(self.byte_at(5), 5),
    {
        check_bit(self.read_byte(5), 5)
    }

    /// Button square: bit 4 of byte 5 (direct) or 7 (wireless).
    pub fn get_button_square(&self) -> (r: bool)
        ensures
            r == bit_is_set(self.byte_at(5), 4),
    {
        check_bit(self.read_byte(5), 4)
    }

    /// The hat switch: low nibble of byte 5 (direct) or 7 (wireless).
    pub fn get_button_dpad(&self) -> (r: Dpad)
        ensures
            r == dpad_of(self.byte_at(5) & 0x0fu8),
    {
        let code: u8 = self.read_byte(5) & 0x0f;
        let (up, right, down, left) = match code {
            0 => (true, false, false, false),
            1 => (true, true, false, false),
            2 => (false, true, false, false),
            3 => (false, true, true, false),
            4 => (false, false, true, false),
            5 => (false, false, true, true),
            6 => (false, false, false, true),
            7 => (true, false, false, true),
            _ => (false, false, false, false),
        };
        Dpad { up, right, down, left }
    }

    /// Button r3: bit 7 of byte 6 (direct) or 8 (wireless).
    pub fn get_button_r3(&self) -> (r: bool)
        ensures
            r == bit_is_set(self.byte_at(6), 7),
    {
        check_bit(self.read_byte(6), 7)
    }

    /// Button l3: bit 6 of byte 6 (direct) or 8 (wireless).
    pub fn get_button_l3(&self) -> (r: bool)
        ensures
            r == bit_is_set(self.byte_at(6), 6),
    {
        check_bit(self.read_byte(6), 6)
    }

    /// Button options: bit 5 of byte 6 (direct) or 8 (wireless).
    pub fn get_button_options(&self) -> (r: bool)
        ensures
            r == bit_is_set(self.byte_at(6), 5),
    {
        check_bit(self.read_byte(6), 5)
    }

    /// Button share: bit 4 of byte 6 (direct) or 8 (wireless).
    pub fn get_button_share(&self) -> (r: bool)
        ensures
            r == bit_is_set(self.byte_at(6), 4),
    {
        check_bit(self.read_byte(6), 4)
    }

    /// Button r2: bit 3 of byte 6 (direct) or 8 (wireless).
    pub fn get_button_r2(&self) -> (r: bool)
        ensures
            r == bit_is_set(self.byte_at(6), 3),
    {
        check_bit(self.read_byte(6), 3)
    }

    /// Button l2: bit 2 of byte 6 (direct) or 8 (wireless).
    pub fn get_button_l2(&self) -> (r: bool)
        ensures
            r == bit_is_set(self.byte_at(6), 2),
    {
        check_bit(self.read_byte(6), 2)
    }

    /// Button r1: bit 1 of byte 6 (direct) or 8 (wireless).
    pub fn get_button_r1(&self) -> (r: bool)
        ensures
            r == bit_is_set(self.byte_at(6), 1),
    {
        check_bit(self.read_byte(6), 1)
    }

    /// Button l1: bit 0 of byte 6 (direct) or 8 (wireless).
    pub fn get_button_l1(&self) -> (r: bool)
        ensures
            r == bit_is_set(self.byte_at(6), 0),
    {
        check_bit(self.read_byte(6), 0)
    }

    /// Button touchpad: bit 1 of byte 7 (direct) or 9 (wireless).
    pub fn get_button_touchpad(&self) -> (r: bool)
        ensures
            r == bit_is_set(self.byte_at(7), 1),
    {
        check_bit(self.read_byte(7), 1)
    }

    /// Button playstation: bit 0 of byte 7 (direct) or 9 (wireless).
    pub fn get_button_playstation(&self) -> (r: bool)
        ensures
            r == bit_is_set(self.byte_at(7), 0),
    {
        check_bit(self.read_byte(7), 0)
    }

    /// Report id: byte 0 (direct) or 2 (wireless).
    pub fn get_report_id(&self) -> (r: u8)
        ensures
            r == self.byte_at(0),
    {
        self.read_byte(0)
    }

    /// The 6-bit report counter: the upper six bits of byte 7 (direct) or 9
    /// (wireless).
    pub fn get_report_count(&self) -> (r: u8)
        ensures
            r == self.byte_at(7) / 4,
            r < 64,
    {
        let b: u8 = self.read_byte(7);
        assert(b >> 2u8 == b / 4) by (bit_vector);
        b >> 2
    }
}

/// A direct report and a wireless report that carry the same payload (the
/// wireless bytes are the direct bytes moved by two) give the same reading
/// for every byte field and every little-endian pair, the inertial axes
/// among them.
pub proof fn lemma_framing_independent(d: DS4Report, w: DS4Report)
    requires
        !d.wireless(),
        w.wireless(),
        forall|k: int| 0 <= k < DIRECT_MIN_LENGTH ==> w.bytes()[k + 2] == d.bytes()[k],
    ensures
        forall|o: int| 0 <= o < DIRECT_MIN_LENGTH ==> d.byte_at(o) == w.byte_at(o),
        forall|o: int| 0 <= o < DIRECT_MIN_LENGTH - 1 ==> d.u16_at(o) == w.u16_at(o),
        as_signed16(d.u16_at(13) as u16) == as_signed16(w.u16_at(13) as u16),
{
    assert forall|o: int| 0 <= o < DIRECT_MIN_LENGTH - 1 implies d.u16_at(o) == w.u16_at(o) by {
        assert(d.byte_at(o) == w.byte_at(o));
        assert(d.byte_at(o + 1) == w.byte_at(o + 1));
    }
}

/// Every accessor reads its field as a function of the report's bytes and
/// framing alone: two views that agree on those give the same result for
/// each field, so asking a view twice gives the same answer twice.
pub proof fn lemma_readings_determined(a: DS4Report, b: DS4Report)
    requires
        a.bytes() == b.bytes(),
        a.wireless() == b.wireless(),
    ensures
        forall|o: int| a.byte_at(o) == b.byte_at(o),
        forall|o: int| a.u16_at(o) == b.u16_at(o),
        joystick_of(a.byte_at(1), a.byte_at(2)) == joystick_of(b.byte_at(1), b.byte_at(2)),
        joystick_of(a.byte_at(2), a.byte_at(3)) == joystick_of(b.byte_at(2), b.byte_at(3)),
        dpad_of(a.byte_at(5) & 0x0fu8) == dpad_of(b.byte_at(5) & 0x0fu8),
        forall|o: int, bit: u8| bit_is_set(a.byte_at(o), bit) == bit_is_set(b.byte_at(o), bit),
{
}

} // verus!
