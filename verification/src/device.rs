//! HID report buffers and their wire encodings.
//!
//! Each report kind is a plain struct of fixed-width integer fields; its
//! wire form is a fixed-length byte sequence in declared field order, with
//! 16-bit fields little-endian and signed 8-bit fields in two's complement.

use vstd::prelude::*;

verus! {

/// The byte a signed 8-bit field occupies on the wire: two's complement.
pub open spec fn byte_of_i8(x: i8) -> u8 {
    if x >= 0 {
        x as u8
    } else {
        (x + 256) as u8
    }
}

/// A report buffer that serializes to the fixed-length byte layout its
/// device class expects.
pub trait DeviceBuffer: Sized {
    /// True when every field of the report holds zero (the idle report).
    spec fn is_zero(&self) -> bool;

    /// The exact bytes this report occupies on the wire.
    spec fn encoding(&self) -> Seq<u8>;

    /// A report with all fields zero: no key pressed, no movement.
    fn new() -> (r: Self)
        ensures
            r.is_zero(),
    ;

    /// Serialize the report to its wire bytes.
    fn to_vec(&self) -> (v: Vec<u8>)
        ensures
            v@ == self.encoding(),
    ;
}

/// A keyboard input report: 8 wire bytes.
#[verifier::ext_equal]
#[derive(Clone, Copy, Debug, PartialEq, Eq)]
pub struct KeyboardBuf {
    /// Modifier-key bitmap.
    pub modifier: u8,
    /// Reserved byte.
    pub reserved: u8,
    /// Key codes of the regular keys pressed; zero marks an empty slot.
    pub keys: [u8; 6],
}

impl DeviceBuffer for KeyboardBuf {
    open spec fn is_zero(&self) -> bool {
        &&& self.modifier == 0
        &&& self.reserved == 0
        &&& forall|i: int| 0 <= i < 6 ==> self.keys@[i] == 0
    }

    open spec fn encoding(&self) -> Seq<u8> {
        seq![self.modifier, self.reserved] + self.keys@
    }

    fn new() -> (r: Self) {
        KeyboardBuf { modifier: 0, reserved: 0, keys: [0, 0, 0, 0, 0, 0] }
    }

    fn to_vec(&self) -> (v: Vec<u8>) {
        let mut v: Vec<u8> = Vec::new();
        v.push(self.modifier);
        v.push(self.reserved);
        let mut i: usize = 0;
        while i < 6
            invariant
                i <= 6,
                v@ =~= seq![self.modifier, self.reserved] + self.keys@.take(i as int),
            decreases 6 - i,
        {
            v.push(self.keys[i]);
            i = i + 1;
        }
        proof {
            assert(self.keys@.take(6) =~= self.keys@);
        }
        v
    }
}

/// The first (low) byte of a 16-bit field in little-endian order.
pub open spec fn le_low(x: u16) -> u8 {
    (x % 256) as u8
}

/// The second (high) byte of a 16-bit field in little-endian order.
pub open spec fn le_high(x: u16) -> u8 {
    (x / 256) as u8
}

/// The wire byte for a signed 8-bit field.
fn i8_wire_byte(x: i8) -> (b: u8)
    ensures
        b == byte_of_i8(x),
{
    if x >= 0 {
        x as u8
    } else {
        ((x as i16) + 256) as u8
    }
}

/// A relative-mouse input report: 5 wire bytes.
#[verifier::ext_equal]
#[derive(Clone, Copy, Debug, PartialEq, Eq)]
pub struct RelaMouseBuf {
    /// Button bitmap.
    pub button_status: u8,
    /// Change in the X coordinate.
    pub x_movement: i8,
    /// Change in the Y coordinate.
    pub y_movement: i8,
    /// Change of the vertical wheel.
    pub v_wheel: i8,
    /// Change of the horizontal wheel.
    pub h_wheel: i8,
}

impl DeviceBuffer for RelaMouseBuf {
    open spec fn is_zero(&self) -> bool {
        &&& self.button_status == 0
        &&& self.x_movement == 0
        &&& self.y_movement == 0
        &&& self.v_wheel == 0
        &&& self.h_wheel == 0
    }

    open spec fn encoding(&self) -> Seq<u8> {
        seq![
            self.button_status,
            byte_of_i8(self.x_movement),
            byte_of_i8(self.y_movement),
            byte_of_i8(self.v_wheel),
            byte_of_i8(self.h_wheel),
        ]
    }

    fn new() -> (r: Self) {
        RelaMouseBuf { button_status: 0, x_movement: 0, y_movement: 0, v_wheel: 0, h_wheel: 0 }
    }

    fn to_vec(&self) -> (v: Vec<u8>) {
        let mut v: Vec<u8> = Vec::new();
        v.push(self.button_status);
        v.push(i8_wire_byte(self.x_movement));
        v.push(i8_wire_byte(self.y_movement));
        v.push(i8_wire_byte(self.v_wheel));
        v.push(i8_wire_byte(self.h_wheel));
        proof {
            assert(v@ =~= self.encoding());
        }
        v
    }
}

/// An absolute-mouse input report: 7 wire bytes, positions little-endian.
#[verifier::ext_equal]
#[derive(Clone, Copy, Debug, PartialEq, Eq)]
pub struct AbslMouseBuf {
    /// Button bitmap.
    pub button_status: u8,
    /// Absolute X position.
    pub x_position: u16,
    /// Absolute Y position.
    pub y_position: u16,
    /// Change of the vertical wheel.
    pub v_wheel: i8,
    /// Change of the horizontal wheel.
    pub h_wheel: i8,
}

impl DeviceBuffer for AbslMouseBuf {
    open spec fn is_zero(&self) -> bool {
        &&& self.button_status == 0
        &&& self.x_position == 0
        &&& self.y_position == 0
        &&& self.v_wheel == 0
        &&& self.h_wheel == 0
    }

    open spec fn encoding(&self) -> Seq<u8> {
        seq![
            self.button_status,
            le_low(self.x_position),
            le_high(self.x_position),
            le_low(self.y_position),
            le_high(self.y_position),
            byte_of_i8(self.v_wheel),
            byte_of_i8(self.h_wheel),
        ]
    }

    fn new() -> (r: Self) {
        AbslMouseBuf { button_status: 0, x_position: 0, y_position: 0, v_wheel: 0, h_wheel: 0 }
    }

    fn to_vec(&self) -> (v: Vec<u8>) {
        let mut v: Vec<u8> = Vec::new();
        v.push(self.button_status);
        v.push((self.x_position % 256) as u8);
        v.push((self.x_position / 256) as u8);
        v.push((self.y_position % 256) as u8);
        v.push((self.y_position / 256) as u8);
        v.push(i8_wire_byte(self.v_wheel));
        v.push(i8_wire_byte(self.h_wheel));
        proof {
            assert(v@ =~= self.encoding());
        }
        v
    }
}

/// The device class whose sink an encoded report is written to.
#[derive(Clone, Copy, Debug, PartialEq, Eq, Structural)]
pub enum SinkClass {
    Keyboard,
    RelaMouse,
    AbslMouse,
}

/// A report of any of the three device classes, tagged by its kind.
#[verifier::ext_equal]
#[derive(Clone, Copy, Debug, PartialEq, Eq)]
pub enum HIDBuffer {
    Keyboard(KeyboardBuf),
    RelaMouse(RelaMouseBuf),
    AbslMouse(AbslMouseBuf),
}

impl HIDBuffer {
    /// The sink a report routes to, by its tag.
    pub open spec fn spec_sink_class(&self) -> SinkClass {
        match self {
            HIDBuffer::Keyboard(_) => SinkClass::Keyboard,
            HIDBuffer::RelaMouse(_) => SinkClass::RelaMouse,
            HIDBuffer::AbslMouse(_) => SinkClass::AbslMouse,
        }
    }

    /// Route the report: pick the device class matching its tag.
    pub fn sink_class(&self) -> (c: SinkClass)
        ensures
            c == self.spec_sink_class(),
    {
        match self {
            HIDBuffer::Keyboard(_) => SinkClass::Keyboard,
            HIDBuffer::RelaMouse(_) => SinkClass::RelaMouse,
            HIDBuffer::AbslMouse(_) => SinkClass::AbslMouse,
        }
    }
}

impl DeviceBuffer for HIDBuffer {
    /// The zero report of the union is the zero keyboard report, the
    /// default variant.
    open spec fn is_zero(&self) -> bool {
        match self {
            HIDBuffer::Keyboard(b) => b.is_zero(),
            HIDBuffer::RelaMouse(_) => false,
            HIDBuffer::AbslMouse(_) => false,
        }
    }

    open spec fn encoding(&self) -> Seq<u8> {
        match self {
            HIDBuffer::Keyboard(b) => b.encoding(),
            HIDBuffer::RelaMouse(b) => b.encoding(),
            HIDBuffer::AbslMouse(b) => b.encoding(),
        }
    }

    fn new() -> (r: Self) {
        HIDBuffer::Keyboard(KeyboardBuf::new())
    }

    fn to_vec(&self) -> (v: Vec<u8>) {
        match self {
            HIDBuffer::Keyboard(b) => b.to_vec(),
            HIDBuffer::RelaMouse(b) => b.to_vec(),
            HIDBuffer::AbslMouse(b) => b.to_vec(),
        }
    }
}

/// Recover the signed 8-bit field a wire byte stands for.
fn wire_byte_to_i8(b: u8) -> (x: i8)
    ensures
        byte_of_i8(x) == b,
{
    if b < 128 {
        b as i8
    } else {
        ((b as i16) - 256) as i8
    }
}

/// Assemble a 16-bit value from its two little-endian wire bytes.
fn u16_from_le(lo: u8, hi: u8) -> (x: u16)
    ensures
        le_low(x) == lo,
        le_high(x) == hi,
{
    let x: u16 = (lo as u16) + (hi as u16) * 256;
    proof {
        vstd::arithmetic::div_mod::lemma_fundamental_div_mod_converse(
            x as int,
            256,
            hi as int,
            lo as int,
        );
    }
    x
}

/// Rebuild a keyboard report from its 8 wire bytes.
pub fn decode_keyboard(v: &Vec<u8>) -> (r: KeyboardBuf)
    requires
        v@.len() == 8,
    ensures
        r.encoding() == v@,
{
    let r = KeyboardBuf {
        modifier: v[0],
        reserved: v[1],
        keys: [v[2], v[3], v[4], v[5], v[6], v[7]],
    };
    proof {
        assert(r.encoding() =~= v@);
    }
    r
}

/// Rebuild a relative-mouse report from its 5 wire bytes.
pub fn decode_rela_mouse(v: &Vec<u8>) -> (r: RelaMouseBuf)
    requires
        v@.len() == 5,
    ensures
        r.encoding() == v@,
{
    let r = RelaMouseBuf {
        button_status: v[0],
        x_movement: wire_byte_to_i8(v[1]),
        y_movement: wire_byte_to_i8(v[2]),
        v_wheel: wire_byte_to_i8(v[3]),
        h_wheel: wire_byte_to_i8(v[4]),
    };
    proof {
        assert(r.encoding() =~= v@);
    }
    r
}

/// Rebuild an absolute-mouse report from its 7 wire bytes.
pub fn decode_absl_mouse(v: &Vec<u8>) -> (r: AbslMouseBuf)
    requires
        v@.len() == 7,
    ensures
        r.encoding() == v@,
{
    let r = AbslMouseBuf {
        button_status: v[0],
        x_position: u16_from_le(v[1], v[2]),
        y_position: u16_from_le(v[3], v[4]),
        v_wheel: wire_byte_to_i8(v[5]),
        h_wheel: wire_byte_to_i8(v[6]),
    };
    proof {
        assert(r.encoding() =~= v@);
    }
    r
}

/// A keyboard report encodes to exactly 8 bytes: the modifier bitmap, the
/// reserved byte, then the six key slots in their given order.
pub proof fn lemma_keyboard_layout(k: KeyboardBuf)
    ensures
        k.encoding().len() == 8,
        k.encoding()[0] == k.modifier,
        k.encoding()[1] == k.reserved,
        forall|i: int| 0 <= i < 6 ==> k.encoding()[2 + i] == k.keys@[i],
{
}

/// A relative-mouse report encodes to exactly 5 bytes, in field order:
/// buttons, then the four signed deltas as two's-complement bytes.
pub proof fn lemma_rela_mouse_layout(m: RelaMouseBuf)
    ensures
        m.encoding().len() == 5,
        m.encoding()[0] == m.button_status,
        m.encoding()[1] == byte_of_i8(m.x_movement),
        m.encoding()[2] == byte_of_i8(m.y_movement),
        m.encoding()[3] == byte_of_i8(m.v_wheel),
        m.encoding()[4] == byte_of_i8(m.h_wheel),
{
}

/// An absolute-mouse report encodes to exactly 7 bytes, with the X and Y
/// positions as little-endian 16-bit pairs: the low byte first, and the
/// pair recomposing to the original position.
pub proof fn lemma_absl_mouse_layout(m: AbslMouseBuf)
    ensures
        m.encoding().len() == 7,
        m.encoding()[0] == m.button_status,
        m.encoding()[1] == le_low(m.x_position),
        m.encoding()[2] == le_high(m.x_position),
        m.encoding()[1] + 256 * m.encoding()[2] == m.x_position,
        m.encoding()[3] == le_low(m.y_position),
        m.encoding()[4] == le_high(m.y_position),
        m.encoding()[3] + 256 * m.encoding()[4] == m.y_position,
        m.encoding()[5] == byte_of_i8(m.v_wheel),
        m.encoding()[6] == byte_of_i8(m.h_wheel),
{
    vstd::arithmetic::div_mod::lemma_fundamental_div_mod(m.x_position as int, 256);
    vstd::arithmetic::div_mod::lemma_fundamental_div_mod(m.y_position as int, 256);
}

/// Round trip for keyboard reports: the wire bytes determine every field,
/// so decoding an encoding gives back the original report exactly.
pub proof fn lemma_keyboard_encoding_injective(a: KeyboardBuf, b: KeyboardBuf)
    requires
        a.encoding() == b.encoding(),
    ensures
        a == b,
{
    assert forall|i: int| 0 <= i < 6 implies a.keys@[i] == b.keys@[i] by {
        assert(a.keys@[i] == a.encoding()[2 + i]);
        assert(b.keys@[i] == b.encoding()[2 + i]);
    }
    assert(a.keys =~= b.keys);
    assert(a.encoding()[0] == a.modifier && b.encoding()[0] == b.modifier);
    assert(a.encoding()[1] == a.reserved && b.encoding()[1] == b.reserved);
    assert(a =~= b);
}

/// The two's-complement wire byte determines the signed field.
pub proof fn lemma_byte_of_i8_injective(a: i8, b: i8)
    requires
        byte_of_i8(a) == byte_of_i8(b),
    ensures
        a == b,
{
}

/// A little-endian byte pair determines the 16-bit value.
pub proof fn lemma_le_bytes_injective(a: u16, b: u16)
    requires
        le_low(a) == le_low(b),
        le_high(a) == le_high(b),
    ensures
        a == b,
{
    vstd::arithmetic::div_mod::lemma_fundamental_div_mod(a as int, 256);
    vstd::arithmetic::div_mod::lemma_fundamental_div_mod(b as int, 256);
}

/// Round trip for relative-mouse reports: the wire bytes determine every
/// field, so decoding an encoding gives back the original report exactly.
pub proof fn lemma_rela_mouse_encoding_injective(a: RelaMouseBuf, b: RelaMouseBuf)
    requires
        a.encoding() == b.encoding(),
    ensures
        a == b,
{
    assert(a.encoding()[0] == b.encoding()[0]);
    lemma_byte_of_i8_injective(a.x_movement, b.x_movement);
    lemma_byte_of_i8_injective(a.y_movement, b.y_movement);
    lemma_byte_of_i8_injective(a.v_wheel, b.v_wheel);
    lemma_byte_of_i8_injective(a.h_wheel, b.h_wheel);
}

/// Round trip for absolute-mouse reports: the wire bytes determine every
/// field, so decoding an encoding gives back the original report exactly.
pub proof fn lemma_absl_mouse_encoding_injective(a: AbslMouseBuf, b: AbslMouseBuf)
    requires
        a.encoding() == b.encoding(),
    ensures
        a == b,
{
    assert(a.encoding()[0] == b.encoding()[0]);
    lemma_le_bytes_injective(a.x_position, b.x_position);
    lemma_le_bytes_injective(a.y_position, b.y_position);
    lemma_byte_of_i8_injective(a.v_wheel, b.v_wheel);
    lemma_byte_of_i8_injective(a.h_wheel, b.h_wheel);
}

/// Round trip for the tagged union: the three encodings have distinct
/// lengths, so the wire bytes determine the tag and the report alike.
pub proof fn lemma_hid_encoding_injective(a: HIDBuffer, b: HIDBuffer)
    requires
        a.encoding() == b.encoding(),
    ensures
        a == b,
{
    match a {
        HIDBuffer::Keyboard(x) => {
            match b {
                HIDBuffer::Keyboard(y) => {
                    lemma_keyboard_encoding_injective(x, y);
                    assert(a =~= b);
                },
                HIDBuffer::RelaMouse(y) => {
                    assert(x.encoding().len() == 8);
                    assert(y.encoding().len() == 5);
                },
                HIDBuffer::AbslMouse(y) => {
                    assert(x.encoding().len() == 8);
                    assert(y.encoding().len() == 7);
                },
            }
        },
        HIDBuffer::RelaMouse(x) => {
            match b {
                HIDBuffer::Keyboard(y) => {
                    assert(x.encoding().len() == 5);
                    assert(y.encoding().len() == 8);
                },
                HIDBuffer::RelaMouse(y) => {
                    lemma_rela_mouse_encoding_injective(x, y);
                    assert(a =~= b);
                },
                HIDBuffer::AbslMouse(y) => {
                    assert(x.encoding().len() == 5);
                    assert(y.encoding().len() == 7);
                },
            }
        },
        HIDBuffer::AbslMouse(x) => {
            match b {
                HIDBuffer::Keyboard(y) => {
                    assert(x.encoding().len() == 7);
                    assert(y.encoding().len() == 8);
                },
                HIDBuffer::RelaMouse(y) => {
                    assert(x.encoding().len() == 7);
                    assert(y.encoding().len() == 5);
                },
                HIDBuffer::AbslMouse(y) => {
                    lemma_absl_mouse_encoding_injective(x, y);
                    assert(a =~= b);
                },
            }
        },
    }
}

} // verus!
