//! Fixed-width ASCII framing of the two wire messages.
//!
//! A control message is `L R J 0 0 0`, one `'0'`/`'1'` per flag followed by
//! three padding zeros. A position message is `x` then `y`, each as three
//! zero-padded decimal digits.
use vstd::prelude::*;
use crate::physics::Controls;

verus! {

/// Length in bytes of every wire message.
pub const MESSAGE_LEN: usize = 6;

/// Why a position message could not be read.
#[derive(Clone, Copy, Debug, PartialEq, Eq, Structural)]
pub enum ParseError {
    /// The first three bytes are not all decimal digits.
    InvalidX,
    /// The first three bytes are digits, the last three are not.
    InvalidY,
}

/// The ASCII byte of one flag.
pub open spec fn flag_byte(b: bool) -> u8 {
    if b {
        0x31u8
    } else {
        0x30u8
    }
}

/// The wire form of a control snapshot.
pub open spec fn control_bytes(c: Controls) -> Seq<u8> {
    seq![flag_byte(c.left), flag_byte(c.right), flag_byte(c.jump), 0x30u8, 0x30u8, 0x30u8]
}

/// Whether byte `i` of a control message is present and reads `'1'`.
pub open spec fn flag_set(s: Seq<u8>, i: int) -> bool {
    0 <= i < s.len() && s[i] == 0x31u8
}

/// The control flags that a received message carries.
pub open spec fn controls_of(s: Seq<u8>) -> Controls {
    Controls { left: flag_set(s, 0), right: flag_set(s, 1), jump: flag_set(s, 2) }
}

/// Whether a byte is an ASCII decimal digit.
pub open spec fn is_digit(b: u8) -> bool {
    0x30u8 <= b <= 0x39u8
}

/// The ASCII digit of a value below ten.
pub open spec fn digit_byte(d: int) -> u8 {
    (d + 0x30) as u8
}

/// The three zero-padded decimal digits of a value in `0..=999`.
pub open spec fn field_bytes(v: int) -> Seq<u8> {
    seq![digit_byte(v / 100), digit_byte((v / 10) % 10), digit_byte(v % 10)]
}

/// The wire form of a position.
pub open spec fn position_bytes(x: int, y: int) -> Seq<u8> {
    field_bytes(x) + field_bytes(y)
}

/// Whether the three bytes from `off` are all digits.
pub open spec fn field_valid(s: Seq<u8>, off: int) -> bool {
    is_digit(s[off]) && is_digit(s[off + 1]) && is_digit(s[off + 2])
}

/// The decimal value of the three bytes from `off`.
pub open spec fn field_value(s: Seq<u8>, off: int) -> int {
    (s[off] - 0x30) * 100 + (s[off + 1] - 0x30) * 10 + (s[off + 2] - 0x30)
}

/// What a six-byte position message reads as.
pub open spec fn parse_position(s: Seq<u8>) -> Result<(int, int), ParseError> {
    if !field_valid(s, 0) {
        Err(ParseError::InvalidX)
    } else if !field_valid(s, 3) {
        Err(ParseError::InvalidY)
    } else {
        Ok((field_value(s, 0), field_value(s, 3)))
    }
}

fn flag(b: bool) -> (r: u8)
    ensures
        r == flag_byte(b),
{
    if b {
        0x31
    } else {
        0x30
    }
}

/// Encodes a control snapshot as `L R J 0 0 0`.
pub fn encode_control(controls: &Controls) -> (r: [u8; 6])
    ensures
        r@ == control_bytes(*controls),
{
    let r = [flag(controls.left), flag(controls.right), flag(controls.jump), 0x30, 0x30, 0x30];
    assert(r@ =~= control_bytes(*controls));
    r
}

/// Reads the three flags of a control message. A flag is set only where its
/// byte is present and is `'1'`: short, empty or malformed input reads as
/// "not set" and never fails.
pub fn decode_control(bytes: &[u8]) -> (r: Controls)
    ensures
        r == controls_of(bytes@),
{
    let n = bytes.len();
    let left = n > 0 && bytes[0] == 0x31;
    let right = n > 1 && bytes[1] == 0x31;
    let jump = n > 2 && bytes[2] == 0x31;
    Controls { left, right, jump }
}

fn digit(d: u16) -> (r: u8)
    requires
        d < 10,
    ensures
        r == digit_byte(d as int),
{
    d as u8 + 0x30
}

/// Encodes a position as two three-digit zero-padded decimal fields. Both
/// coordinates must lie in `0..=999`.
pub fn encode_position(x: i16, y: i16) -> (r: [u8; 6])
    requires
        0 <= x <= 999,
        0 <= y <= 999,
    ensures
        r@ == position_bytes(x as int, y as int),
{
    let ux = x as u16;
    let uy = y as u16;
    let r = [
        digit(ux / 100),
        digit((ux / 10) % 10),
        digit(ux % 10),
        digit(uy / 100),
        digit((uy / 10) % 10),
        digit(uy % 10),
    ];
    assert(r@ =~= position_bytes(x as int, y as int));
    r
}

fn field_is_digits(bytes: &[u8; 6], off: usize) -> (r: bool)
    requires
        off <= 3,
    ensures
        r == field_valid(bytes@, off as int),
{
    0x30 <= bytes[off] && bytes[off] <= 0x39 && 0x30 <= bytes[off + 1] && bytes[off + 1] <= 0x39
        && 0x30 <= bytes[off + 2] && bytes[off + 2] <= 0x39
}

fn field_number(bytes: &[u8; 6], off: usize) -> (r: i16)
    requires
        off <= 3,
        field_valid(bytes@, off as int),
    ensures
        r as int == field_value(bytes@, off as int),
        0 <= r <= 999,
{
    let a = (bytes[off] - 0x30) as i16;
    let b = (bytes[off + 1] - 0x30) as i16;
    let c = (bytes[off + 2] - 0x30) as i16;
    a * 100 + b * 10 + c
}

/// Reads a position message; fails when either field holds a non-digit.
pub fn decode_position(bytes: &[u8; 6]) -> (r: Result<(i16, i16), ParseError>)
    ensures
        match parse_position(bytes@) {
            Ok((x, y)) => r == Ok::<(i16, i16), ParseError>((x as i16, y as i16)),
            Err(e) => r == Err::<(i16, i16), ParseError>(e),
        },
        r is Ok ==> 0 <= r->Ok_0.0 <= 999 && 0 <= r->Ok_0.1 <= 999,
{
    if !field_is_digits(bytes, 0) {
        Err(ParseError::InvalidX)
    } else if !field_is_digits(bytes, 3) {
        Err(ParseError::InvalidY)
    } else {
        Ok((field_number(bytes, 0), field_number(bytes, 3)))
    }
}

/// Decoding an encoded position gives the position back.
pub proof fn lemma_position_round_trip(x: int, y: int)
    requires
        0 <= x <= 999,
        0 <= y <= 999,
    ensures
        parse_position(position_bytes(x, y)) == Ok::<(int, int), ParseError>((x, y)),
{
    lemma_field_round_trip(x);
    lemma_field_round_trip(y);
    let s = position_bytes(x, y);
    assert(s.subrange(0, 3) =~= field_bytes(x));
    assert(s.subrange(3, 6) =~= field_bytes(y));
    assert(s[0] == field_bytes(x)[0] && s[1] == field_bytes(x)[1] && s[2] == field_bytes(x)[2]);
    assert(s[3] == field_bytes(y)[0] && s[4] == field_bytes(y)[1] && s[5] == field_bytes(y)[2]);
}

proof fn lemma_field_round_trip(v: int)
    requires
        0 <= v <= 999,
    ensures
        field_valid(field_bytes(v), 0),
        field_value(field_bytes(v), 0) == v,
{
    let s = field_bytes(v);
    assert(0 <= v / 100 < 10) by (nonlinear_arith)
        requires
            0 <= v <= 999,
    ;
    assert(0 <= (v / 10) % 10 < 10) by (nonlinear_arith)
        requires
            0 <= v,
    ;
    assert(0 <= v % 10 < 10);
    assert(v / 100 * 100 + ((v / 10) % 10) * 10 + v % 10 == v) by (nonlinear_arith)
        requires
            0 <= v,
    ;
}

/// Decoding an encoded control snapshot gives its three flags back.
pub proof fn lemma_control_round_trip(c: Controls)
    ensures
        controls_of(control_bytes(c)) == c,
{
}

} // verus!
