//! The acceleration sample, its wire forms, and the noise filter.

use vstd::prelude::*;

verus! {

/// Size in bytes of one sample record: three little-endian 16-bit values.
pub const SAMPLE_SIZE: usize = 6;

/// Smallest change on an axis, in raw units, that a sample must show to be delivered.
pub const FILTER_THRESHOLD: i32 = 50;

/// One acceleration sample: X, Y and Z as signed 16-bit raw values.
#[derive(Clone, Copy, Debug, PartialEq, Eq, Structural)]
pub struct Adxl345Sample {
    pub x: i16,
    pub y: i16,
    pub z: i16,
}

/// `v` taken modulo 2^16 and read as a two's-complement 16-bit value.
pub open spec fn wrap_i16(v: int) -> int {
    let m = v % 65536;
    if m >= 32768 { m - 65536 } else { m }
}

/// The signed 16-bit value of the little-endian byte pair `lo`, `hi`.
pub open spec fn le_i16(lo: u8, hi: u8) -> int {
    wrap_i16(hi as int * 256 + lo as int)
}

/// An axis as the device reports it: the little-endian pair shifted left by
/// two bits, which puts the full-resolution value on the whole 16-bit range.
pub open spec fn axis_spec(lo: u8, hi: u8) -> int {
    wrap_i16((hi as int * 256 + lo as int) * 4)
}

/// The low byte of `v` in two's complement.
pub open spec fn lo_byte(v: i16) -> u8 {
    ((v as int + 65536) % 256) as u8
}

/// The high byte of `v` in two's complement.
pub open spec fn hi_byte(v: i16) -> u8 {
    (((v as int + 65536) % 65536) / 256) as u8
}

/// The six bytes of a sample record: X, Y, Z, each low byte first.
pub open spec fn record_bytes(s: Adxl345Sample) -> Seq<u8> {
    seq![lo_byte(s.x), hi_byte(s.x), lo_byte(s.y), hi_byte(s.y), lo_byte(s.z), hi_byte(s.z)]
}

/// Whether `s` moved by more than the threshold on some axis from `last`.
pub open spec fn exceeds_threshold(last: Adxl345Sample, s: Adxl345Sample) -> bool {
    ||| abs_diff(s.x, last.x) > FILTER_THRESHOLD
    ||| abs_diff(s.y, last.y) > FILTER_THRESHOLD
    ||| abs_diff(s.z, last.z) > FILTER_THRESHOLD
}

/// The distance between two raw values.
pub open spec fn abs_diff(a: i16, b: i16) -> int {
    if a >= b { a - b } else { b - a }
}

/// The signed 16-bit value of a two's-complement bit pattern held in `0..65536`.
fn to_i16(m: u32) -> (r: i16)
    requires
        m < 65536,
    ensures
        r as int == wrap_i16(m as int),
{
    if m >= 32768 {
        (m as i32 - 65536) as i16
    } else {
        m as i16
    }
}

/// The bit pattern of `v` in `0..65536`.
fn to_u16_pattern(v: i16) -> (r: u32)
    ensures
        r as int == (v as int + 65536) % 65536,
{
    if v < 0 {
        (v as i32 + 65536) as u32
    } else {
        v as u32
    }
}

impl Adxl345Sample {
    /// The sample with the three values given.
    pub fn new(x: i16, y: i16, z: i16) -> (r: Adxl345Sample)
        ensures
            r == (Adxl345Sample { x, y, z }),
    {
        Adxl345Sample { x, y, z }
    }

    /// The zero sample, which the filter starts from.
    pub fn zero() -> (r: Adxl345Sample)
        ensures
            r == (Adxl345Sample { x: 0, y: 0, z: 0 }),
    {
        Adxl345Sample { x: 0, y: 0, z: 0 }
    }

    /// Decodes the six data registers as the device fills them: three
    /// little-endian pairs, X then Y then Z, each shifted left by two bits.
    pub fn from_register_bytes(data: &Vec<u8>) -> (r: Adxl345Sample)
        requires
            data@.len() == SAMPLE_SIZE,
        ensures
            r.x as int == axis_spec(data@[0], data@[1]),
            r.y as int == axis_spec(data@[2], data@[3]),
            r.z as int == axis_spec(data@[4], data@[5]),
    {
        let x = Self::axis(data[0], data[1]);
        let y = Self::axis(data[2], data[3]);
        let z = Self::axis(data[4], data[5]);
        Adxl345Sample { x, y, z }
    }

    fn axis(lo: u8, hi: u8) -> (r: i16)
        ensures
            r as int == axis_spec(lo, hi),
    {
        let raw: u32 = hi as u32 * 256 + lo as u32;
        to_i16((raw * 4) % 65536)
    }

    /// The record of this sample as a reader of the node receives it.
    pub fn to_bytes(&self) -> (r: Vec<u8>)
        ensures
            r@ == record_bytes(*self),
    {
        let mut r: Vec<u8> = Vec::new();
        Self::push_le(&mut r, self.x);
        Self::push_le(&mut r, self.y);
        Self::push_le(&mut r, self.z);
        assert(r@ =~= record_bytes(*self));
        r
    }

    fn push_le(out: &mut Vec<u8>, v: i16)
        ensures
            final(out)@ == old(out)@.push(lo_byte(v)).push(hi_byte(v)),
    {
        let p = to_u16_pattern(v);
        out.push((p % 256) as u8);
        out.push((p / 256) as u8);
    }

    /// The sample that a six-byte record holds, as [`Adxl345Sample::to_bytes`] writes it.
    pub fn from_record(data: &Vec<u8>, at: usize) -> (r: Adxl345Sample)
        requires
            at + SAMPLE_SIZE <= data@.len(),
        ensures
            r.x as int == le_i16(data@[at as int], data@[at + 1]),
            r.y as int == le_i16(data@[at + 2], data@[at + 3]),
            r.z as int == le_i16(data@[at + 4], data@[at + 5]),
    {
        let len = data.len();
        assert(at + 6 <= len);
        let x = to_i16(data[at + 1] as u32 * 256 + data[at] as u32);
        let y = to_i16(data[at + 3] as u32 * 256 + data[at + 2] as u32);
        let z = to_i16(data[at + 5] as u32 * 256 + data[at + 4] as u32);
        Adxl345Sample { x, y, z }
    }
}

/// The record bytes of each sample in `records`, one after another.
pub open spec fn stream_bytes(records: Seq<Adxl345Sample>) -> Seq<u8>
    decreases records.len(),
{
    if records.len() == 0 {
        seq![]
    } else {
        stream_bytes(records.drop_last()) + record_bytes(records.last())
    }
}

/// Splits a stream read from the node into its samples; a trailing partial
/// record is left out.
pub fn decode_records(data: &Vec<u8>) -> (r: Vec<Adxl345Sample>)
    ensures
        r@.len() == data@.len() / 6,
        forall|i: int| #![trigger r@[i]] 0 <= i < r@.len() ==> {
            &&& r@[i].x as int == le_i16(data@[6 * i], data@[6 * i + 1])
            &&& r@[i].y as int == le_i16(data@[6 * i + 2], data@[6 * i + 3])
            &&& r@[i].z as int == le_i16(data@[6 * i + 4], data@[6 * i + 5])
        },
{
    let len = data.len();
    let n = len / SAMPLE_SIZE;
    let mut r: Vec<Adxl345Sample> = Vec::new();
    let mut i: usize = 0;
    while i < n
        invariant
            len == data@.len(),
            n == data@.len() / 6,
            i <= n,
            r@.len() == i,
            forall|k: int| #![trigger r@[k]] 0 <= k < i ==> {
                &&& r@[k].x as int == le_i16(data@[6 * k], data@[6 * k + 1])
                &&& r@[k].y as int == le_i16(data@[6 * k + 2], data@[6 * k + 3])
                &&& r@[k].z as int == le_i16(data@[6 * k + 4], data@[6 * k + 5])
            },
        decreases n - i,
    {
        assert(6 * i + 6 <= data@.len()) by (nonlinear_arith)
            requires
                i < n,
                n == data@.len() / 6,
        ;
        assert(i * 6 == 6 * i);
        let s = Adxl345Sample::from_record(data, i * SAMPLE_SIZE);
        r.push(s);
        i = i + 1;
    }
    r
}

/// The process-wide reference for the noise filter: the sample seen last.
pub struct FilterBaseline {
    pub last: Adxl345Sample,
}

impl FilterBaseline {
    /// A baseline at the zero sample.
    pub fn new() -> (r: FilterBaseline)
        ensures
            r.last == Adxl345Sample::zero_spec(),
    {
        FilterBaseline { last: Adxl345Sample::zero() }
    }

    /// Puts the baseline back to the zero sample, as every open does.
    pub fn reset(&mut self)
        ensures
            final(self).last == Adxl345Sample::zero_spec(),
    {
        self.last = Adxl345Sample::zero();
    }

    /// Whether `s` is noise and must be dropped: it is within the threshold
    /// of the sample seen before it on every axis. Either way `s` becomes the
    /// baseline, so a slow drift is compared step by step, never to the last
    /// sample delivered.
    pub fn filter_out(&mut self, s: &Adxl345Sample) -> (r: bool)
        ensures
            r == !exceeds_threshold(old(self).last, *s),
            final(self).last == *s,
    {
        let last = self.last;
        self.last = *s;
        let dx: i32 = s.x as i32 - last.x as i32;
        let dy: i32 = s.y as i32 - last.y as i32;
        let dz: i32 = s.z as i32 - last.z as i32;
        if dx > FILTER_THRESHOLD || -dx > FILTER_THRESHOLD {
            return false;
        }
        if dy > FILTER_THRESHOLD || -dy > FILTER_THRESHOLD {
            return false;
        }
        if dz > FILTER_THRESHOLD || -dz > FILTER_THRESHOLD {
            return false;
        }
        true
    }
}

impl Adxl345Sample {
    /// The zero sample.
    pub open spec fn zero_spec() -> Adxl345Sample {
        Adxl345Sample { x: 0, y: 0, z: 0 }
    }
}

} // verus!
