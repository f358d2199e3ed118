//! CSI extractor for Nexmon-patched BCM4366c0 chips.
//!
//! Nexmon CSI is encoded in UDP packets. After the Ethernet, IP and UDP
//! headers (42 bytes) a packet holds, all in little endian:
//!
//! | Offset | Field                                              |
//! |--------|----------------------------------------------------|
//! | 42     | magic bytes `0x1111`                               |
//! | 44     | RSSI, signed                                       |
//! | 45     | frame control                                      |
//! | 46     | source MAC address                                 |
//! | 52     | sequence number of the triggering Wi-Fi frame      |
//! | 54     | core and spatial stream                            |
//! | 56     | chanspec                                           |
//! | 58     | chip                                               |
//! | 60     | packed CSI values, 32 bits each                    |

use vstd::arithmetic::power2::{lemma2_to64, lemma_pow2_strictly_increases, pow2};
use vstd::bits::lemma_u64_shl_is_mul;
use vstd::prelude::*;
use vstd::slice::slice_subrange;
use vstd::std_specs::convert::{FromSpecImpl, TryFromSpecImpl};

use crate::ieee80211::Bandwidth;
use crate::params::{spec_decode, ChanSpec, ChanSpecView, ParseChanSpecError};

verus! {

/// Error returned when the chip ID does not correspond to any of
/// the [`Chip`] variants.
#[derive(Debug, Clone, Copy, PartialEq, Eq, Structural)]
pub struct UnknownChip;

impl UnknownChip {
    /// The message of the error.
    pub fn to_string(&self) -> (s: String)
        ensures
            s@ == "unknown chip"@,
    {
        "unknown chip".to_string()
    }
}

/// Different types of WiFi chips.
#[derive(Debug, Clone, Copy, PartialEq, Eq, Structural)]
pub enum Chip {
    /// Broadcom BCM4366c0, used in the Asus RT-AC86U router. This is represented
    /// by the two-byte sequence `0x006a`.
    Bcm4366c0,
}

/// The chip that an identifier stands for.
pub open spec fn spec_chip(value: u16) -> Result<Chip, UnknownChip> {
    if value == 0x006a {
        Ok(Chip::Bcm4366c0)
    } else {
        Err(UnknownChip)
    }
}

impl TryFrom<u16> for Chip {
    type Error = UnknownChip;

    /// The chip that an identifier stands for.
    fn try_from(value: u16) -> (r: Result<Self, UnknownChip>)
        ensures
            r == spec_chip(value),
    {
        if value == 106 {
            Ok(Chip::Bcm4366c0)
        } else {
            Err(UnknownChip)
        }
    }
}

impl TryFromSpecImpl<u16> for Chip {
    open spec fn obeys_try_from_spec() -> bool {
        true
    }

    open spec fn try_from_spec(value: u16) -> Result<Self, UnknownChip> {
        spec_chip(value)
    }
}

/// Error returned when parsing a CSI frame.
#[derive(Debug, Clone, Copy, PartialEq, Eq, Structural)]
pub enum Error {
    /// The given byte slice is too short.
    NotEnoughBytes,
    /// A Nexmon packet should have the magic bytes `NEXMON` at offset 6.
    NotANexmonPacket,
    /// A Nexmon packet should have the magic bytes `0x1111` at offset 42.
    MissingMagicBytes,
    /// See [`UnknownChip`].
    UnknownChip(UnknownChip),
    /// See [`crate::params::ParseChanSpecError`].
    InvalidChanSpec(ParseChanSpecError),
}

impl Error {
    /// The message of the error. The two variants that carry another
    /// error give that error's message.
    pub fn to_string(&self) -> (s: String)
        ensures
            s@ == (match *self {
                Error::NotEnoughBytes => "not enough bytes"@,
                Error::NotANexmonPacket => "not a Nexmon packet"@,
                Error::MissingMagicBytes => "missing magic bytes"@,
                Error::UnknownChip(_) => "unknown chip"@,
                Error::InvalidChanSpec(ParseChanSpecError::InvalidBandwidth) => "invalid bandwidth"@,
                Error::InvalidChanSpec(ParseChanSpecError::InvalidBand) => "invalid band"@,
            }),
    {
        match self {
            Error::NotEnoughBytes => "not enough bytes".to_string(),
            Error::NotANexmonPacket => "not a Nexmon packet".to_string(),
            Error::MissingMagicBytes => "missing magic bytes".to_string(),
            Error::UnknownChip(e) => e.to_string(),
            Error::InvalidChanSpec(e) => e.to_string(),
        }
    }
}

impl From<UnknownChip> for Error {
    /// Wraps the error of an unknown chip.
    fn from(e: UnknownChip) -> (r: Error)
        ensures
            r == Error::UnknownChip(e),
    {
        Error::UnknownChip(e)
    }
}

impl FromSpecImpl<UnknownChip> for Error {
    open spec fn obeys_from_spec() -> bool {
        true
    }

    open spec fn from_spec(e: UnknownChip) -> Error {
        Error::UnknownChip(e)
    }
}

impl From<ParseChanSpecError> for Error {
    /// Wraps the error of a chanspec.
    fn from(e: ParseChanSpecError) -> (r: Error)
        ensures
            r == Error::InvalidChanSpec(e),
    {
        Error::InvalidChanSpec(e)
    }
}

impl FromSpecImpl<ParseChanSpecError> for Error {
    open spec fn obeys_from_spec() -> bool {
        true
    }

    open spec fn from_spec(e: ParseChanSpecError) -> Error {
        Error::InvalidChanSpec(e)
    }
}

/// One CSI value: the complex number `(re + i * im) * 2^exponent`.
///
/// The chip reports a sign and a magnitude for each part, and one
/// exponent of 6 bits for both. [`unpack_complex`] keeps the three as
/// they are: mantissas from -4095 to 4095 and an exponent from -32 to 31.
/// [`unpack_complex_shift`] scales the mantissas itself and leaves the
/// exponent at 0.
#[derive(Debug, Clone, Copy, PartialEq, Eq, Structural)]
pub struct Sample {
    /// Signed mantissa of the real part.
    pub re: i32,
    /// Signed mantissa of the imaginary part.
    pub im: i32,
    /// Exponent of two that scales both parts.
    pub exponent: i8,
}

/// The exponent of a packed value: its lowest 6 bits in two's complement.
pub open spec fn spec_exponent(raw: u32) -> int {
    let e = raw as int % 64;
    if e >= 32 {
        e - 64
    } else {
        e
    }
}

/// The imaginary mantissa of a packed value: a magnitude in bits 6 to 17
/// and a sign in bit 18.
pub open spec fn spec_im(raw: u32) -> int {
    let m = (raw as int / 0x40) % 0x1000;
    if (raw as int / 0x4_0000) % 2 == 1 {
        -m
    } else {
        m
    }
}

/// The real mantissa of a packed value: a magnitude in bits 19 to 30 and
/// a sign in bit 31.
pub open spec fn spec_re(raw: u32) -> int {
    let m = (raw as int / 0x8_0000) % 0x1000;
    if raw as int / 0x8000_0000 == 1 {
        -m
    } else {
        m
    }
}

/// The CSI value that a packed 32-bit integer holds:
///
/// ```text
/// | sign(1) | re(12) | sign(1) | im(12) | exp(6) |
/// ```
pub open spec fn spec_unpack_complex(raw: u32) -> Sample {
    Sample { re: spec_re(raw) as i32, im: spec_im(raw) as i32, exponent: spec_exponent(raw) as i8 }
}

/// Unpacks a complex value from the given 32-bit integer.
pub fn unpack_complex(i: u32) -> (z: Sample)
    ensures
        z == spec_unpack_complex(i),
        z.re == spec_re(i),
        z.im == spec_im(i),
        z.exponent == spec_exponent(i),
        -4095 <= z.re <= 4095,
        -4095 <= z.im <= 4095,
        -32 <= z.exponent <= 31,
{
    let e: u32 = i & 0x3f;
    let m_re: u32 = (i >> 19) & 0xfff;
    let m_im: u32 = (i >> 6) & 0xfff;
    let s_re: bool = i & (1u32 << 31) != 0;
    let s_im: bool = i & (1u32 << 18) != 0;
    proof {
        assert(i & 0x3f == i % 64) by (bit_vector);
        assert((i >> 19) & 0xfff == (i / 0x8_0000) % 0x1000) by (bit_vector);
        assert((i >> 6) & 0xfff == (i / 0x40) % 0x1000) by (bit_vector);
        assert((i & (1u32 << 31) != 0) == (i / 0x8000_0000 == 1)) by (bit_vector);
        assert((i & (1u32 << 18) != 0) == ((i / 0x4_0000) % 2 == 1)) by (bit_vector);
    }
    let exponent: i8 = if e >= 32 {
        (e as i8) - 64
    } else {
        e as i8
    };
    let re: i32 = if s_re {
        -(m_re as i32)
    } else {
        m_re as i32
    };
    let im: i32 = if s_im {
        -(m_im as i32)
    } else {
        m_im as i32
    };
    Sample { re, im, exponent }
}

/// An integer read as 32 bits in two's complement: the integer from
/// `-2^31` to `2^31 - 1` that differs from `x` by a multiple of `2^32`.
pub open spec fn wrap_i32(x: int) -> int {
    let r = x % 0x1_0000_0000;
    if r >= 0x8000_0000 {
        r - 0x1_0000_0000
    } else {
        r
    }
}

/// The exponent of a packed value in the shift form: 42 above its lowest
/// 6 bits in two's complement, so from 10 to 73.
pub open spec fn spec_shift_exponent(raw: u32) -> int {
    spec_exponent(raw) + 42
}

/// The imaginary mantissa of a packed value in the shift form: a
/// magnitude in bits 6 to 16 and a sign in bit 17.
pub open spec fn spec_shift_im(raw: u32) -> int {
    let m = (raw as int / 0x40) % 0x800;
    if (raw as int / 0x2_0000) % 2 == 1 {
        -m
    } else {
        m
    }
}

/// The real mantissa of a packed value in the shift form: a magnitude in
/// bits 18 to 28 and a sign in bit 29.
pub open spec fn spec_shift_re(raw: u32) -> int {
    let m = (raw as int / 0x4_0000) % 0x800;
    if (raw as int / 0x2000_0000) % 2 == 1 {
        -m
    } else {
        m
    }
}

/// A mantissa shifted by an exponent, in 32 bits. A negative exponent
/// shifts to the right, which rounds down. Any other shifts to the left
/// by the exponent modulo 32, and what leaves the 32 bits is lost.
pub open spec fn spec_scale(mantissa: int, exponent: int) -> int {
    if exponent < 0 {
        mantissa / pow2((-exponent) as nat) as int
    } else {
        wrap_i32(mantissa * pow2((exponent % 32) as nat))
    }
}

/// The CSI value that a packed 32-bit integer holds in the shift form:
///
/// ```text
/// | unused(2) | sign(1) | re(11) | sign(1) | im(11) | exp(6) |
/// ```
///
/// Both parts are integers, so the exponent of the value is 0. An
/// exponent below -12 would leave nothing of a mantissa, and gives zero.
pub open spec fn spec_unpack_complex_shift(raw: u32) -> Sample {
    let e = spec_shift_exponent(raw);
    if e < -12 {
        Sample { re: 0, im: 0, exponent: 0 }
    } else {
        Sample {
            re: spec_scale(spec_shift_re(raw), e) as i32,
            im: spec_scale(spec_shift_im(raw), e) as i32,
            exponent: 0,
        }
    }
}

proof fn lemma_shl_wraps(m: i32, k: u32)
    by (bit_vector)
    requires
        -2048 < m < 2048,
        k < 32,
    ensures
        (m << k) as int == wrap_i32(m as int * (1u64 << k) as int),
{
}

proof fn lemma_shr_rounds_down(m: i32, k: u32)
    by (bit_vector)
    requires
        -2048 < m < 2048,
        0 < k <= 12,
    ensures
        (m >> k) as int == (m as int) / ((1u64 << k) as int),
{
}

proof fn lemma_one_shl_is_pow2(k: u32)
    requires
        k < 32,
    ensures
        (1u64 << k) as int == pow2(k as nat),
{
    lemma2_to64();
    lemma_pow2_strictly_increases(k as nat, 64);
    lemma_u64_shl_is_mul(1, k as u64);
    assert(1u64 << k == 1u64 << (k as u64)) by (bit_vector);
}

/// Shifts a mantissa by an exponent.
fn scale(mantissa: i32, exponent: i32) -> (r: i32)
    requires
        -2048 < mantissa < 2048,
        -12 <= exponent,
    ensures
        r == spec_scale(mantissa as int, exponent as int),
{
    if exponent < 0 {
        let k: u32 = (-exponent) as u32;
        proof {
            lemma_shr_rounds_down(mantissa, k);
            lemma_one_shl_is_pow2(k);
        }
        mantissa.wrapping_shr(k)
    } else {
        let k: u32 = exponent as u32;
        proof {
            lemma_shl_wraps(mantissa, k % 32);
            lemma_one_shl_is_pow2(k % 32);
        }
        mantissa.wrapping_shl(k)
    }
}

/// Unpacks a complex value from the given 32-bit integer in the shift
/// form, which reads mantissas of 11 bits and scales them as integers.
///
/// The vendor does not document the layout, and this reading of it does
/// not agree with [`unpack_complex`]; frames are decoded with the other.
pub fn unpack_complex_shift(i: u32) -> (z: Sample)
    ensures
        z == spec_unpack_complex_shift(i),
        z.exponent == 0,
        10 <= spec_shift_exponent(i) <= 73,
        z.re == wrap_i32(spec_shift_re(i) * pow2((spec_shift_exponent(i) % 32) as nat)),
        z.im == wrap_i32(spec_shift_im(i) * pow2((spec_shift_exponent(i) % 32) as nat)),
{
    let e: u32 = i & 0x3f;
    let m_re: u32 = (i >> 18) & 0x7ff;
    let m_im: u32 = (i >> 6) & 0x7ff;
    let s_re: bool = i & (1u32 << 29) != 0;
    let s_im: bool = i & (1u32 << 17) != 0;
    proof {
        assert(i & 0x3f == i % 64) by (bit_vector);
        assert((i >> 18) & 0x7ff == (i / 0x4_0000) % 0x800) by (bit_vector);
        assert((i >> 6) & 0x7ff == (i / 0x40) % 0x800) by (bit_vector);
        assert((i & (1u32 << 29) != 0) == ((i / 0x2000_0000) % 2 == 1)) by (bit_vector);
        assert((i & (1u32 << 17) != 0) == ((i / 0x2_0000) % 2 == 1)) by (bit_vector);
    }
    let exponent: i32 = if e >= 32 {
        (e as i32) - 64 + 42
    } else {
        (e as i32) + 42
    };
    if exponent < -12 {
        // the exponent is too small
        return Sample { re: 0, im: 0, exponent: 0 };
    }
    let re: i32 = if s_re {
        -(m_re as i32)
    } else {
        m_re as i32
    };
    let im: i32 = if s_im {
        -(m_im as i32)
    } else {
        m_im as i32
    };
    Sample { re: scale(re, exponent), im: scale(im, exponent), exponent: 0 }
}

/// The 16-bit integer whose little-endian bytes are `lo`, `hi`.
pub open spec fn le_u16(lo: u8, hi: u8) -> int {
    lo + 0x100 * hi
}

/// The 32-bit integer whose little-endian bytes start at `at`.
pub open spec fn le_u32(bytes: Seq<u8>, at: int) -> int {
    bytes[at] + 0x100 * bytes[at + 1] + 0x1_0000 * bytes[at + 2] + 0x100_0000 * bytes[at + 3]
}

/// The CSI values of a payload, in ascending order of frequency.
///
/// The chip stores the `n` bins of its FFT with the center frequency
/// first, so the value at index `i` comes from the word at index
/// `(i + n / 2) % n` of the payload.
pub open spec fn spec_unpack_csi(bandwidth: Bandwidth, bytes: Seq<u8>) -> Seq<Sample> {
    let n = bandwidth.spec_nsub_pow2();
    Seq::new(
        n as nat,
        |i: int| spec_unpack_complex(le_u32(bytes, 4 * ((i + n / 2) % n)) as u32),
    )
}

/// Reads the 16-bit integer whose little-endian bytes are `lo`, `hi`.
fn read_u16_le(lo: u8, hi: u8) -> (x: u16)
    ensures
        x == le_u16(lo, hi),
{
    (lo as u16) + 0x100 * (hi as u16)
}

/// Reads the 32-bit integer whose little-endian bytes start at `at`.
fn read_u32_le(b: &[u8], at: usize) -> (x: u32)
    requires
        at + 4 <= b@.len(),
    ensures
        x == le_u32(b@, at as int),
{
    (b[at] as u32) + 0x100 * (b[at + 1] as u32) + 0x1_0000 * (b[at + 2] as u32) + 0x100_0000 * (b[at
        + 3] as u32)
}

/// Unpacks the CSI values of the given bandwidth from the given buffer,
/// and puts them in ascending order of frequency.
///
/// The buffer must hold 4 bytes for each of the `nsub_pow2` values; what
/// follows them is not read.
pub fn unpack_csi(bandwidth: Bandwidth, b: &[u8]) -> (r: Result<Vec<Sample>, Error>)
    ensures
        b@.len() < 4 * bandwidth.spec_nsub_pow2() ==> r == Err::<Vec<Sample>, Error>(
            Error::NotEnoughBytes,
        ),
        b@.len() >= 4 * bandwidth.spec_nsub_pow2() ==> r is Ok && r->Ok_0@ == spec_unpack_csi(
            bandwidth,
            b@,
        ),
{
    let n: usize = bandwidth.nsub_pow2();
    if b.len() < n * 4 {
        return Err(Error::NotEnoughBytes);
    }
    let half: usize = n / 2;
    let mut csi: Vec<Sample> = Vec::with_capacity(n);
    let mut i: usize = 0;
    while i < n
        invariant
            0 <= i <= n,
            n == bandwidth.spec_nsub_pow2(),
            half == n / 2,
            n <= 512,
            b@.len() >= 4 * n,
            csi@.len() == i,
            forall|k: int|
                0 <= k < i ==> csi@[k] == spec_unpack_complex(
                    le_u32(b@, 4 * ((k + n / 2) % (n as int))) as u32,
                ),
        decreases n - i,
    {
        let from: usize = (i + half) % n;
        let word: u32 = read_u32_le(b, 4 * from);
        csi.push(unpack_complex(word));
        i += 1;
    }
    assert(csi@ =~= spec_unpack_csi(bandwidth, b@));
    Ok(csi)
}

/// A reported CSI frame.
#[derive(Debug, Clone)]
pub struct Frame {
    /// Received signal strength indicator (dBi).
    pub rssi: i8,
    /// Frame control byte. The BCM4366c0 always sets it to 0.
    pub frame_control: u8,
    /// Transmitter MAC address.
    pub source_mac: [u8; 6],
    /// The two byte sequence number of the Wi-Fi frame that triggered
    /// the collection of the CSI contained in this packet.
    pub seq_cnt: u16,
    /// Core number.
    pub core: u8,
    /// Spatial stream number.
    pub spatial: u8,
    /// See the documentation for [`ChanSpec`].
    pub chan_spec: ChanSpec,
    /// Chip that generated the CSI frame.
    pub chip: Chip,
    /// CSI values, in ascending order of frequency.
    pub csi: Vec<Sample>,
}

/// What a frame holds, as a plain value for contracts.
pub struct FrameView {
    /// Received signal strength indicator (dBi).
    pub rssi: i8,
    /// Frame control byte.
    pub frame_control: u8,
    /// Transmitter MAC address, 6 bytes.
    pub source_mac: Seq<u8>,
    /// Sequence number of the triggering Wi-Fi frame.
    pub seq_cnt: u16,
    /// Core number.
    pub core: u8,
    /// Spatial stream number.
    pub spatial: u8,
    /// Chanspec.
    pub chan_spec: ChanSpecView,
    /// Chip.
    pub chip: Chip,
    /// CSI values, in ascending order of frequency.
    pub csi: Seq<Sample>,
}

impl View for Frame {
    type V = FrameView;

    open spec fn view(&self) -> FrameView {
        FrameView {
            rssi: self.rssi,
            frame_control: self.frame_control,
            source_mac: self.source_mac@,
            seq_cnt: self.seq_cnt,
            core: self.core,
            spatial: self.spatial,
            chan_spec: self.chan_spec@,
            chip: self.chip,
            csi: self.csi@,
        }
    }
}

/// The bytes `NEXMON`, which a packet holds at offset 6.
pub open spec fn nexmon_magic() -> Seq<u8> {
    seq![0x4e, 0x45, 0x58, 0x4d, 0x4f, 0x4e]
}

/// A byte read as a signed integer in two's complement.
pub open spec fn spec_signed(byte: u8) -> int {
    if byte >= 0x80 {
        byte - 0x100
    } else {
        byte as int
    }
}

/// The core and spatial stream field of a packet, whose bytes are `b0`,
/// `b1`. It is read in little endian; a value above 63, the largest that
/// two 3-bit numbers make, is taken to be in big endian.
pub open spec fn spec_config(b0: u8, b1: u8) -> int {
    if le_u16(b0, b1) > 0x3f {
        le_u16(b1, b0)
    } else {
        le_u16(b0, b1)
    }
}

/// What a packet decodes to.
///
/// The checks are made in this order: the length of the header, the two
/// magic values, the chanspec, the chip and the length of the payload.
pub open spec fn spec_from_slice(b: Seq<u8>) -> Result<FrameView, Error> {
    if b.len() < 60 {
        Err(Error::NotEnoughBytes)
    } else if b.subrange(6, 12) != nexmon_magic() {
        Err(Error::NotANexmonPacket)
    } else if b[42] != 0x11 || b[43] != 0x11 {
        Err(Error::MissingMagicBytes)
    } else {
        match spec_decode(le_u16(b[56], b[57]) as u16) {
            Err(e) => Err(Error::InvalidChanSpec(e)),
            Ok(chan_spec) => match spec_chip(le_u16(b[58], b[59]) as u16) {
                Err(e) => Err(Error::UnknownChip(e)),
                Ok(chip) => if b.len() - 60 < 4 * chan_spec.bandwidth.spec_nsub_pow2() {
                    Err(Error::NotEnoughBytes)
                } else {
                    Ok(
                        FrameView {
                            rssi: spec_signed(b[44]) as i8,
                            frame_control: b[45],
                            source_mac: b.subrange(46, 52),
                            seq_cnt: le_u16(b[52], b[53]) as u16,
                            core: (spec_config(b[54], b[55]) % 8) as u8,
                            spatial: ((spec_config(b[54], b[55]) / 8) % 8) as u8,
                            chan_spec,
                            chip,
                            csi: spec_unpack_csi(chan_spec.bandwidth, b.subrange(60, b.len() as int)),
                        },
                    )
                },
            },
        }
    }
}

/// Tells whether the bytes `NEXMON` stand at offset 6.
fn has_nexmon_magic(b: &[u8]) -> (r: bool)
    requires
        b@.len() >= 12,
    ensures
        r == (b@.subrange(6, 12) == nexmon_magic()),
{
    let r = b[6] == 0x4e && b[7] == 0x45 && b[8] == 0x58 && b[9] == 0x4d && b[10] == 0x4f && b[11]
        == 0x4e;
    proof {
        let sub = b@.subrange(6, 12);
        if r {
            assert(sub =~= nexmon_magic());
        } else {
            assert(sub[0] == b@[6] && sub[1] == b@[7] && sub[2] == b@[8] && sub[3] == b@[9]
                && sub[4] == b@[10] && sub[5] == b@[11]);
        }
    }
    r
}

/// Reads a byte as a signed integer in two's complement.
fn signed(byte: u8) -> (x: i8)
    ensures
        x == spec_signed(byte),
{
    if byte >= 0x80 {
        ((byte as i16) - 0x100) as i8
    } else {
        byte as i8
    }
}

/// Reads the core and spatial stream field.
fn read_config(b0: u8, b1: u8) -> (config: u16)
    ensures
        config == spec_config(b0, b1),
{
    let config: u16 = read_u16_le(b0, b1);
    // Some versions of nexutil seem to encode the config in big endian.
    // If the config is larger than the maximum possible value, assume it's
    // big endian.
    if config > 0b111111 {
        read_u16_le(b1, b0)
    } else {
        config
    }
}

impl Frame {
    /// Whether the frame has a place in the grid of 4 cores by 4 spatial
    /// streams.
    pub open spec fn spec_fits_grid(&self) -> bool {
        self.core < 4 && self.spatial < 4
    }

    /// Tells whether the frame has a place in the grid of 4 cores by
    /// 4 spatial streams.
    #[verifier::when_used_as_spec(spec_fits_grid)]
    pub fn fits_grid(&self) -> (r: bool)
        ensures
            r == self.spec_fits_grid(),
    {
        self.core < 4 && self.spatial < 4
    }

    /// Parses a CSI frame from the given byte slice.
    pub fn from_slice(b: &[u8]) -> (r: Result<Self, Error>)
        ensures
            match r {
                Ok(frame) => spec_from_slice(b@) == Ok::<FrameView, Error>(frame@),
                Err(e) => spec_from_slice(b@) == Err::<FrameView, Error>(e),
            },
            b@.len() < 60 ==> r is Err && r->Err_0 == Error::NotEnoughBytes,
            b@.len() >= 60 && b@.subrange(6, 12) != nexmon_magic() ==> r is Err && r->Err_0
                == Error::NotANexmonPacket,
            r is Ok ==> r->Ok_0.csi@.len() == r->Ok_0.chan_spec@.bandwidth.spec_nsub_pow2(),
            r is Ok ==> r->Ok_0.core < 8 && r->Ok_0.spatial < 8,
    {
        if b.len() < 60 {
            return Err(Error::NotEnoughBytes);
        }
        if !has_nexmon_magic(b) {
            return Err(Error::NotANexmonPacket);
        }
        if b[42] != 0x11 || b[43] != 0x11 {
            return Err(Error::MissingMagicBytes);
        }
        let config: u16 = read_config(b[54], b[55]);
        proof {
            assert(config & 0b111 == config % 8) by (bit_vector);
            assert((config >> 3) & 0b111 == (config / 8) % 8) by (bit_vector);
        }
        let core: u8 = (config & 0b111) as u8;
        let spatial: u8 = ((config >> 3) & 0b111) as u8;

        let chan_spec = match ChanSpec::decode(read_u16_le(b[56], b[57])) {
            Ok(chan_spec) => chan_spec,
            Err(e) => return Err(Error::InvalidChanSpec(e)),
        };
        if read_u16_le(b[58], b[59]) != 106 {
            return Err(Error::UnknownChip(UnknownChip));
        }
        let chip = Chip::Bcm4366c0;

        let payload = slice_subrange(b, 60, b.len());
        let csi = match unpack_csi(chan_spec.bandwidth(), payload) {
            Ok(csi) => csi,
            Err(e) => return Err(e),
        };

        let source_mac: [u8; 6] = [b[46], b[47], b[48], b[49], b[50], b[51]];
        assert(source_mac@ =~= b@.subrange(46, 52));
        Ok(
            Self {
                rssi: signed(b[44]),
                frame_control: b[45],
                source_mac,
                seq_cnt: read_u16_le(b[52], b[53]),
                core,
                spatial,
                chan_spec,
                chip,
                csi,
            },
        )
    }
}

} // verus!
