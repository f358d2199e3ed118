//! CSI collection parameters passed to the firmware.

use vstd::prelude::*;
use vstd::std_specs::convert::{FromSpecImpl, TryFromSpec, TryFromSpecImpl};

use crate::ieee80211::{Band, Bandwidth};

verus! {

/// Legal center channels of the 40 MHz channels, in ascending order.
pub const CENTERS_40MHZ: [u8; 12] = [38, 46, 54, 62, 102, 110, 118, 126, 134, 142, 151, 159];

/// Legal center channels of the 80 MHz channels, in ascending order.
pub const CENTERS_80MHZ: [u8; 6] = [42, 58, 106, 122, 138, 155];

/// Legal center channels of the 160 MHz channels, in ascending order.
pub const CENTERS_160MHZ: [u8; 2] = [50, 114];

/// The legal center channels of a bandwidth, in ascending order. A 20 MHz
/// channel is its own center, so it has no table.
pub open spec fn centers(bw: Bandwidth) -> Seq<u8> {
    match bw {
        Bandwidth::Bw20 => Seq::empty(),
        Bandwidth::Bw40 => CENTERS_40MHZ@,
        Bandwidth::Bw80 => CENTERS_80MHZ@,
        Bandwidth::Bw160 => CENTERS_160MHZ@,
    }
}

/// How many channel numbers the lowest 20 MHz channel of a wide channel
/// lies below the center: `(mhz - 20) / 10`.
pub open spec fn lowest_offset(bw: Bandwidth) -> int {
    (bw.spec_mhz() - 20) / 10
}

/// Whether the control channel `ctl_ch` is one of the 20 MHz channels of
/// the wide channel centered at `center`: it lies a multiple of 4 above
/// the lowest one, and fewer than `mhz / 20` steps above it.
pub open spec fn center_matches(center: u8, ctl_ch: u8, bw: Bandwidth) -> bool {
    let lowest = center - lowest_offset(bw);
    &&& ctl_ch >= lowest
    &&& (ctl_ch - lowest) % 4 == 0
    &&& (ctl_ch - lowest) / 4 < bw.spec_mhz() / 20
}

/// The index of the control channel among the 20 MHz channels of the wide
/// channel centered at `center`.
pub open spec fn sideband_of(center: u8, ctl_ch: u8, bw: Bandwidth) -> int {
    (ctl_ch - (center - lowest_offset(bw))) / 4
}

/// Whether `i` is the first index of the table of `bw` whose center
/// matches the control channel.
pub open spec fn is_first_match(bw: Bandwidth, ctl_ch: u8, i: int) -> bool {
    &&& 0 <= i < centers(bw).len()
    &&& center_matches(centers(bw)[i], ctl_ch, bw)
    &&& forall|j: int| 0 <= j < i ==> !center_matches(#[trigger] centers(bw)[j], ctl_ch, bw)
}

/// Whether `r` is the center and sideband of the control channel `ctl_ch`
/// at bandwidth `bw`: for 20 MHz the channel itself with sideband 0, else
/// the first matching center of the table, or `None` where none matches.
pub open spec fn is_bands(ctl_ch: u8, bw: Bandwidth, r: Option<(u8, u8)>) -> bool {
    if bw == Bandwidth::Bw20 {
        r == Some((ctl_ch, 0u8))
    } else {
        match r {
            Some((center, sideband)) => exists|i: int|
                {
                    &&& #[trigger] is_first_match(bw, ctl_ch, i)
                    &&& center == centers(bw)[i]
                    &&& sideband == sideband_of(center, ctl_ch, bw)
                },
            None => forall|i: int|
                0 <= i < centers(bw).len() ==> !center_matches(
                    #[trigger] centers(bw)[i],
                    ctl_ch,
                    bw,
                ),
        }
    }
}

/// A control channel has one center and one sideband at a bandwidth, or
/// none: [`is_bands`] holds of a single result.
pub proof fn lemma_bands_unique(
    ctl_ch: u8,
    bw: Bandwidth,
    r1: Option<(u8, u8)>,
    r2: Option<(u8, u8)>,
)
    requires
        is_bands(ctl_ch, bw, r1),
        is_bands(ctl_ch, bw, r2),
    ensures
        r1 == r2,
{
    if bw != Bandwidth::Bw20 {
        match (r1, r2) {
            (Some((c1, s1)), Some((c2, s2))) => {
                let i = choose|i: int|
                    #[trigger] is_first_match(bw, ctl_ch, i) && c1 == centers(bw)[i] && s1
                        == sideband_of(c1, ctl_ch, bw);
                let j = choose|j: int|
                    #[trigger] is_first_match(bw, ctl_ch, j) && c2 == centers(bw)[j] && s2
                        == sideband_of(c2, ctl_ch, bw);
                if i < j {
                    assert(!center_matches(centers(bw)[i], ctl_ch, bw));
                } else if j < i {
                    assert(!center_matches(centers(bw)[j], ctl_ch, bw));
                }
            },
            (Some((c1, s1)), None) => {
                let i = choose|i: int|
                    #[trigger] is_first_match(bw, ctl_ch, i) && c1 == centers(bw)[i] && s1
                        == sideband_of(c1, ctl_ch, bw);
                assert(!center_matches(centers(bw)[i], ctl_ch, bw));
            },
            (None, Some((c2, s2))) => {
                let j = choose|j: int|
                    #[trigger] is_first_match(bw, ctl_ch, j) && c2 == centers(bw)[j] && s2
                        == sideband_of(c2, ctl_ch, bw);
                assert(!center_matches(centers(bw)[j], ctl_ch, bw));
            },
            (None, None) => {},
        }
    }
}

/// Tests one candidate center against the control channel and returns the
/// sideband index where it matches.
fn sideband_at(center: u8, ctl_ch: u8, bw: Bandwidth) -> (r: Option<u8>)
    requires
        center >= lowest_offset(bw),
    ensures
        r is Some <==> center_matches(center, ctl_ch, bw),
        r is Some ==> r->0 == sideband_of(center, ctl_ch, bw),
{
    let lowest: u8 = center - (bw.mhz() - 20) / 10;
    if ctl_ch < lowest {
        return None;
    }
    if (ctl_ch - lowest) % 4 != 0 {
        return None;
    }
    let sb: u8 = (ctl_ch - lowest) / 4;
    if sb >= bw.mhz() / 20 {
        return None;
    }
    Some(sb)
}

/// Searches a table of centers, in order, for the first that matches.
fn search(table: &[u8], ctl_ch: u8, bw: Bandwidth) -> (r: Option<(u8, u8)>)
    requires
        bw != Bandwidth::Bw20,
        table@ == centers(bw),
        forall|i: int| 0 <= i < table@.len() ==> table@[i] >= 14,
    ensures
        is_bands(ctl_ch, bw, r),
{
    let mut i: usize = 0;
    while i < table.len()
        invariant
            0 <= i <= table@.len(),
            bw != Bandwidth::Bw20,
            table@ == centers(bw),
            forall|k: int| 0 <= k < table@.len() ==> table@[k] >= 14,
            forall|j: int| 0 <= j < i ==> !center_matches(#[trigger] centers(bw)[j], ctl_ch, bw),
        decreases table@.len() - i,
    {
        let center: u8 = table[i];
        match sideband_at(center, ctl_ch, bw) {
            Some(sb) => {
                assert(is_first_match(bw, ctl_ch, i as int));
                return Some((center, sb));
            },
            None => {},
        }
        i += 1;
    }
    None
}

/// Finds the center channel and the sideband index of a control channel.
pub fn bands(ctl_ch: u8, bw: Bandwidth) -> (r: Option<(u8, u8)>)
    ensures
        is_bands(ctl_ch, bw, r),
{
    match bw {
        Bandwidth::Bw20 => Some((ctl_ch, 0)),
        Bandwidth::Bw40 => search(&CENTERS_40MHZ, ctl_ch, bw),
        Bandwidth::Bw80 => search(&CENTERS_80MHZ, ctl_ch, bw),
        Bandwidth::Bw160 => search(&CENTERS_160MHZ, ctl_ch, bw),
    }
}

/// What a chanspec holds, as a plain value for contracts.
pub struct ChanSpecView {
    /// Center channel.
    pub center: u8,
    /// Index of the control channel among the 20 MHz channels.
    pub sideband: u8,
    /// Band.
    pub band: Band,
    /// Bandwidth.
    pub bandwidth: Bandwidth,
}

/// The bits of a band in a chanspec (mask `0xc000`).
pub open spec fn band_bits(band: Band) -> u16 {
    match band {
        Band::Band2G => 0x0000,
        Band::Band5G => 0xc000,
    }
}

/// The bits of a bandwidth in a chanspec (mask `0x3800`).
pub open spec fn bandwidth_bits(bandwidth: Bandwidth) -> u16 {
    match bandwidth {
        Bandwidth::Bw20 => 0x1000,
        Bandwidth::Bw40 => 0x1800,
        Bandwidth::Bw80 => 0x2000,
        Bandwidth::Bw160 => 0x2800,
    }
}

/// The 16-bit value of a chanspec: the center channel in bits 0 to 7, the
/// sideband from bit 8 up, the bandwidth code in bits 11 to 13 and the
/// band in bits 14 and 15.
pub open spec fn spec_encode(v: ChanSpecView) -> u16 {
    (v.center as u16) | band_bits(v.band) | ((v.sideband as u16) << 8) | bandwidth_bits(
        v.bandwidth,
    )
}

/// The bandwidth that the bits under mask `0x3800` stand for.
pub open spec fn decode_bandwidth(value: u16) -> Option<Bandwidth> {
    let code = value & 0x3800;
    if code == 0x1000 {
        Some(Bandwidth::Bw20)
    } else if code == 0x1800 {
        Some(Bandwidth::Bw40)
    } else if code == 0x2000 {
        Some(Bandwidth::Bw80)
    } else if code == 0x2800 {
        Some(Bandwidth::Bw160)
    } else {
        None
    }
}

/// The band that the bits under mask `0xc000` stand for.
pub open spec fn decode_band(value: u16) -> Option<Band> {
    let code = value & 0xc000;
    if code == 0x0000 {
        Some(Band::Band2G)
    } else if code == 0xc000 {
        Some(Band::Band5G)
    } else {
        None
    }
}

/// What a 16-bit value decodes to. The bandwidth is looked at first, so a
/// value with both an unknown bandwidth and an unknown band is reported
/// for its bandwidth; the 2.4 GHz band has no 80 or 160 MHz channels.
pub open spec fn spec_decode(value: u16) -> Result<ChanSpecView, ParseChanSpecError> {
    match decode_bandwidth(value) {
        None => Err(ParseChanSpecError::InvalidBandwidth),
        Some(bandwidth) => match decode_band(value) {
            None => Err(ParseChanSpecError::InvalidBand),
            Some(band) => if band == Band::Band2G && (bandwidth == Bandwidth::Bw80 || bandwidth
                == Bandwidth::Bw160) {
                Err(ParseChanSpecError::InvalidBandwidth)
            } else {
                Ok(
                    ChanSpecView {
                        center: (value & 0xff) as u8,
                        sideband: ((value >> 8) & 0x3) as u8,
                        band,
                        bandwidth,
                    },
                )
            },
        },
    }
}

/// A chanspec holds the channel number, band, bandwidth and control sideband.
#[derive(Debug, Clone, Copy, PartialEq, Eq, Structural)]
pub struct ChanSpec {
    center: u8,
    sideband: u8,
    band: Band,
    bandwidth: Bandwidth,
}

impl View for ChanSpec {
    type V = ChanSpecView;

    closed spec fn view(&self) -> ChanSpecView {
        ChanSpecView {
            center: self.center,
            sideband: self.sideband,
            band: self.band,
            bandwidth: self.bandwidth,
        }
    }
}

/// Error returned when parsing a [`ChanSpec`].
#[derive(Debug, Clone, Copy, PartialEq, Eq, Structural)]
pub enum ParseChanSpecError {
    /// Bandwidth is not one of the supported values (none of the
    /// [`Bandwidth`] variants) or when the bandwidth is unsupported
    /// by the specified [`Band`].
    InvalidBandwidth,
    /// Band is not one of the supported values (none of the [`Band`]
    /// variants).
    InvalidBand,
}

impl ParseChanSpecError {
    /// The message of the error.
    pub fn to_string(&self) -> (s: String)
        ensures
            s@ == (match *self {
                ParseChanSpecError::InvalidBandwidth => "invalid bandwidth"@,
                ParseChanSpecError::InvalidBand => "invalid band"@,
            }),
    {
        match self {
            ParseChanSpecError::InvalidBandwidth => "invalid bandwidth".to_string(),
            ParseChanSpecError::InvalidBand => "invalid band".to_string(),
        }
    }
}

impl ChanSpec {
    /// Two chanspecs that hold the same values are the same chanspec.
    pub proof fn lemma_view_injective(a: ChanSpec, b: ChanSpec)
        requires
            a@ == b@,
        ensures
            a == b,
    {
    }

    /// Returns the lowest channel in the 20 MHz band.
    ///
    /// The center must lie at least `(mhz - 20) / 10` channel numbers
    /// above zero, as every center of the tables does.
    pub fn channel_lo_20mhz(&self) -> (lo: u8)
        requires
            self@.center >= lowest_offset(self@.bandwidth),
        ensures
            lo == self@.center - lowest_offset(self@.bandwidth),
    {
        self.center - (self.bandwidth.mhz() - 20) / 10
    }

    /// Returns the center channel.
    pub fn center(&self) -> (center: u8)
        ensures
            center == self@.center,
    {
        self.center
    }

    /// Returns the sideband.
    pub fn sideband(&self) -> (sideband: u8)
        ensures
            sideband == self@.sideband,
    {
        self.sideband
    }

    /// Returns the band.
    pub fn band(&self) -> (band: Band)
        ensures
            band == self@.band,
    {
        self.band
    }

    /// Returns the bandwidth.
    pub fn bandwidth(&self) -> (bandwidth: Bandwidth)
        ensures
            bandwidth == self@.bandwidth,
    {
        self.bandwidth
    }

    /// Convert to an [`u16`].
    pub fn as_u16(self) -> (value: u16)
        ensures
            value == spec_encode(self@),
    {
        let mut out: u16 = 0;
        out |= self.center as u16;
        out |= match self.band {
            Band::Band2G => 0,
            Band::Band5G => 0xc000,
        };
        out |= (self.sideband as u16) << 8;
        out |= match self.bandwidth {
            Bandwidth::Bw20 => 0x1000,
            Bandwidth::Bw40 => 0x1800,
            Bandwidth::Bw80 => 0x2000,
            Bandwidth::Bw160 => 0x2800,
        };
        proof {
            let c = self.center as u16;
            let b = band_bits(self.band);
            let s = (self.sideband as u16) << 8;
            let w = bandwidth_bits(self.bandwidth);
            assert((((0u16 | c) | b) | s) | w == c | b | s | w) by (bit_vector);
        }
        out
    }

    /// Construct a new chanspec.
    ///
    /// If no legal channel of the bandwidth holds `channel`, this function
    /// will return `None`.
    pub fn new(channel: u8, band: Band, bandwidth: Bandwidth) -> (r: Option<Self>)
        ensures
            match r {
                Some(cs) => {
                    &&& cs@.band == band
                    &&& cs@.bandwidth == bandwidth
                    &&& is_bands(channel, bandwidth, Some((cs@.center, cs@.sideband)))
                },
                None => is_bands(channel, bandwidth, None),
            },
    {
        match bands(channel, bandwidth) {
            Some((center, sideband)) => Some(Self { center, sideband, band, bandwidth }),
            None => None,
        }
    }

    /// Reads a chanspec from its 16-bit value.
    pub fn decode(value: u16) -> (r: Result<Self, ParseChanSpecError>)
        ensures
            match r {
                Ok(cs) => spec_decode(value) == Ok::<ChanSpecView, ParseChanSpecError>(cs@),
                Err(e) => spec_decode(value) == Err::<ChanSpecView, ParseChanSpecError>(e),
            },
    {
        let code: u16 = value & 0x3800;
        let bandwidth = if code == 0x1000 {
            Bandwidth::Bw20
        } else if code == 0x1800 {
            Bandwidth::Bw40
        } else if code == 0x2000 {
            Bandwidth::Bw80
        } else if code == 0x2800 {
            Bandwidth::Bw160
        } else {
            return Err(ParseChanSpecError::InvalidBandwidth);
        };
        let code: u16 = value & 0xc000;
        let band = if code == 0x0000 {
            match bandwidth {
                Bandwidth::Bw20 | Bandwidth::Bw40 => {},
                // 2.4 GHz only supports 20 and 40 MHz bandwidth
                _ => return Err(ParseChanSpecError::InvalidBandwidth),
            }
            Band::Band2G
        } else if code == 0xc000 {
            Band::Band5G
        } else {
            return Err(ParseChanSpecError::InvalidBand);
        };
        assert(value & 0xff < 0x100) by (bit_vector);
        assert((value >> 8) & 0x3 < 4) by (bit_vector);
        let center: u8 = (value & 0xff) as u8;
        let sideband: u8 = ((value >> 8) & 0x3) as u8;
        Ok(Self { center, sideband, band, bandwidth })
    }
}

impl TryFrom<u16> for ChanSpec {
    type Error = ParseChanSpecError;

    /// Reads a chanspec from its 16-bit value, as [`ChanSpec::decode`] does.
    fn try_from(value: u16) -> (r: Result<Self, ParseChanSpecError>)
        ensures
            match r {
                Ok(cs) => spec_decode(value) == Ok::<ChanSpecView, ParseChanSpecError>(cs@),
                Err(e) => spec_decode(value) == Err::<ChanSpecView, ParseChanSpecError>(e),
            },
    {
        ChanSpec::decode(value)
    }
}

impl TryFromSpecImpl<u16> for ChanSpec {
    open spec fn obeys_try_from_spec() -> bool {
        true
    }

    closed spec fn try_from_spec(value: u16) -> Result<Self, ParseChanSpecError> {
        match spec_decode(value) {
            Ok(v) => Ok(
                ChanSpec {
                    center: v.center,
                    sideband: v.sideband,
                    band: v.band,
                    bandwidth: v.bandwidth,
                },
            ),
            Err(e) => Err(e),
        }
    }
}

/// What `ChanSpec::try_from` returns for a value is what the value
/// decodes to: the same error, or the chanspec with the decoded fields.
pub proof fn lemma_try_from_is_decode(value: u16)
    ensures
        match <ChanSpec as TryFromSpec<u16>>::try_from_spec(value) {
            Ok(cs) => spec_decode(value) == Ok::<ChanSpecView, ParseChanSpecError>(cs@),
            Err(e) => spec_decode(value) == Err::<ChanSpecView, ParseChanSpecError>(e),
        },
{
}

impl From<ChanSpec> for u16 {
    /// The 16-bit value of a chanspec, as [`ChanSpec::as_u16`] gives it.
    fn from(value: ChanSpec) -> (r: u16)
        ensures
            r == spec_encode(value@),
    {
        value.as_u16()
    }
}

impl FromSpecImpl<ChanSpec> for u16 {
    open spec fn obeys_from_spec() -> bool {
        true
    }

    open spec fn from_spec(value: ChanSpec) -> u16 {
        spec_encode(value@)
    }
}

/// Whether a chanspec survives its 16-bit value: the sideband fits the
/// two bits that are read back, and the pair of band and bandwidth is one
/// that exists.
pub open spec fn is_representable(v: ChanSpecView) -> bool {
    &&& v.sideband < 4
    &&& !(v.band == Band::Band2G && (v.bandwidth == Bandwidth::Bw80 || v.bandwidth
        == Bandwidth::Bw160))
}

proof fn lemma_fields_of_encoded(c: u8, b: u16, s: u8, w: u16)
    by (bit_vector)
    requires
        b == 0x0000 || b == 0xc000,
        w == 0x1000 || w == 0x1800 || w == 0x2000 || w == 0x2800,
        s < 4,
    ensures
        ((c as u16) | b | ((s as u16) << 8) | w) & 0x3800 == w,
        ((c as u16) | b | ((s as u16) << 8) | w) & 0xc000 == b,
        ((c as u16) | b | ((s as u16) << 8) | w) & 0xff == c as u16,
        (((c as u16) | b | ((s as u16) << 8) | w) >> 8) & 0x3 == s as u16,
{
}

/// Decoding the 16-bit value of a representable chanspec gives the
/// chanspec back.
pub proof fn lemma_decode_encode(v: ChanSpecView)
    requires
        is_representable(v),
    ensures
        spec_decode(spec_encode(v)) == Ok::<ChanSpecView, ParseChanSpecError>(v),
{
    lemma_fields_of_encoded(v.center, band_bits(v.band), v.sideband, bandwidth_bits(v.bandwidth));
}

/// A chanspec that `ChanSpec::new` made for `channel`, and that is
/// representable, decodes from its own 16-bit value to itself.
pub proof fn lemma_new_round_trip(channel: u8, band: Band, bandwidth: Bandwidth, cs: ChanSpec)
    requires
        cs@.band == band,
        cs@.bandwidth == bandwidth,
        is_bands(channel, bandwidth, Some((cs@.center, cs@.sideband))),
        is_representable(cs@),
    ensures
        spec_decode(spec_encode(cs@)) == Ok::<ChanSpecView, ParseChanSpecError>(cs@),
        <ChanSpec as TryFromSpec<u16>>::try_from_spec(spec_encode(cs@)) == Ok::<
            ChanSpec,
            ParseChanSpecError,
        >(cs),
{
    lemma_decode_encode(cs@);
}

/// Every chanspec that `ChanSpec::new` makes for a bandwidth of at most
/// 80 MHz has a sideband below 4; with a band that has the bandwidth it is
/// representable.
pub proof fn lemma_new_is_representable(channel: u8, band: Band, bandwidth: Bandwidth, cs: ChanSpec)
    requires
        cs@.band == band,
        cs@.bandwidth == bandwidth,
        is_bands(channel, bandwidth, Some((cs@.center, cs@.sideband))),
        bandwidth != Bandwidth::Bw160,
        band == Band::Band5G || bandwidth != Bandwidth::Bw80,
    ensures
        is_representable(cs@),
{
}

/// The number of ones in the binary representation of a byte.
pub open spec fn ones(bits: u8) -> nat
    decreases bits,
{
    if bits == 0 {
        0
    } else {
        (bits % 2) as nat + ones(bits / 2)
    }
}

/// `u8::count_ones` of std. The contract claims what its documentation
/// says: it returns the number of ones in the binary representation of
/// its argument.
pub assume_specification[ u8::count_ones ](bits: u8) -> (n: u32)
    ensures
        n == ones(bits),
;

/// A byte below `2^k` has at most `k` ones.
proof fn lemma_ones_bound(bits: u8, k: nat)
    requires
        bits < vstd::arithmetic::power2::pow2(k),
    ensures
        ones(bits) <= k,
    decreases bits,
{
    if bits != 0 {
        vstd::arithmetic::power2::lemma2_to64();
        if k == 0 {
            assert(vstd::arithmetic::power2::pow2(0) == 1);
        } else {
            vstd::arithmetic::power2::lemma_pow2_unfold(k);
            lemma_ones_bound(bits / 2, (k - 1) as nat);
        }
    }
}

/// Core filter: one bit for each of the cores 0 to 3.
#[derive(Debug, Clone, Copy, PartialEq, Eq, Structural)]
pub struct Cores {
    bits: u8,
}

impl View for Cores {
    type V = u8;

    closed spec fn view(&self) -> u8 {
        self.bits
    }
}

impl Cores {
    /// Enable core 0.
    pub fn core0() -> (r: Cores)
        ensures
            r@ == 0b0001,
    {
        Cores { bits: 0b0001 }
    }

    /// Enable core 1.
    pub fn core1() -> (r: Cores)
        ensures
            r@ == 0b0010,
    {
        Cores { bits: 0b0010 }
    }

    /// Enable core 2.
    pub fn core2() -> (r: Cores)
        ensures
            r@ == 0b0100,
    {
        Cores { bits: 0b0100 }
    }

    /// Enable core 3.
    pub fn core3() -> (r: Cores)
        ensures
            r@ == 0b1000,
    {
        Cores { bits: 0b1000 }
    }

    /// The filter with the four lowest bits of `bits`; the others are
    /// dropped.
    pub fn from_bits_truncate(bits: u8) -> (cores: Cores)
        ensures
            cores@ == bits % 16,
    {
        assert(bits & 0x0f == bits % 16) by (bit_vector);
        Cores { bits: bits & 0x0f }
    }

    /// Returns the bits of the filter.
    pub fn bits(&self) -> (bits: u8)
        ensures
            bits == self@,
    {
        self.bits
    }

    /// The filter with the cores of both filters.
    pub fn union(self, other: Cores) -> (cores: Cores)
        ensures
            cores@ == self@ | other@,
    {
        Cores { bits: self.bits | other.bits }
    }
}

/// Spatial stream filter: one bit for each of the spatial streams 0 to 3.
#[derive(Debug, Clone, Copy, PartialEq, Eq, Structural)]
pub struct SpatialStreams {
    bits: u8,
}

impl View for SpatialStreams {
    type V = u8;

    closed spec fn view(&self) -> u8 {
        self.bits
    }
}

impl SpatialStreams {
    /// Enable spatial stream 0.
    pub fn s0() -> (r: SpatialStreams)
        ensures
            r@ == 0b0001,
    {
        SpatialStreams { bits: 0b0001 }
    }

    /// Enable spatial stream 1.
    pub fn s1() -> (r: SpatialStreams)
        ensures
            r@ == 0b0010,
    {
        SpatialStreams { bits: 0b0010 }
    }

    /// Enable spatial stream 2.
    pub fn s2() -> (r: SpatialStreams)
        ensures
            r@ == 0b0100,
    {
        SpatialStreams { bits: 0b0100 }
    }

    /// Enable spatial stream 3.
    pub fn s3() -> (r: SpatialStreams)
        ensures
            r@ == 0b1000,
    {
        SpatialStreams { bits: 0b1000 }
    }

    /// The filter with the four lowest bits of `bits`; the others are
    /// dropped.
    pub fn from_bits_truncate(bits: u8) -> (streams: SpatialStreams)
        ensures
            streams@ == bits % 16,
    {
        assert(bits & 0x0f == bits % 16) by (bit_vector);
        SpatialStreams { bits: bits & 0x0f }
    }

    /// Returns the bits of the filter.
    pub fn bits(&self) -> (bits: u8)
        ensures
            bits == self@,
    {
        self.bits
    }

    /// The filter with the spatial streams of both filters.
    pub fn union(self, other: SpatialStreams) -> (streams: SpatialStreams)
        ensures
            streams@ == self@ | other@,
    {
        SpatialStreams { bits: self.bits | other.bits }
    }
}

/// The delay in microseconds that many channel estimations at once need:
/// 50 from 12 pairs of a core and a spatial stream on, else none.
pub open spec fn spec_default_delay_us(cores: u8, spatial_streams: u8) -> int {
    if ones(cores) * ones(spatial_streams) >= 12 {
        50
    } else {
        0
    }
}

/// Default delay for the given cores and spatial streams.
/// See [`Params::delay_us`].
pub fn default_delay_us(cores: Cores, spatial_streams: SpatialStreams) -> (delay: u16)
    ensures
        delay == spec_default_delay_us(cores@, spatial_streams@),
{
    let n_cores: u32 = cores.bits().count_ones();
    let n_spatial_streams: u32 = spatial_streams.bits().count_ones();
    proof {
        vstd::arithmetic::power2::lemma2_to64();
        lemma_ones_bound(cores@, 8);
        lemma_ones_bound(spatial_streams@, 8);
        assert(n_cores * n_spatial_streams <= 64) by (nonlinear_arith)
            requires
                n_cores <= 8,
                n_spatial_streams <= 8,
        ;
    }
    if n_cores * n_spatial_streams >= 12 {
        50
    } else {
        0
    }
}

/// CSI collection parameters used by nexutil.
pub struct Params {
    /// Channel specification. See [`ChanSpec`].
    pub chan_spec: ChanSpec,
    /// Whether to collect CSI.
    pub csi_collect: bool,
    /// Which cores to collect on.
    pub cores: Cores,
    /// Spatial streams to collect.
    pub spatial_streams: SpatialStreams,
    /// First packet byte to filter on.
    pub first_pkt_byte: Option<u8>,
    /// Source MAC addresses to filter on. Maximum length is 4.
    pub mac_addrs: Vec<[u8; 6]>,
    /// Delay in microseconds after each CSI operation
    /// (really needed for 3x4, 4x3 and 4x4 configurations).
    pub delay_us: u16,
}

/// What the parameters hold, as a plain value for contracts.
pub struct ParamsView {
    /// Channel specification.
    pub chan_spec: ChanSpecView,
    /// Whether to collect CSI.
    pub csi_collect: bool,
    /// Bits of the core filter.
    pub cores: u8,
    /// Bits of the spatial stream filter.
    pub spatial_streams: u8,
    /// First packet byte to filter on.
    pub first_pkt_byte: Option<u8>,
    /// Source MAC addresses to filter on, 6 bytes each.
    pub mac_addrs: Seq<Seq<u8>>,
    /// Delay in microseconds after each CSI operation.
    pub delay_us: u16,
}

impl View for Params {
    type V = ParamsView;

    open spec fn view(&self) -> ParamsView {
        ParamsView {
            chan_spec: self.chan_spec@,
            csi_collect: self.csi_collect,
            cores: self.cores@,
            spatial_streams: self.spatial_streams@,
            first_pkt_byte: self.first_pkt_byte,
            mac_addrs: Seq::new(self.mac_addrs@.len(), |i: int| self.mac_addrs@[i]@),
            delay_us: self.delay_us,
        }
    }
}

/// The byte at offset `k` of the parameters as nexutil takes them, a
/// packed structure of 34 bytes in little endian:
///
/// | Offset | Field                                                  |
/// |--------|--------------------------------------------------------|
/// | 0      | chanspec to tune to, 16 bits                           |
/// | 2      | whether to collect CSI (1: on, 0: off)                 |
/// | 3      | cores in the low 4 bits, spatial streams in the high 4 |
/// | 4      | whether to filter on the first packet byte             |
/// | 5      | first packet byte to filter for                        |
/// | 6      | number of MAC addresses to filter for, 16 bits         |
/// | 8      | up to 4 source MAC addresses, 6 bytes each             |
/// | 32     | delay, 16 bits                                         |
pub open spec fn spec_param_byte(p: ParamsView, k: int) -> int {
    if k == 0 {
        spec_encode(p.chan_spec) as int % 0x100
    } else if k == 1 {
        spec_encode(p.chan_spec) as int / 0x100
    } else if k == 2 {
        if p.csi_collect {
            1
        } else {
            0
        }
    } else if k == 3 {
        p.cores % 16 + 16 * (p.spatial_streams % 16)
    } else if k == 4 {
        if p.first_pkt_byte is Some {
            1
        } else {
            0
        }
    } else if k == 5 {
        match p.first_pkt_byte {
            Some(byte) => byte as int,
            None => 0,
        }
    } else if k == 6 {
        p.mac_addrs.len() as int % 0x100
    } else if k == 7 {
        p.mac_addrs.len() as int / 0x100
    } else if 8 <= k < 8 + 6 * p.mac_addrs.len() {
        p.mac_addrs[(k - 8) / 6][(k - 8) % 6] as int
    } else if k == 32 {
        p.delay_us as int % 0x100
    } else if k == 33 {
        p.delay_us as int / 0x100
    } else {
        0
    }
}

/// The parameters as nexutil takes them: 34 bytes.
pub open spec fn spec_to_bytes(p: ParamsView) -> Seq<u8> {
    Seq::new(34, |k: int| spec_param_byte(p, k) as u8)
}

/// The text of some bytes in base64, with the standard alphabet and with
/// padding, as the crate `base64` writes it.
pub uninterp spec fn base64_standard(bytes: Seq<u8>) -> Seq<char>;

/// Formats bytes through `base64::display::Base64Display` with the engine
/// `base64::engine::general_purpose::STANDARD`. The contract claims that
/// the text depends on the bytes alone, and gives it a name; it says
/// nothing of the characters.
#[verifier::external_body]
fn encode_base64(bytes: &[u8]) -> (text: String)
    ensures
        text@ == base64_standard(bytes@),
{
    base64::display::Base64Display::new(bytes, &base64::engine::general_purpose::STANDARD)
        .to_string()
}

/// Splits a 16-bit integer into its two bytes, the low one first.
fn u16_le_bytes(x: u16) -> (bytes: (u8, u8))
    ensures
        bytes.0 == x % 0x100,
        bytes.1 == x / 0x100,
{
    ((x % 0x100) as u8, (x / 0x100) as u8)
}

impl Params {
    /// Convert to a byte array that can be passed to nexutil.
    ///
    /// There is room for no more than 4 MAC addresses.
    pub fn to_bytes(&self) -> (out: [u8; 34])
        requires
            self.mac_addrs@.len() <= 4,
        ensures
            out@ == spec_to_bytes(self@),
    {
        let mut out = [0u8; 34];

        let (lo, hi) = u16_le_bytes(self.chan_spec.as_u16());
        out[0] = lo;
        out[1] = hi;

        if self.csi_collect {
            out[2] = 1;
        }

        let cores: u8 = self.cores.bits();
        let streams: u8 = self.spatial_streams.bits();
        assert((cores & 0x0f) | (streams << 4) == (cores % 16) + 16 * (streams % 16))
            by (bit_vector);
        out[3] = (cores & 0x0f) | (streams << 4);

        if let Some(first_pkt_byte) = self.first_pkt_byte {
            out[4] = 1;
            out[5] = first_pkt_byte;
        }

        let n: usize = self.mac_addrs.len();
        let (lo, hi) = u16_le_bytes(n as u16);
        out[6] = lo;
        out[7] = hi;

        let ghost head = out@;
        let mut i: usize = 0;
        while i < n
            invariant
                0 <= i <= n,
                n == self.mac_addrs@.len(),
                n <= 4,
                head.len() == 34,
                forall|k: int| 0 <= k < 8 ==> out@[k] == head[k],
                forall|k: int| 8 <= k < 8 + 6 * i ==> out@[k] == self.mac_addrs@[(k - 8) / 6]@[(k - 8) % 6],
                forall|k: int| 8 + 6 * i <= k < 34 ==> out@[k] == 0,
            decreases n - i,
        {
            let mac: &[u8; 6] = &self.mac_addrs[i];
            let mut j: usize = 0;
            while j < 6
                invariant
                    0 <= i < n,
                    0 <= j <= 6,
                    n == self.mac_addrs@.len(),
                    n <= 4,
                    *mac == self.mac_addrs@[i as int],
                    head.len() == 34,
                forall|k: int| 0 <= k < 8 ==> out@[k] == head[k],
                    forall|k: int| 8 <= k < 8 + 6 * i + j ==> out@[k] == self.mac_addrs@[(k - 8) / 6]@[(k - 8) % 6],
                    forall|k: int| 8 + 6 * i + j <= k < 34 ==> out@[k] == 0,
                decreases 6 - j,
            {
                out[8 + i * 6 + j] = mac[j];
                j += 1;
            }
            i += 1;
        }

        let (lo, hi) = u16_le_bytes(self.delay_us);
        out[32] = lo;
        out[33] = hi;

        proof {
            let p = self@;
            assert forall|k: int| 0 <= k < 34 implies out@[k] == spec_param_byte(p, k) as u8 by {
                if 8 <= k < 8 + 6 * n {
                    let a = (k - 8) / 6;
                    assert(0 <= a < n);
                    assert(p.mac_addrs[a] == self.mac_addrs@[a]@);
                } else if k < 8 {
                    assert(out@[k] == head[k]);
                }
            }
            assert(out@ =~= spec_to_bytes(p));
        }
        out
    }

    /// The parameters in base64, as they are handed to nexutil.
    ///
    /// There is room for no more than 4 MAC addresses.
    pub fn to_string(&self) -> (text: String)
        requires
            self.mac_addrs@.len() <= 4,
        ensures
            text@ == base64_standard(spec_to_bytes(self@)),
    {
        let bytes = self.to_bytes();
        encode_base64(&bytes)
    }
}

} // verus!
