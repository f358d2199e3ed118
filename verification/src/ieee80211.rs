//! IEEE 802.11 definitions: bands, bandwidths and the OFDM subcarrier layout.

use vstd::prelude::*;

verus! {

/// Band.
#[derive(Clone, Copy, Debug, PartialEq, Eq, Structural)]
pub enum Band {
    /// 2.4 GHz.
    Band2G,
    /// 5 GHz.
    Band5G,
}

/// Bandwidth.
#[derive(Clone, Copy, Debug, PartialEq, Eq, Structural)]
pub enum Bandwidth {
    /// 20 MHz.
    Bw20,
    /// 40 MHz.
    Bw40,
    /// 80 MHz.
    Bw80,
    /// 160 MHz.
    Bw160,
}

impl Bandwidth {
    /// The bandwidth in MHz, as a mathematical integer.
    pub open spec fn spec_mhz(self) -> int {
        match self {
            Bandwidth::Bw20 => 20,
            Bandwidth::Bw40 => 40,
            Bandwidth::Bw80 => 80,
            Bandwidth::Bw160 => 160,
        }
    }

    /// The size of the FFT that covers the bandwidth: 3.2 bins per MHz.
    pub open spec fn spec_nsub_pow2(self) -> int {
        16 * self.spec_mhz() / 5
    }

    /// Returns the bandwidth in MHz.
    pub fn mhz(&self) -> (mhz: u8)
        ensures
            mhz == self.spec_mhz(),
    {
        match self {
            Bandwidth::Bw20 => 20,
            Bandwidth::Bw40 => 40,
            Bandwidth::Bw80 => 80,
            Bandwidth::Bw160 => 160,
        }
    }

    /// Returns the bandwidth in Hz.
    pub fn hz(&self) -> (hz: u32)
        ensures
            hz == 1_000_000 * self.spec_mhz(),
    {
        match self {
            Bandwidth::Bw20 => 20_000_000,
            Bandwidth::Bw40 => 40_000_000,
            Bandwidth::Bw80 => 80_000_000,
            Bandwidth::Bw160 => 160_000_000,
        }
    }

    /// Returns the number of subcarriers rounded up to the nearest power
    /// of 2: 64, 128, 256 or 512.
    ///
    /// Note that this is not the same as the number of _usable_ subcarriers.
    pub fn nsub_pow2(&self) -> (n: usize)
        ensures
            n == self.spec_nsub_pow2(),
            n == 64 || n == 128 || n == 256 || n == 512,
    {
        match self {
            Bandwidth::Bw20 => 64,
            Bandwidth::Bw40 => 128,
            Bandwidth::Bw80 => 256,
            Bandwidth::Bw160 => 512,
        }
    }
}

/// OFDM subcarriers can be either pilot, data or zero/null.
#[derive(Debug, Clone, Copy, PartialEq, Eq, Hash, Structural)]
pub enum SubcarrierType {
    /// Pilot subcarrier.
    Pilot,
    /// Data subcarrier.
    Data,
    /// Zero/null (unused) subcarrier.
    Zero,
}

/// The layout of a 20 MHz channel: subcarriers -28 to -1 and 1 to 28,
/// with pilots at ±7 and ±21.
pub open spec fn spec_subcarrier_type_20mhz(i: int) -> SubcarrierType {
    if i == -21 || i == -7 || i == 7 || i == 21 {
        SubcarrierType::Pilot
    } else if (-28 <= i <= -1) || (1 <= i <= 28) {
        SubcarrierType::Data
    } else {
        SubcarrierType::Zero
    }
}

/// The layout of a 40 MHz channel: subcarriers -58 to -2 and 2 to 58,
/// with pilots at ±11, ±25 and ±53.
pub open spec fn spec_subcarrier_type_40mhz(i: int) -> SubcarrierType {
    if i == -53 || i == -25 || i == -11 || i == 11 || i == 25 || i == 53 {
        SubcarrierType::Pilot
    } else if (-58 <= i <= -2) || (2 <= i <= 58) {
        SubcarrierType::Data
    } else {
        SubcarrierType::Zero
    }
}

/// The layout of an 80 MHz channel: subcarriers -122 to -2 and 2 to 122,
/// with pilots at ±11, ±39, ±75 and ±103.
pub open spec fn spec_subcarrier_type_80mhz(i: int) -> SubcarrierType {
    if i == -103 || i == -75 || i == -39 || i == -11 || i == 11 || i == 39 || i == 75 || i
        == 103 {
        SubcarrierType::Pilot
    } else if (-122 <= i <= -2) || (2 <= i <= 122) {
        SubcarrierType::Data
    } else {
        SubcarrierType::Zero
    }
}

/// The pilots of a 160 MHz channel lie at ±25, ±53, ±89, ±117, ±139,
/// ±167, ±203 and ±231.
pub open spec fn is_pilot_160mhz(i: int) -> bool {
    let a = if i < 0 {
        -i
    } else {
        i
    };
    a == 25 || a == 53 || a == 89 || a == 117 || a == 139 || a == 167 || a == 203 || a == 231
}

/// The layout of a 160 MHz channel: subcarriers -250 to -130, -126 to -6,
/// 6 to 126 and 130 to 250, with the pilots of [`is_pilot_160mhz`].
pub open spec fn spec_subcarrier_type_160mhz(i: int) -> SubcarrierType {
    if is_pilot_160mhz(i) {
        SubcarrierType::Pilot
    } else if (-250 <= i <= -130) || (-126 <= i <= -6) || (6 <= i <= 126) || (130 <= i <= 250) {
        SubcarrierType::Data
    } else {
        SubcarrierType::Zero
    }
}

/// Subcarrier type for 802.11n/802.11ac, 20 MHz.
pub fn subcarrier_type_20mhz(i: i8) -> (t: SubcarrierType)
    ensures
        t == spec_subcarrier_type_20mhz(i as int),
{
    if i == -21 || i == -7 || i == 7 || i == 21 {
        SubcarrierType::Pilot
    } else if (-28 <= i && i <= -1) || (1 <= i && i <= 28) {
        SubcarrierType::Data
    } else {
        SubcarrierType::Zero
    }
}

/// Subcarrier type for 802.11n/802.11ac, 40 MHz.
pub fn subcarrier_type_40mhz(i: i8) -> (t: SubcarrierType)
    ensures
        t == spec_subcarrier_type_40mhz(i as int),
{
    if i == -53 || i == -25 || i == -11 || i == 11 || i == 25 || i == 53 {
        SubcarrierType::Pilot
    } else if (-58 <= i && i <= -2) || (2 <= i && i <= 58) {
        SubcarrierType::Data
    } else {
        SubcarrierType::Zero
    }
}

/// Subcarrier type for 802.11ac, 80 MHz.
pub fn subcarrier_type_80mhz(i: i8) -> (t: SubcarrierType)
    ensures
        t == spec_subcarrier_type_80mhz(i as int),
{
    if i == -103 || i == -75 || i == -39 || i == -11 || i == 11 || i == 39 || i == 75 || i == 103 {
        SubcarrierType::Pilot
    } else if (-122 <= i && i <= -2) || (2 <= i && i <= 122) {
        SubcarrierType::Data
    } else {
        SubcarrierType::Zero
    }
}

/// Subcarrier type for 802.11ac, 160 MHz.
pub fn subcarrier_type_160mhz(i: i16) -> (t: SubcarrierType)
    ensures
        t == spec_subcarrier_type_160mhz(i as int),
{
    let a: i16 = if i < 0 {
        if i == i16::MIN {
            i16::MAX
        } else {
            -i
        }
    } else {
        i
    };
    if a == 25 || a == 53 || a == 89 || a == 117 || a == 139 || a == 167 || a == 203 || a == 231 {
        SubcarrierType::Pilot
    } else if (6 <= a && a <= 126) || (130 <= a && a <= 250) {
        SubcarrierType::Data
    } else {
        SubcarrierType::Zero
    }
}

/// The center frequency of a 5 GHz channel in MHz: channel 0 sits at
/// 5000 MHz and each channel number is worth 5 MHz.
pub open spec fn spec_channel_mhz(channel: u8) -> int {
    5000 + 5 * channel
}

/// Returns the center frequency in MHz of a channel of the 5 GHz band.
pub fn channel_mhz(channel: u8) -> (mhz: u32)
    ensures
        mhz == spec_channel_mhz(channel),
{
    5000 + 5 * (channel as u32)
}

/// The lowest and the highest frequency in Hz of the channel centered at
/// `center` in the 5 GHz band: half the bandwidth below and above the
/// center frequency.
pub open spec fn spec_band_edges_hz(center: u8, bandwidth: Bandwidth) -> (int, int) {
    (
        1_000_000 * spec_channel_mhz(center) - 500_000 * bandwidth.spec_mhz(),
        1_000_000 * spec_channel_mhz(center) + 500_000 * bandwidth.spec_mhz(),
    )
}

/// Returns the lowest and the highest frequency in Hz of the channel
/// centered at `center`. The subcarriers are spread evenly between the
/// two, both included.
pub fn band_edges_hz(center: u8, bandwidth: Bandwidth) -> (edges: (u64, u64))
    ensures
        edges.0 == spec_band_edges_hz(center, bandwidth).0,
        edges.1 == spec_band_edges_hz(center, bandwidth).1,
        edges.0 < edges.1,
{
    let center_hz: u64 = 1_000_000 * (channel_mhz(center) as u64);
    let half: u64 = (bandwidth.hz() / 2) as u64;
    (center_hz - half, center_hz + half)
}

/// How many of the indices from `lo` up to, but not including, `hi` a
/// classifier takes for data subcarriers.
pub open spec fn count_data(classify: spec_fn(int) -> SubcarrierType, lo: int, hi: int) -> nat
    decreases hi - lo,
{
    if lo >= hi {
        0
    } else {
        count_data(classify, lo, hi - 1) + if classify(hi - 1) == SubcarrierType::Data {
            1nat
        } else {
            0nat
        }
    }
}

/// A run of indices that are all data, or of which none is, adds its
/// length, or nothing, to the count of what lies before it.
proof fn lemma_count_run(
    classify: spec_fn(int) -> SubcarrierType,
    lo: int,
    mid: int,
    hi: int,
    data: bool,
)
    requires
        lo <= mid <= hi,
        forall|i: int| mid <= i < hi ==> (#[trigger] classify(i) == SubcarrierType::Data) == data,
    ensures
        count_data(classify, lo, hi) == count_data(classify, lo, mid) + if data {
            hi - mid
        } else {
            0
        },
    decreases hi - mid,
{
    if mid < hi {
        lemma_count_run(classify, lo, mid, hi - 1, data);
    }
}

/// A 20 MHz channel has 52 data subcarriers: that many of the indices
/// from -128 to 126 are classified as data.
pub proof fn lemma_data_subcarriers_20mhz()
    ensures
        count_data(|i: int| spec_subcarrier_type_20mhz(i), -128, 127) == 52,
{
    let f = |i: int| spec_subcarrier_type_20mhz(i);
    lemma_count_run(f, -128, -128, -28, false);
    lemma_count_run(f, -128, -28, -21, true);
    lemma_count_run(f, -128, -21, -20, false);
    lemma_count_run(f, -128, -20, -7, true);
    lemma_count_run(f, -128, -7, -6, false);
    lemma_count_run(f, -128, -6, 0, true);
    lemma_count_run(f, -128, 0, 1, false);
    lemma_count_run(f, -128, 1, 7, true);
    lemma_count_run(f, -128, 7, 8, false);
    lemma_count_run(f, -128, 8, 21, true);
    lemma_count_run(f, -128, 21, 22, false);
    lemma_count_run(f, -128, 22, 29, true);
    lemma_count_run(f, -128, 29, 127, false);
}

/// A 40 MHz channel has 108 data subcarriers: that many of the indices
/// from -128 to 126 are classified as data.
pub proof fn lemma_data_subcarriers_40mhz()
    ensures
        count_data(|i: int| spec_subcarrier_type_40mhz(i), -128, 127) == 108,
{
    let f = |i: int| spec_subcarrier_type_40mhz(i);
    lemma_count_run(f, -128, -128, -58, false);
    lemma_count_run(f, -128, -58, -53, true);
    lemma_count_run(f, -128, -53, -52, false);
    lemma_count_run(f, -128, -52, -25, true);
    lemma_count_run(f, -128, -25, -24, false);
    lemma_count_run(f, -128, -24, -11, true);
    lemma_count_run(f, -128, -11, -10, false);
    lemma_count_run(f, -128, -10, -1, true);
    lemma_count_run(f, -128, -1, 2, false);
    lemma_count_run(f, -128, 2, 11, true);
    lemma_count_run(f, -128, 11, 12, false);
    lemma_count_run(f, -128, 12, 25, true);
    lemma_count_run(f, -128, 25, 26, false);
    lemma_count_run(f, -128, 26, 53, true);
    lemma_count_run(f, -128, 53, 54, false);
    lemma_count_run(f, -128, 54, 59, true);
    lemma_count_run(f, -128, 59, 127, false);
}

/// A 80 MHz channel has 234 data subcarriers: that many of the indices
/// from -128 to 126 are classified as data.
pub proof fn lemma_data_subcarriers_80mhz()
    ensures
        count_data(|i: int| spec_subcarrier_type_80mhz(i), -128, 127) == 234,
{
    let f = |i: int| spec_subcarrier_type_80mhz(i);
    lemma_count_run(f, -128, -128, -122, false);
    lemma_count_run(f, -128, -122, -103, true);
    lemma_count_run(f, -128, -103, -102, false);
    lemma_count_run(f, -128, -102, -75, true);
    lemma_count_run(f, -128, -75, -74, false);
    lemma_count_run(f, -128, -74, -39, true);
    lemma_count_run(f, -128, -39, -38, false);
    lemma_count_run(f, -128, -38, -11, true);
    lemma_count_run(f, -128, -11, -10, false);
    lemma_count_run(f, -128, -10, -1, true);
    lemma_count_run(f, -128, -1, 2, false);
    lemma_count_run(f, -128, 2, 11, true);
    lemma_count_run(f, -128, 11, 12, false);
    lemma_count_run(f, -128, 12, 39, true);
    lemma_count_run(f, -128, 39, 40, false);
    lemma_count_run(f, -128, 40, 75, true);
    lemma_count_run(f, -128, 75, 76, false);
    lemma_count_run(f, -128, 76, 103, true);
    lemma_count_run(f, -128, 103, 104, false);
    lemma_count_run(f, -128, 104, 123, true);
    lemma_count_run(f, -128, 123, 127, false);
}

/// A 160 MHz channel has 468 data subcarriers: that many of the indices
/// from -256 to 254 are classified as data.
pub proof fn lemma_data_subcarriers_160mhz()
    ensures
        count_data(|i: int| spec_subcarrier_type_160mhz(i), -256, 255) == 468,
{
    let f = |i: int| spec_subcarrier_type_160mhz(i);
    lemma_count_run(f, -256, -256, -250, false);
    lemma_count_run(f, -256, -250, -231, true);
    lemma_count_run(f, -256, -231, -230, false);
    lemma_count_run(f, -256, -230, -203, true);
    lemma_count_run(f, -256, -203, -202, false);
    lemma_count_run(f, -256, -202, -167, true);
    lemma_count_run(f, -256, -167, -166, false);
    lemma_count_run(f, -256, -166, -139, true);
    lemma_count_run(f, -256, -139, -138, false);
    lemma_count_run(f, -256, -138, -129, true);
    lemma_count_run(f, -256, -129, -126, false);
    lemma_count_run(f, -256, -126, -117, true);
    lemma_count_run(f, -256, -117, -116, false);
    lemma_count_run(f, -256, -116, -89, true);
    lemma_count_run(f, -256, -89, -88, false);
    lemma_count_run(f, -256, -88, -53, true);
    lemma_count_run(f, -256, -53, -52, false);
    lemma_count_run(f, -256, -52, -25, true);
    lemma_count_run(f, -256, -25, -24, false);
    lemma_count_run(f, -256, -24, -5, true);
    lemma_count_run(f, -256, -5, 6, false);
    lemma_count_run(f, -256, 6, 25, true);
    lemma_count_run(f, -256, 25, 26, false);
    lemma_count_run(f, -256, 26, 53, true);
    lemma_count_run(f, -256, 53, 54, false);
    lemma_count_run(f, -256, 54, 89, true);
    lemma_count_run(f, -256, 89, 90, false);
    lemma_count_run(f, -256, 90, 117, true);
    lemma_count_run(f, -256, 117, 118, false);
    lemma_count_run(f, -256, 118, 127, true);
    lemma_count_run(f, -256, 127, 130, false);
    lemma_count_run(f, -256, 130, 139, true);
    lemma_count_run(f, -256, 139, 140, false);
    lemma_count_run(f, -256, 140, 167, true);
    lemma_count_run(f, -256, 167, 168, false);
    lemma_count_run(f, -256, 168, 203, true);
    lemma_count_run(f, -256, 203, 204, false);
    lemma_count_run(f, -256, 204, 231, true);
    lemma_count_run(f, -256, 231, 232, false);
    lemma_count_run(f, -256, 232, 251, true);
    lemma_count_run(f, -256, 251, 255, false);
}

} // verus!
