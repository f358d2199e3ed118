use csi::ieee80211::{Band, Bandwidth};
use csi::params::{bands, ChanSpec, ParseChanSpecError};

#[test]
fn chanspec_channel_lo() {
    let cs = ChanSpec::new(100, Band::Band5G, Bandwidth::Bw80).unwrap();
    assert_eq!(cs.center(), 106);
    assert_eq!(cs.channel_lo_20mhz(), 100);

    let cs = ChanSpec::new(120, Band::Band5G, Bandwidth::Bw160).unwrap();
    assert_eq!(cs.center(), 114);
    assert_eq!(cs.channel_lo_20mhz(), 100);

    let cs = ChanSpec::new(136, Band::Band5G, Bandwidth::Bw40).unwrap();
    assert_eq!(cs.center(), 134);
    assert_eq!(cs.channel_lo_20mhz(), 132);
}

#[test]
fn chan_spec() {
    assert_eq!(
        ChanSpec::new(36, Band::Band5G, Bandwidth::Bw40)
            .unwrap()
            .as_u16(),
        0xd826
    );
}

#[test]
fn chan_spec_into_u16() {
    let cs = ChanSpec::new(36, Band::Band5G, Bandwidth::Bw40).unwrap();
    assert_eq!(u16::from(cs), 0xd826);
    assert_eq!(cs.center(), 38);
    assert_eq!(cs.sideband(), 0);
    assert_eq!(cs.band(), Band::Band5G);
    assert_eq!(cs.bandwidth(), Bandwidth::Bw40);
}

#[test]
fn bands_of_20mhz_is_the_channel() {
    for ch in [0u8, 1, 36, 165, 255] {
        assert_eq!(bands(ch, Bandwidth::Bw20), Some((ch, 0)));
    }
}

#[test]
fn bands_sidebands() {
    assert_eq!(bands(36, Bandwidth::Bw40), Some((38, 0)));
    assert_eq!(bands(40, Bandwidth::Bw40), Some((38, 1)));
    assert_eq!(bands(161, Bandwidth::Bw40), Some((159, 1)));
    assert_eq!(bands(36, Bandwidth::Bw80), Some((42, 0)));
    assert_eq!(bands(48, Bandwidth::Bw80), Some((42, 3)));
    assert_eq!(bands(149, Bandwidth::Bw80), Some((155, 0)));
    assert_eq!(bands(36, Bandwidth::Bw160), Some((50, 0)));
    assert_eq!(bands(64, Bandwidth::Bw160), Some((50, 7)));
    assert_eq!(bands(120, Bandwidth::Bw160), Some((114, 5)));
}

#[test]
fn bands_rejects_channels_outside_the_tables() {
    assert_eq!(bands(0, Bandwidth::Bw40), None);
    assert_eq!(bands(35, Bandwidth::Bw40), None);
    assert_eq!(bands(37, Bandwidth::Bw40), None);
    assert_eq!(bands(44, Bandwidth::Bw40), Some((46, 0)));
    assert_eq!(bands(68, Bandwidth::Bw40), None);
    assert_eq!(bands(165, Bandwidth::Bw40), None);
    assert_eq!(bands(52, Bandwidth::Bw80), Some((58, 0)));
    assert_eq!(bands(68, Bandwidth::Bw80), None);
    assert_eq!(bands(255, Bandwidth::Bw160), None);
    assert_eq!(bands(68, Bandwidth::Bw160), None);
    assert!(ChanSpec::new(37, Band::Band5G, Bandwidth::Bw40).is_none());
}

#[test]
fn decode_reads_every_field() {
    let cs = ChanSpec::decode(0xd826).unwrap();
    assert_eq!(cs.center(), 38);
    assert_eq!(cs.sideband(), 0);
    assert_eq!(cs.band(), Band::Band5G);
    assert_eq!(cs.bandwidth(), Bandwidth::Bw40);

    let cs = ChanSpec::decode(0x1000 | 0x0300 | 11).unwrap();
    assert_eq!(cs.center(), 11);
    assert_eq!(cs.sideband(), 3);
    assert_eq!(cs.band(), Band::Band2G);
    assert_eq!(cs.bandwidth(), Bandwidth::Bw20);

    let cs = ChanSpec::try_from(0xc000 | 0x2800 | 50).unwrap();
    assert_eq!(cs.bandwidth(), Bandwidth::Bw160);
    let cs = ChanSpec::try_from(0xc000 | 0x2000 | 42).unwrap();
    assert_eq!(cs.bandwidth(), Bandwidth::Bw80);
}

#[test]
fn decode_errors() {
    for code in [0x0000u16, 0x0800, 0x3000, 0x3800] {
        assert_eq!(
            ChanSpec::decode(0xc000 | code | 36),
            Err(ParseChanSpecError::InvalidBandwidth)
        );
    }
    assert_eq!(
        ChanSpec::decode(0x4000 | 0x1000 | 36),
        Err(ParseChanSpecError::InvalidBand)
    );
    assert_eq!(
        ChanSpec::decode(0x8000 | 0x1800 | 36),
        Err(ParseChanSpecError::InvalidBand)
    );
    // the 2.4 GHz band has no 80 or 160 MHz channels
    assert_eq!(
        ChanSpec::decode(0x2000 | 42),
        Err(ParseChanSpecError::InvalidBandwidth)
    );
    assert_eq!(
        ChanSpec::decode(0x2800 | 50),
        Err(ParseChanSpecError::InvalidBandwidth)
    );
    // an unknown bandwidth is reported before an unknown band
    assert_eq!(
        ChanSpec::decode(0x4000),
        Err(ParseChanSpecError::InvalidBandwidth)
    );
    assert_eq!(
        ParseChanSpecError::InvalidBandwidth.to_string(),
        "invalid bandwidth"
    );
    assert_eq!(ParseChanSpecError::InvalidBand.to_string(), "invalid band");
}

#[test]
fn encode_then_decode_gives_the_chanspec_back() {
    for bandwidth in [Bandwidth::Bw20, Bandwidth::Bw40, Bandwidth::Bw80] {
        for channel in 0u8..=255 {
            if let Some(cs) = ChanSpec::new(channel, Band::Band5G, bandwidth) {
                assert_eq!(ChanSpec::decode(cs.as_u16()), Ok(cs));
            }
        }
    }
    for bandwidth in [Bandwidth::Bw20, Bandwidth::Bw40] {
        for channel in 0u8..=255 {
            if let Some(cs) = ChanSpec::new(channel, Band::Band2G, bandwidth) {
                assert_eq!(ChanSpec::decode(cs.as_u16()), Ok(cs));
            }
        }
    }
    for channel in 0u8..=255 {
        if let Some(cs) = ChanSpec::new(channel, Band::Band5G, Bandwidth::Bw160) {
            if cs.sideband() < 4 {
                assert_eq!(ChanSpec::decode(cs.as_u16()), Ok(cs));
            } else {
                assert_ne!(ChanSpec::decode(cs.as_u16()), Ok(cs));
            }
        }
    }
}

#[test]
fn try_from_decodes_as_decode_does() {
    assert_eq!(
        ChanSpec::try_from(0x202a),
        Err(ParseChanSpecError::InvalidBandwidth)
    );
    assert_eq!(
        ChanSpec::try_from(0x4000 | 0x1000 | 36),
        Err(ParseChanSpecError::InvalidBand)
    );
    let cs = ChanSpec::try_from(0xd826).unwrap();
    assert_eq!(cs.center(), 38);
    assert_eq!(cs.sideband(), 0);
    assert_eq!(cs.band(), Band::Band5G);
    assert_eq!(cs.bandwidth(), Bandwidth::Bw40);
    for value in 0u16..=u16::MAX {
        assert_eq!(ChanSpec::try_from(value), ChanSpec::decode(value));
    }
}
