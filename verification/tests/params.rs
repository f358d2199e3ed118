use csi::ieee80211::{Band, Bandwidth};
use csi::params::{default_delay_us, ChanSpec, Cores, Params, SpatialStreams};

fn params() -> Params {
    Params {
        chan_spec: ChanSpec::new(36, Band::Band5G, Bandwidth::Bw40).unwrap(),
        csi_collect: true,
        cores: Cores::core0().union(Cores::core2()),
        spatial_streams: SpatialStreams::s0()
            .union(SpatialStreams::s1())
            .union(SpatialStreams::s2()),
        first_pkt_byte: None,
        mac_addrs: vec![],
        delay_us: 0,
    }
}

#[test]
fn params_it_works() {
    let params = Params {
        chan_spec: ChanSpec::new(36, Band::Band5G, Bandwidth::Bw40).unwrap(),
        csi_collect: true,
        cores: Cores::from_bits_truncate(0x5),
        spatial_streams: SpatialStreams::from_bits_truncate(0x7),
        first_pkt_byte: None,
        mac_addrs: vec![],
        delay_us: 0,
    };

    assert_eq!(
        // (&["makecsiparams", "-c", "36/40", "-C", "0x5", "-N", "0x7"]),
        params.to_string(),
        "JtgBdQAAAAAAAAAAAAAAAAAAAAAAAAAAAAAAAAAAAAAAAA=="
    );
}

#[test]
fn params_bytes() {
    let mut expected = [0u8; 34];
    expected[0] = 0x26;
    expected[1] = 0xd8;
    expected[2] = 1;
    expected[3] = 0x75;
    assert_eq!(params().to_bytes(), expected);
}

#[test]
fn params_bytes_with_every_field() {
    let params = Params {
        chan_spec: ChanSpec::new(100, Band::Band5G, Bandwidth::Bw80).unwrap(),
        csi_collect: false,
        cores: Cores::from_bits_truncate(0xff),
        spatial_streams: SpatialStreams::s3(),
        first_pkt_byte: Some(0x88),
        mac_addrs: vec![
            [0x50, 0xed, 0x3c, 0x2e, 0x04, 0x00],
            [1, 2, 3, 4, 5, 6],
            [7, 8, 9, 10, 11, 12],
            [0xff, 0xfe, 0xfd, 0xfc, 0xfb, 0xfa],
        ],
        delay_us: 0x1234,
    };
    let expected: [u8; 34] = [
        0x6a, 0xe0, 0, 0x8f, 1, 0x88, 4, 0, 0x50, 0xed, 0x3c, 0x2e, 0x04, 0x00, 1, 2, 3, 4, 5, 6,
        7, 8, 9, 10, 11, 12, 0xff, 0xfe, 0xfd, 0xfc, 0xfb, 0xfa, 0x34, 0x12,
    ];
    assert_eq!(params.to_bytes(), expected);
    assert_eq!(
        params.to_string(),
        "auAAjwGIBABQ7TwuBAABAgMEBQYHCAkKCwz//v38+/o0Eg=="
    );
}

#[test]
fn params_bytes_with_one_address() {
    let mut p = params();
    p.mac_addrs = vec![[0xaa, 0xbb, 0xcc, 0xdd, 0xee, 0xff]];
    p.delay_us = 50;
    let bytes = p.to_bytes();
    assert_eq!(bytes[6], 1);
    assert_eq!(bytes[7], 0);
    assert_eq!(&bytes[8..14], &[0xaa, 0xbb, 0xcc, 0xdd, 0xee, 0xff]);
    assert_eq!(&bytes[14..32], &[0u8; 18]);
    assert_eq!(bytes[32], 50);
    assert_eq!(bytes[33], 0);
}

#[test]
fn flags() {
    assert_eq!(Cores::core0().bits(), 0b0001);
    assert_eq!(Cores::core1().bits(), 0b0010);
    assert_eq!(Cores::core2().bits(), 0b0100);
    assert_eq!(Cores::core3().bits(), 0b1000);
    assert_eq!(SpatialStreams::s0().bits(), 0b0001);
    assert_eq!(SpatialStreams::s1().bits(), 0b0010);
    assert_eq!(SpatialStreams::s2().bits(), 0b0100);
    assert_eq!(SpatialStreams::s3().bits(), 0b1000);
    assert_eq!(Cores::from_bits_truncate(0xf5).bits(), 0x05);
    assert_eq!(SpatialStreams::from_bits_truncate(0x1f).bits(), 0x0f);
    assert_eq!(
        Cores::core0().union(Cores::core1()).union(Cores::core3()).bits(),
        0b1011
    );
    assert_eq!(Cores::core0().union(Cores::core2()), Cores::from_bits_truncate(5));
}

#[test]
fn default_delay() {
    let all_cores = Cores::from_bits_truncate(0xf);
    let all_streams = SpatialStreams::from_bits_truncate(0xf);
    let three_cores = Cores::from_bits_truncate(0b1011);
    let three_streams = SpatialStreams::from_bits_truncate(0b0111);
    let two_streams = SpatialStreams::from_bits_truncate(0b0101);
    assert_eq!(default_delay_us(all_cores, all_streams), 50);
    assert_eq!(default_delay_us(three_cores, all_streams), 50);
    assert_eq!(default_delay_us(all_cores, three_streams), 50);
    assert_eq!(default_delay_us(three_cores, three_streams), 0);
    assert_eq!(default_delay_us(all_cores, two_streams), 0);
    assert_eq!(
        default_delay_us(Cores::from_bits_truncate(0), all_streams),
        0
    );
    assert_eq!(default_delay_us(Cores::core0(), SpatialStreams::s0()), 0);
}
