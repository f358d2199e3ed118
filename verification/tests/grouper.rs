use csi::frame::{Chip, Frame, Sample};
use csi::ieee80211::{Band, Bandwidth};
use csi::params::ChanSpec;
use csi::proc::{aoa_inputs, tof_inputs, FrameGrouper, WifiCsi};

fn values(tag: i32) -> Vec<Sample> {
    (0..64)
        .map(|i| Sample { re: tag, im: i, exponent: 0 })
        .collect()
}

fn frame(seq_cnt: u16, core: u8, spatial: u8, tag: i32) -> Frame {
    Frame {
        rssi: -40 - tag as i8,
        frame_control: 0,
        source_mac: [0, 1, 2, 3, 4, 5],
        seq_cnt,
        core,
        spatial,
        chan_spec: ChanSpec::new(36 + 4 * (tag as u8 % 2), Band::Band5G, Bandwidth::Bw20).unwrap(),
        chip: Chip::Bcm4366c0,
        csi: values(tag),
    }
}

fn populated(group: &WifiCsi) -> Vec<(usize, usize)> {
    let mut slots = vec![];
    for core in 0..4 {
        for spatial in 0..4 {
            if group.get(core, spatial).is_some() {
                slots.push((core, spatial));
            }
        }
    }
    slots
}

#[test]
fn groups_by_sequence_number() {
    let mut grouper = FrameGrouper::new();
    assert_eq!(grouper.seq_cnt(), None);
    assert!(grouper.add(frame(1, 0, 0, 1)).is_none());
    assert_eq!(grouper.seq_cnt(), Some(1));
    assert!(grouper.add(frame(1, 3, 0, 2)).is_none());
    assert!(grouper.add(frame(1, 1, 2, 3)).is_none());

    let group = grouper.add(frame(2, 2, 1, 4)).unwrap();
    assert_eq!(populated(&group), vec![(0, 0), (1, 2), (3, 0)]);
    assert_eq!(group.get(0, 0), Some(&values(1)));
    assert_eq!(group.get(3, 0), Some(&values(2)));
    assert_eq!(group.get(1, 2), Some(&values(3)));
    assert_eq!(grouper.seq_cnt(), Some(2));

    let group = grouper.take().unwrap();
    assert_eq!(populated(&group), vec![(2, 1)]);
    assert_eq!(group.get(2, 1), Some(&values(4)));
    assert_eq!(grouper.seq_cnt(), None);
    assert!(grouper.take().is_none());
}

#[test]
fn take_of_a_new_grouper_is_none() {
    let mut grouper = FrameGrouper::new();
    assert!(grouper.take().is_none());
    assert!(grouper.take().is_none());
    let mut grouper = FrameGrouper::default();
    assert!(grouper.take().is_none());
}

#[test]
fn group_keeps_what_its_first_frame_said() {
    let mut grouper = FrameGrouper::new();
    assert!(grouper.add(frame(7, 0, 0, 1)).is_none());
    assert!(grouper.add(frame(7, 1, 0, 2)).is_none());
    let group = grouper.take().unwrap();
    assert_eq!(group.rssi, -41);
    assert_eq!(group.rssi(), -41);
    assert_eq!(group.chan_spec.center(), 40);
    assert_eq!(group.chan_spec().center(), 40);
}

#[test]
fn last_write_to_a_slot_wins() {
    let mut grouper = FrameGrouper::new();
    assert!(grouper.add(frame(7, 2, 3, 1)).is_none());
    assert!(grouper.add(frame(7, 2, 3, 2)).is_none());
    let group = grouper.take().unwrap();
    assert_eq!(populated(&group), vec![(2, 3)]);
    assert_eq!(group.get(2, 3), Some(&values(2)));
    assert!(!group.is_empty());
    assert!(group.frames()[2][3].is_some());
    assert!(group.frames()[3][2].is_none());
}

#[test]
fn a_sequence_number_that_comes_back_starts_a_new_group() {
    let mut grouper = FrameGrouper::new();
    assert!(grouper.add(frame(1, 0, 0, 1)).is_none());
    let first = grouper.add(frame(2, 1, 0, 2)).unwrap();
    assert_eq!(populated(&first), vec![(0, 0)]);
    let second = grouper.add(frame(1, 2, 0, 3)).unwrap();
    assert_eq!(populated(&second), vec![(1, 0)]);
    assert_eq!(second.rssi, -42);
    let third = grouper.take().unwrap();
    assert_eq!(populated(&third), vec![(2, 0)]);
}

#[test]
fn a_full_group_holds_sixteen_frames() {
    let mut grouper = FrameGrouper::new();
    for core in 0..4u8 {
        for spatial in 0..4u8 {
            assert!(grouper
                .add(frame(9, core, spatial, (4 * core + spatial) as i32))
                .is_none());
        }
    }
    let group = grouper.take().unwrap();
    assert_eq!(populated(&group).len(), 16);
    for core in 0..4usize {
        for spatial in 0..4usize {
            assert_eq!(
                group.get(core, spatial),
                Some(&values((4 * core + spatial) as i32))
            );
        }
    }
}

#[test]
fn angle_of_arrival_needs_three_antennas() {
    let mut grouper = FrameGrouper::new();
    grouper.add(frame(1, 0, 0, 10));
    grouper.add(frame(1, 1, 0, 11));
    grouper.add(frame(1, 2, 0, 12));
    grouper.add(frame(1, 3, 1, 13));
    let group = grouper.add(frame(2, 0, 0, 20)).unwrap();
    assert!(aoa_inputs(&group).is_none());

    grouper.add(frame(2, 3, 0, 23));
    grouper.add(frame(2, 1, 0, 21));
    let group = grouper.take().unwrap();
    let (right, center, left) = aoa_inputs(&group).unwrap();
    assert_eq!(right, &values(20));
    assert_eq!(center, &values(23));
    assert_eq!(left, &values(21));
}

#[test]
fn time_of_flight_takes_every_core_that_is_there() {
    let mut grouper = FrameGrouper::new();
    grouper.add(frame(1, 3, 0, 13));
    grouper.add(frame(1, 1, 0, 11));
    grouper.add(frame(1, 2, 1, 12));
    let group = grouper.take().unwrap();
    assert_eq!(tof_inputs(&group), vec![&values(11), &values(13)]);

    let mut grouper = FrameGrouper::new();
    grouper.add(frame(1, 2, 3, 1));
    let group = grouper.take().unwrap();
    assert!(tof_inputs(&group).is_empty());

    let mut grouper = FrameGrouper::new();
    for core in 0..4u8 {
        grouper.add(frame(1, core, 0, core as i32));
    }
    let group = grouper.take().unwrap();
    assert_eq!(
        tof_inputs(&group),
        vec![&values(0), &values(1), &values(2), &values(3)]
    );
}
