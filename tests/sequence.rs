use proton_cli::sequence::ChannelData;
use proton_cli::layout::Fixture;
use proton_cli::{Error, Layout, Sequence};

fn layout16() -> Layout {
    let fixtures = vec![
        Fixture { fixid: 1, num_channels: 3 },
        Fixture { fixid: 2, num_channels: 13 },
    ];
    Layout::new(7, fixtures).unwrap()
}

fn show1() -> Sequence {
    Sequence::new(1, "show1", "a.mp3", 125, None, &layout16(), 16).expect("valid sequence")
}

#[test]
fn default_frame_duration_gives_2500_frames() {
    let s = show1();
    assert_eq!(s.seqid, 0);
    assert_eq!(s.name, "show1");
    assert_eq!(s.music_file_name, "a.mp3");
    assert_eq!(s.music_duration_sec, 125);
    assert_eq!(s.frame_duration_ms, 50);
    assert_eq!(s.num_frames, 2500);
    assert_eq!(s.layout_id, 7);
}

#[test]
fn frame_count_rounds_up() {
    let s = Sequence::new(1, "x", "m.mp3", 1, Some(30), &layout16(), 16).unwrap();
    // 1000 / 30 = 33.33 -> 34 frames
    assert_eq!(s.num_frames, 34);
    assert!(s.num_frames * 30 >= 1000);
    assert!((s.num_frames - 1) * 30 < 1000);
}

#[test]
fn frame_count_exact_division() {
    let s = Sequence::new(1, "x", "m.mp3", 3, Some(25), &layout16(), 16).unwrap();
    assert_eq!(s.num_frames, 120);
}

#[test]
fn zero_duration_has_no_frames() {
    let s = Sequence::new(1, "x", "m.mp3", 0, Some(40), &layout16(), 16).unwrap();
    assert_eq!(s.num_frames, 0);
}

#[test]
fn short_frame_durations_are_refused() {
    for f in 0..25u32 {
        match Sequence::new(1, "x", "m.mp3", 10, Some(f), &layout16(), 16) {
            Err(Error::InvalidFrameDuration(v)) => assert_eq!(v, f),
            other => panic!("unexpected result for {}: {:?}", f, other.map(|s| s.num_frames)),
        }
    }
    assert!(Sequence::new(1, "x", "m.mp3", 10, Some(25), &layout16(), 16).is_ok());
}

#[test]
fn section_key_is_name_and_index() {
    let s = show1();
    assert_eq!(s.get_section_path(0).unwrap(), "show1_section0");
    assert_eq!(s.get_section_path(2).unwrap(), "show1_section2");
}

#[test]
fn section_beyond_frames_is_refused() {
    let s = show1();
    // 2500 frames span three sections of 1000 frames
    assert!(matches!(s.get_section_path(3), Err(Error::InvalidSequenceSection(3))));
    assert!(matches!(s.get_section_path(4000000000), Err(Error::InvalidSequenceSection(4000000000))));
}

#[test]
fn first_and_last_offsets_are_valid() {
    let s = show1();
    let l = layout16();
    assert!(s.check_channel_address(&l, 0, 0).is_ok());
    assert!(s.check_channel_address(&l, 15, 2499).is_ok());
}

#[test]
fn offset_past_last_frame_is_out_of_bounds() {
    let s = show1();
    let l = layout16();
    assert!(matches!(s.check_channel_address(&l, 0, 2500), Err(Error::OffsetOutOfBounds(2500, 2499))));
    assert!(matches!(
        s.check_channel_address(&l, 0, u32::MAX),
        Err(Error::OffsetOutOfBounds(4294967295, 2499))
    ));
}

#[test]
fn channel_outside_layout_is_not_found() {
    let s = show1();
    let l = layout16();
    assert!(matches!(s.check_channel_address(&l, 16, 0), Err(Error::ChannelNotFound(16))));
}

#[test]
fn recorded_values_are_returned() {
    let mut s = show1();
    s.seqid = 4;
    let l = layout16();
    let records = vec![
        ChannelData { chanid: 3, values: vec![10, 20, 30] },
        ChannelData { chanid: 5, values: vec![1, 2] },
        ChannelData { chanid: 3, values: vec![99, 99, 99, 99] },
    ];
    assert_eq!(s.get_channel_value(&l, 3, 2, &records).unwrap(), 30);
    assert_eq!(s.get_channel_value(&l, 5, 0, &records).unwrap(), 1);
    assert!(matches!(s.get_channel_value(&l, 3, 3, &records), Err(Error::ChannelDataNotFound(4, 3))));
    assert!(matches!(s.get_channel_value(&l, 6, 0, &records), Err(Error::ChannelDataNotFound(4, 6))));
    assert!(matches!(s.get_channel_value(&l, 16, 0, &records), Err(Error::ChannelNotFound(16))));
    assert!(matches!(
        s.get_channel_value(&l, 3, 2500, &records),
        Err(Error::OffsetOutOfBounds(2500, 2499))
    ));
}
