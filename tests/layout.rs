use proton_cli::layout::Fixture;
use proton_cli::{Error, Layout};

fn rig() -> Layout {
    let fixtures = vec![
        Fixture { fixid: 10, num_channels: 3 },
        Fixture { fixid: 11, num_channels: 0 },
        Fixture { fixid: 12, num_channels: 5 },
    ];
    Layout::new(2, fixtures).unwrap()
}

#[test]
fn channel_count_is_sum_of_fixtures() {
    let l = rig();
    assert_eq!(l.layout_id, 2);
    assert_eq!(l.num_channels, 8);
    assert_eq!(l.fixtures.len(), 3);
}

#[test]
fn channels_map_to_their_fixture() {
    let l = rig();
    assert_eq!(l.fixture_of_channel(0).unwrap(), 10);
    assert_eq!(l.fixture_of_channel(2).unwrap(), 10);
    assert_eq!(l.fixture_of_channel(3).unwrap(), 12);
    assert_eq!(l.fixture_of_channel(7).unwrap(), 12);
    assert!(matches!(l.fixture_of_channel(8), Err(Error::ChannelNotFound(8))));
}

#[test]
fn fixtures_have_contiguous_runs() {
    let l = rig();
    assert_eq!(l.fixture_channels(10).unwrap(), (0, 3));
    assert_eq!(l.fixture_channels(11).unwrap(), (3, 0));
    assert_eq!(l.fixture_channels(12).unwrap(), (3, 5));
    assert!(matches!(l.fixture_channels(13), Err(Error::FixtureNotFound(13))));
}

#[test]
fn invalid_layouts_are_refused() {
    let dup = vec![Fixture { fixid: 1, num_channels: 1 }, Fixture { fixid: 1, num_channels: 2 }];
    assert!(matches!(Layout::new(1, dup), Err(Error::InvalidLayout(_))));
    let big = vec![
        Fixture { fixid: 1, num_channels: u32::MAX },
        Fixture { fixid: 2, num_channels: 1 },
    ];
    assert!(matches!(Layout::new(1, big), Err(Error::InvalidLayout(_))));
    let full = vec![Fixture { fixid: 1, num_channels: u32::MAX }];
    assert_eq!(Layout::new(1, full).unwrap().num_channels, u32::MAX);
    assert_eq!(Layout::new(1, vec![]).unwrap().num_channels, 0);
}
