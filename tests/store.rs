use proton_cli::store::SequenceStore;
use proton_cli::layout::Fixture;
use proton_cli::{Error, Layout, Sequence};

fn seq(name: &str, duration: u32) -> Sequence {
    let layout = Layout::new(1, vec![Fixture { fixid: 9, num_channels: 4 }]).unwrap();
    Sequence::new(1, name, "song.mp3", duration, None, &layout, 4).unwrap()
}

#[test]
fn inserts_assign_ids_in_order() {
    let mut store = SequenceStore::new();
    assert_eq!(store.insert_sequence(seq("a", 10)).unwrap(), 1);
    assert_eq!(store.insert_sequence(seq("b", 20)).unwrap(), 2);
    assert_eq!(store.len(), 2);
    assert_eq!(store.get_sequence(2).unwrap().name, "b");
    assert!(matches!(store.get_sequence(0), Err(Error::SequenceNotFound(0))));
    assert!(matches!(store.get_sequence(3), Err(Error::SequenceNotFound(3))));
}

#[test]
fn duplicate_name_is_refused_and_first_kept() {
    let mut store = SequenceStore::new();
    let id = store.insert_sequence(seq("show1", 125)).unwrap();
    match store.insert_sequence(seq("show1", 60)) {
        Err(Error::DuplicateSequence(name)) => assert_eq!(name, "show1"),
        _ => panic!("second insert must fail"),
    }
    assert_eq!(store.len(), 1);
    let first = store.get_sequence(id).unwrap();
    assert_eq!(first.seqid, id);
    assert_eq!(first.music_duration_sec, 125);
    assert_eq!(first.num_frames, 2500);
    let found = store.find_by_name(&"show1".to_string()).unwrap();
    assert_eq!(found.music_duration_sec, 125);
    assert!(store.find_by_name(&"other".to_string()).is_none());
}
