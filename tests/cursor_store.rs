use tarjousbot::crawl::Checkpoint;
use tarjousbot::cursor::{decode_record, encode_record, CursorStore};

#[test]
fn absent_records_are_unset() {
    let store = CursorStore { last_page: None, last_post: None };
    assert_eq!(store.get_last_page(), None);
    assert_eq!(store.get_last_sent_post(), None);
}

#[test]
fn short_record_is_unset() {
    assert_eq!(decode_record(&Some(vec![1, 2, 3])), None);
    assert_eq!(decode_record(&Some(vec![])), None);
}

#[test]
fn records_are_little_endian() {
    assert_eq!(decode_record(&Some(vec![0x78, 0x56, 0x34, 0x12])), Some(0x1234_5678));
    assert_eq!(decode_record(&Some(vec![1, 0, 0, 0, 9])), Some(1));
    assert_eq!(encode_record(0x1234_5678), vec![0x78, 0x56, 0x34, 0x12]);
    assert_eq!(encode_record(u32::MAX), vec![255, 255, 255, 255]);
}

#[test]
fn set_replaces_record() {
    let mut store = CursorStore { last_page: Some(vec![9, 9, 9, 9]), last_post: None };
    store.set_last_page(42);
    assert_eq!(store.get_last_page(), Some(42));
    assert_eq!(store.get_last_sent_post(), None);
    store.set_last_sent_post(7);
    assert_eq!(store.get_last_sent_post(), Some(7));
    assert_eq!(store.last_post, Some(vec![7, 0, 0, 0]));
}

#[test]
fn save_then_load() {
    let mut store = CursorStore { last_page: None, last_post: None };
    store.save(&Checkpoint { page: 12, last_sent_id: 300 });
    let cursor = store.load();
    assert_eq!(cursor.last_page, Some(12));
    assert_eq!(cursor.last_sent_id, Some(300));
}
