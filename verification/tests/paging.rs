use hexed::file_source::{FileWatcher, ReadError, ReadOutcome};

/// Bytes page `pn` holds when the file on disk holds `disk`.
fn page_of_disk(disk: &[u8], page_size: usize, pn: usize) -> Vec<u8> {
    let lo = (pn * page_size).min(disk.len());
    let hi = ((pn + 1) * page_size).min(disk.len());
    disk[lo..hi].to_vec()
}

#[test]
fn page_math() {
    let w = FileWatcher::with_page_size(16);
    assert_eq!(w.page_size(), 16);
    assert_eq!(w.index_to_page_number(0), 0);
    assert_eq!(w.index_to_page_number(15), 0);
    assert_eq!(w.index_to_page_number(16), 1);
    assert_eq!(w.index_to_page_number(35), 2);
    assert_eq!(w.offset_in_page(0), 0);
    assert_eq!(w.offset_in_page(15), 15);
    assert_eq!(w.offset_in_page(16), 0);
    assert_eq!(w.offset_in_page(35), 3);
}

#[test]
fn os_page_size_accessor() {
    let w = FileWatcher::new();
    assert!(w.page_size() >= 1);
    assert!(w.active_path().is_none());
    assert_eq!(w.cached_page_count(), 0);
}

#[test]
fn cross_page_request_fails_and_touches_nothing() {
    let disk: Vec<u8> = (0u8..100).collect();
    let mut w = FileWatcher::with_page_size(16);
    w.insert_page(0, page_of_disk(&disk, 16, 0));
    let mut buf = vec![0xAAu8; 32];
    let r = w.get_range_within_page(3, 20, disk.len(), &mut buf);
    assert_eq!(r, ReadOutcome::Failed(ReadError::CrossPageRequest));
    assert_eq!(buf, vec![0xAAu8; 32]);
    assert_eq!(w.cached_page_count(), 1);
}

#[test]
fn out_of_range_start_past_end_of_file() {
    let mut w = FileWatcher::with_page_size(16);
    let mut buf = vec![0u8; 16];
    let r = w.get_range_within_page(10, 12, 10, &mut buf);
    assert_eq!(r, ReadOutcome::Failed(ReadError::OutOfRange));
}

#[test]
fn out_of_range_start_past_end_of_range() {
    let mut w = FileWatcher::with_page_size(16);
    w.insert_page(0, vec![1, 2, 3, 4]);
    let mut buf = vec![0u8; 16];
    let r = w.get_range_within_page(3, 2, 4, &mut buf);
    assert_eq!(r, ReadOutcome::Failed(ReadError::OutOfRange));
}

#[test]
fn uncached_page_is_asked_for() {
    let mut w = FileWatcher::with_page_size(16);
    let mut buf = vec![0u8; 16];
    let r = w.get_range_within_page(35, 40, 100, &mut buf);
    assert_eq!(r, ReadOutcome::NeedPage(2));
    assert_eq!(buf, vec![0u8; 16]);
}

#[test]
fn buffer_too_small_fails_and_touches_nothing() {
    let disk: Vec<u8> = (0u8..100).collect();
    let mut w = FileWatcher::with_page_size(16);
    w.insert_page(0, page_of_disk(&disk, 16, 0));
    let mut buf = vec![0x55u8; 3];
    let r = w.get_range_within_page(0, 8, disk.len(), &mut buf);
    assert_eq!(r, ReadOutcome::Failed(ReadError::BufferTooSmall));
    assert_eq!(buf, vec![0x55u8; 3]);
}

#[test]
fn cached_read_returns_the_file_bytes() {
    let disk: Vec<u8> = (0u8..100).collect();
    let mut w = FileWatcher::with_page_size(16);
    w.insert_page(2, page_of_disk(&disk, 16, 2));
    let mut buf = vec![0u8; 16];
    let r = w.get_range_within_page(35, 41, disk.len(), &mut buf);
    assert_eq!(r, ReadOutcome::Filled(6));
    assert_eq!(&buf[..6], &[35, 36, 37, 38, 39, 40]);
    assert_eq!(&buf[6..], &[0u8; 10]);
}

#[test]
fn read_to_end_of_short_final_page_is_cut_not_failed() {
    let disk: Vec<u8> = (0u8..10).collect();
    let mut w = FileWatcher::with_page_size(8);
    w.insert_page(1, page_of_disk(&disk, 8, 1));
    let mut buf = vec![0u8; 8];
    // the final page holds bytes 8 and 9 only; a request for [8, 14) is
    // answered with the two bytes that exist
    let r = w.get_range_within_page(8, 14, disk.len(), &mut buf);
    assert_eq!(r, ReadOutcome::Filled(2));
    assert_eq!(&buf[..2], &[8, 9]);
}

#[test]
fn empty_range_reads_zero_bytes() {
    let disk: Vec<u8> = (0u8..100).collect();
    let mut w = FileWatcher::with_page_size(16);
    w.insert_page(0, page_of_disk(&disk, 16, 0));
    let mut buf: Vec<u8> = Vec::new();
    let r = w.get_range_within_page(5, 5, disk.len(), &mut buf);
    assert_eq!(r, ReadOutcome::Filled(0));
}
