use exposure_estimate::exposure::{ExifReading, RawRational};
use exposure_estimate::scan::{is_jpeg_extension, report_file, select_candidates, FileReport};

fn ext(s: &str) -> Option<Vec<u8>> {
    Some(s.as_bytes().to_vec())
}

fn good_reading() -> ExifReading {
    ExifReading {
        exposure_time: Some(RawRational { numer: 1, denom: 125 }),
        iso_speed: Some(100),
        measured_ev: Some(160),
        shutter_speed_value: Some(RawRational { numer: 7, denom: 1 }),
        f_number: None,
        flash: 0,
    }
}

#[test]
fn jpeg_extension_in_any_case() {
    assert!(is_jpeg_extension(Some(b"jpg")));
    assert!(is_jpeg_extension(Some(b"JPG")));
    assert!(is_jpeg_extension(Some(b"Jpg")));
    assert!(is_jpeg_extension(Some(b"jPg")));
    assert!(!is_jpeg_extension(Some(b"png")));
    assert!(!is_jpeg_extension(Some(b"jpeg")));
    assert!(!is_jpeg_extension(Some(b"jp")));
    assert!(!is_jpeg_extension(Some(b"")));
    assert!(!is_jpeg_extension(None));
}

#[test]
fn only_jpeg_entries_are_selected() {
    let entries = vec![ext("JPG"), ext("png"), None, ext("Jpg"), ext("txt"), ext("jpg")];
    assert_eq!(select_candidates(&entries), vec![0, 3, 5]);
    let entries = vec![ext("png"), ext("gif")];
    assert_eq!(select_candidates(&entries).len(), 0);
}

#[test]
fn empty_directory_selects_nothing() {
    let entries: Vec<Option<Vec<u8>>> = Vec::new();
    assert!(select_candidates(&entries).is_empty());
}

#[test]
fn unreadable_file_is_skipped_and_scan_goes_on() {
    let entries = vec![ext("jpg"), ext("jpg")];
    let readings = vec![None, Some(good_reading())];
    let reports: Vec<FileReport> = select_candidates(&entries)
        .into_iter()
        .map(|i| report_file(readings[i].as_ref()))
        .collect();
    assert_eq!(reports.len(), 2);
    assert_eq!(reports[0], FileReport::Skipped);
    match reports[1] {
        FileReport::Estimated { exposure, from_ev, from_tv } => {
            assert_eq!(exposure.iso, 100);
            assert!(from_ev.is_some());
            assert!(from_tv.is_some());
        }
        FileReport::Skipped => panic!("a readable file was skipped"),
    }
}

#[test]
fn missing_required_field_is_skipped() {
    let mut m = good_reading();
    m.iso_speed = None;
    assert_eq!(report_file(Some(&m)), FileReport::Skipped);
}
