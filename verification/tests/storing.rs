use badcqbot::clock::{push_year, zone_time, CivilTime};
use badcqbot::collect::MediaItem;
use badcqbot::store::{Outcome, Placement, StoreRun, Target};
use chrono::{Datelike, TimeZone, Timelike};

const PNG: [u8; 12] = [0x89, 0x50, 0x4E, 0x47, 0x0D, 0x0A, 0x1A, 0x0A, 0, 0, 0, 0];
const JPEG: [u8; 6] = [0xFF, 0xD8, 0xFF, 0xE0, 0, 0];
const NOISE: [u8; 5] = [1, 2, 3, 4, 5];

fn noon() -> CivilTime {
    CivilTime { year: 2021, month: 8, day: 5, hour: 12, minute: 3, second: 9 }
}

fn placement() -> Placement {
    Placement { group: 123, sender: 456, message: 789, sent: noon() }
}

fn items(n: usize) -> Vec<MediaItem> {
    (0..n).map(|i| MediaItem { id: format!("id{}", i), url: format!("http://m/{}", i) }).collect()
}

#[test]
fn path_is_built_from_the_typed_fields() {
    let t = placement().target(3, 1024, "png");
    assert_eq!(
        t,
        Target {
            directory: "store/v2/202108".to_string(),
            path: "store/v2/202108/123_456_789_20210805120309_3_1024.png".to_string(),
        }
    );
}

#[test]
fn path_is_the_same_on_every_invocation() {
    let a = placement().target(0, 77, "jpg");
    let b = placement().target(0, 77, "jpg");
    assert_eq!(a, b);
    assert_ne!(a, placement().target(1, 77, "jpg"));
    assert_ne!(a, placement().target(0, 78, "jpg"));
}

#[test]
fn direct_message_is_placed_under_group_zero() {
    let p = Placement::new(None, 5, Some((6, 0)), noon());
    assert_eq!(p, Placement { group: 0, sender: 5, message: 6, sent: noon() });
    assert_eq!(p.target(0, 1, "gif").path, "store/v2/202108/0_5_6_20210805120309_0_1.gif");
    let q = Placement::new(Some(9), 5, None, noon());
    assert_eq!(q, Placement { group: 9, sender: 5, message: 0, sent: noon() });
}

#[test]
fn content_decides_the_extension() {
    let p = placement();
    assert_eq!(
        p.target_for(2, &PNG).map(|t| t.path),
        Some("store/v2/202108/123_456_789_20210805120309_2_12.png".to_string())
    );
    assert_eq!(
        p.target_for(0, &JPEG).map(|t| t.path),
        Some("store/v2/202108/123_456_789_20210805120309_0_6.jpg".to_string())
    );
    assert_eq!(p.target_for(0, &NOISE), None);
    assert_eq!(p.target_for(0, &[]), None);
}

#[test]
fn years_are_written_as_chrono_writes_them() {
    for year in [-262143, -10000, -9999, -5, 0, 7, 999, 1000, 1970, 9999, 10000, 262142] {
        let day = chrono::NaiveDate::from_ymd_opt(year, 2, 3).unwrap();
        let mut ours = String::new();
        push_year(&mut ours, year);
        assert_eq!(ours, day.format("%Y").to_string());
    }
}

#[test]
fn stamps_are_written_as_chrono_writes_them() {
    for seconds in [0i64, 59, 86399, 951782400, 1628000000, 4102444799, -1, -86400 * 366] {
        let t = chrono::Utc.timestamp_opt(seconds, 0).single().unwrap();
        let sent = CivilTime {
            year: t.year(),
            month: t.month(),
            day: t.day(),
            hour: t.hour(),
            minute: t.minute(),
            second: t.second(),
        };
        assert!(sent.is_valid());
        let target = Placement { group: 1, sender: 2, message: 3, sent }.target(4, 5, "bin");
        assert_eq!(target.directory, t.format("store/v2/%Y%m").to_string());
        assert_eq!(
            target.path,
            t.format("store/v2/%Y%m/1_2_3_%Y%m%d%H%M%S_4_5.bin").to_string()
        );
    }
}




#[test]
fn civil_time_validity() {
    assert!(noon().is_valid());
    assert!(!CivilTime { month: 0, ..noon() }.is_valid());
    assert!(!CivilTime { month: 13, ..noon() }.is_valid());
    assert!(!CivilTime { day: 0, ..noon() }.is_valid());
    assert!(!CivilTime { day: 32, ..noon() }.is_valid());
    assert!(!CivilTime { hour: 24, ..noon() }.is_valid());
    assert!(!CivilTime { minute: 60, ..noon() }.is_valid());
    assert!(!CivilTime { second: 60, ..noon() }.is_valid());
}

#[test]
fn all_pieces_stored_gives_the_full_count() {
    let mut run = StoreRun::new(placement(), items(3));
    let mut paths = Vec::new();
    let mut urls = Vec::new();
    while let Some(item) = run.pending() {
        urls.push(item.url.clone());
        let target = run.target_for(&PNG).unwrap();
        paths.push(target.path);
        run.record(Outcome::Stored);
    }
    assert!(run.finished());
    assert_eq!(run.stored(), 3);
    assert_eq!(urls, vec!["http://m/0", "http://m/1", "http://m/2"]);
    assert_eq!(
        paths,
        vec![
            "store/v2/202108/123_456_789_20210805120309_0_12.png",
            "store/v2/202108/123_456_789_20210805120309_1_12.png",
            "store/v2/202108/123_456_789_20210805120309_2_12.png",
        ]
    );
}

#[test]
fn one_failed_download_costs_exactly_one() {
    let mut run = StoreRun::new(placement(), items(4));
    let mut paths = Vec::new();
    let mut position = 0;
    while run.pending().is_some() {
        if position == 1 {
            run.record(Outcome::DownloadFailed);
        } else {
            paths.push(run.target_for(&JPEG).unwrap().path);
            run.record(Outcome::Stored);
        }
        position += 1;
    }
    assert_eq!(run.stored(), 3);
    assert_eq!(
        run.outcomes(),
        &vec![Outcome::Stored, Outcome::DownloadFailed, Outcome::Stored, Outcome::Stored]
    );
    assert_eq!(
        paths,
        vec![
            "store/v2/202108/123_456_789_20210805120309_0_6.jpg",
            "store/v2/202108/123_456_789_20210805120309_2_6.jpg",
            "store/v2/202108/123_456_789_20210805120309_3_6.jpg",
        ]
    );
}

#[test]
fn every_kind_of_failure_is_passed_over() {
    let mut run = StoreRun::new(placement(), items(5));
    assert_eq!(run.target_for(&NOISE), None);
    run.record(Outcome::Unrecognized);
    run.record(Outcome::DirectoryFailed);
    run.record(Outcome::WriteFailed);
    run.record(Outcome::DownloadFailed);
    assert!(!run.finished());
    assert_eq!(run.stored(), 0);
    run.record(Outcome::Stored);
    assert!(run.finished());
    assert_eq!(run.stored(), 1);
}

#[test]
fn finished_batch_takes_no_more_outcomes() {
    let mut run = StoreRun::new(placement(), items(1));
    run.record(Outcome::Stored);
    run.record(Outcome::Stored);
    assert_eq!(run.stored(), 1);
    assert_eq!(run.outcomes().len(), 1);
    assert!(run.pending().is_none());
    let mut empty = StoreRun::new(placement(), vec![]);
    assert!(empty.finished());
    empty.record(Outcome::Stored);
    assert_eq!(empty.stored(), 0);
}



#[test]
fn count_never_exceeds_the_batch() {
    let mut run = StoreRun::new(placement(), items(2));
    for _ in 0..5 {
        run.record(Outcome::Stored);
        assert!(run.stored() <= run.outcomes().len());
        assert!(run.outcomes().len() <= 2);
    }
    assert_eq!(run.stored(), 2);
}

fn civil<T: Datelike + Timelike>(t: &T) -> CivilTime {
    CivilTime {
        year: t.year(),
        month: t.month(),
        day: t.day(),
        hour: t.hour(),
        minute: t.minute(),
        second: t.second(),
    }
}

#[test]
fn placement_takes_the_time_of_the_source_in_the_zone() {
    let seconds = 1628000000;
    let offset = 8 * 3600;
    let zone = chrono::FixedOffset::east_opt(offset).unwrap();
    let t = zone.timestamp_opt(seconds, 0).single().unwrap();
    let p = Placement::at(Some(11), 22, Some((33, seconds)), 0, offset).unwrap();
    assert_eq!(p, Placement { group: 11, sender: 22, message: 33, sent: civil(&t.naive_local()) });
    assert_eq!(
        p.sent,
        CivilTime { year: 2021, month: 8, day: 3, hour: 22, minute: 13, second: 20 }
    );
    assert_eq!(
        p.target(0, 9, "png").path,
        t.format("store/v2/%Y%m/11_22_33_%Y%m%d%H%M%S_0_9.png").to_string()
    );
}

#[test]
fn placement_without_source_takes_the_fallback_time() {
    let fallback = 951782400;
    let p = Placement::at(None, 22, None, fallback, 0).unwrap();
    assert_eq!(
        p,
        Placement {
            group: 0,
            sender: 22,
            message: 0,
            sent: CivilTime { year: 2000, month: 2, day: 29, hour: 0, minute: 0, second: 0 },
        }
    );
    assert_eq!(p.target(1, 2, "gif").path, "store/v2/200002/0_22_0_20000229000000_1_2.gif");
}

#[test]
fn zone_time_is_the_utc_time_shifted_by_the_offset() {
    for seconds in [0i64, 59, 1628000000, -86400 * 400, 4102444799, -1] {
        for offset in [-86_399, -12 * 3600, -1, 0, 1, 3600, 5 * 3600 + 1800, 86_399] {
            let zone = chrono::FixedOffset::east_opt(offset).unwrap();
            let t = zone.timestamp_opt(seconds, 0).single().unwrap();
            let shifted = chrono::DateTime::from_timestamp(seconds + offset as i64, 0).unwrap();
            let ours = zone_time(seconds, offset).unwrap();
            assert!(ours.is_valid());
            assert_eq!(ours, civil(&t.naive_local()));
            assert_eq!(ours, civil(&shifted));
        }
    }
    assert_eq!(
        zone_time(0, 0),
        Some(CivilTime { year: 1970, month: 1, day: 1, hour: 0, minute: 0, second: 0 })
    );
    assert_eq!(
        zone_time(0, -1),
        Some(CivilTime { year: 1969, month: 12, day: 31, hour: 23, minute: 59, second: 59 })
    );
}

#[test]
fn offset_of_a_day_or_more_has_no_time() {
    assert_eq!(zone_time(0, 86_400), None);
    assert_eq!(zone_time(0, -86_400), None);
    assert_eq!(zone_time(0, 88_200), None);
    assert_eq!(zone_time(0, i32::MAX), None);
    assert_eq!(zone_time(0, i32::MIN), None);
    assert_eq!(Placement::at(None, 1, Some((1, 1628000000)), 0, 88_200), None);
    assert_eq!(Placement::at(None, 1, None, 0, -86_400), None);
}

#[test]
fn placement_exists_exactly_for_instants_in_range() {
    let first = -8_334_601_228_800i64;
    let last = 8_210_266_876_799i64;
    assert!(chrono::DateTime::from_timestamp(first, 0).is_some());
    assert!(chrono::DateTime::from_timestamp(first - 1, 0).is_none());
    assert!(chrono::DateTime::from_timestamp(last, 0).is_some());
    assert!(chrono::DateTime::from_timestamp(last + 1, 0).is_none());
    assert!(Placement::at(None, 1, Some((1, first)), 0, 0).is_some());
    assert!(Placement::at(None, 1, Some((1, first - 1)), 0, 0).is_none());
    assert!(Placement::at(None, 1, Some((1, first - 1)), 0, 1).is_some());
    assert!(Placement::at(None, 1, Some((1, first)), 0, -1).is_none());
    assert!(Placement::at(None, 1, None, last, 0).is_some());
    assert!(Placement::at(None, 1, None, last + 1, 0).is_none());
    assert!(Placement::at(None, 1, None, last + 1, -1).is_some());
    assert!(Placement::at(None, 1, None, last, 1).is_none());
    assert!(Placement::at(Some(2), 1, Some((1, 0)), i64::MAX, 0).is_some());
    assert!(Placement::at(Some(2), 1, Some((1, i64::MIN)), 0, 0).is_none());
    assert!(Placement::at(Some(2), 1, Some((1, i64::MIN)), 0, -5).is_none());
    assert!(Placement::at(Some(2), 1, Some((1, i64::MAX)), 0, 5).is_none());
    assert_eq!(
        zone_time(first, 0),
        Some(CivilTime { year: -262143, month: 1, day: 1, hour: 0, minute: 0, second: 0 })
    );
    assert_eq!(
        zone_time(last, 0),
        Some(CivilTime { year: 262142, month: 12, day: 31, hour: 23, minute: 59, second: 59 })
    );
}
