use keybot::chat_db::{
    addWa, bestWaable, bestWaableAt, bestWaer, bestWaerAt, initialize, within, WaEntry, WaLog,
};
use keybot::error::Error;

fn wa(id: i64, wa_to: i64, waer: i64, name: &str, time: i64) -> WaEntry {
    WaEntry { wa_to, id, waer, waer_name: name.to_string(), time }
}

fn filled(rows: Vec<WaEntry>) -> WaLog {
    let mut log = initialize();
    for row in rows {
        assert!(addWa(&mut log, row).is_ok());
    }
    log
}

#[test]
fn a_new_table_is_empty() {
    let log = initialize();
    assert_eq!(log.len(), 0);
    assert_eq!(log.count(1), 0);
    assert!(!log.containsId(1));
}

#[test]
fn add_wa_returns_the_count_for_the_target() {
    let mut log = initialize();
    assert_eq!(addWa(&mut log, wa(1, 100, 7, "@a", 10)).ok(), Some(1));
    assert_eq!(addWa(&mut log, wa(2, 200, 7, "@a", 11)).ok(), Some(1));
    assert_eq!(addWa(&mut log, wa(3, 100, 8, "@b", 12)).ok(), Some(2));
    assert_eq!(addWa(&mut log, wa(4, 100, 9, "@c", 13)).ok(), Some(3));
    assert_eq!(log.len(), 4);
    assert_eq!(log.count(100), 3);
    assert_eq!(log.count(200), 1);
    assert_eq!(log.row(2).id, 3);
}

#[test]
fn add_wa_refuses_an_id_that_is_there() {
    let mut log = initialize();
    assert!(addWa(&mut log, wa(1, 100, 7, "@a", 10)).is_ok());
    match addWa(&mut log, wa(1, 300, 8, "@b", 11)) {
        Err(Error::DBError(m)) => assert_eq!(m, "Failed to add a wa"),
        _ => panic!("expected a database error"),
    }
    assert_eq!(log.len(), 1);
    assert_eq!(log.count(300), 0);
    assert!(log.containsId(1));
}

#[test]
fn every_one_of_n_reactions_is_counted() {
    let mut log = initialize();
    assert!(addWa(&mut log, wa(1000, 5, 1, "@x", 0)).is_ok());
    let n = 50;
    for k in 0..n {
        let count = addWa(&mut log, wa(k, 42, k % 3, "@y", k)).ok();
        assert_eq!(count, Some(k as u32 + 1));
    }
    assert_eq!(log.count(42), n as u32);
    assert_eq!(log.count(5), 1);
}

#[test]
fn within_is_strict_at_the_start_of_the_window() {
    let e = wa(1, 1, 1, "@a", 900);
    assert!(within(&e, 1000, 101));
    assert!(!within(&e, 1000, 100));
    assert!(within(&e, i64::MIN, i64::MAX));
    assert!(!within(&e, i64::MAX, i64::MIN));
}

#[test]
fn best_waer_is_the_one_with_most_reactions_in_the_window() {
    let log = filled(vec![
        wa(1, 10, 7, "@old", 100),
        wa(2, 10, 7, "@old", 150),
        wa(3, 10, 7, "@seven", 950),
        wa(4, 11, 8, "@eight", 960),
        wa(5, 12, 8, "@eight2", 970),
    ]);
    // Only the rows after 900 count: one of 7, two of 8.
    match bestWaerAt(&log, 1000, 100) {
        Ok((name, count)) => {
            assert_eq!(name, "@eight");
            assert_eq!(count, 2);
        }
        Err(_) => panic!("the window is not empty"),
    }
    // With the whole table in the window 7 leads with three.
    match bestWaerAt(&log, 1000, 1000) {
        Ok((name, count)) => {
            assert_eq!(name, "@old");
            assert_eq!(count, 3);
        }
        Err(_) => panic!("the window is not empty"),
    }
}

#[test]
fn best_waer_of_a_tie_is_the_first_in_the_table() {
    let log = filled(vec![wa(1, 10, 7, "@seven", 950), wa(2, 11, 8, "@eight", 960)]);
    match bestWaerAt(&log, 1000, 100) {
        Ok((name, count)) => {
            assert_eq!(name, "@seven");
            assert_eq!(count, 1);
        }
        Err(_) => panic!("the window is not empty"),
    }
}

#[test]
fn best_waer_of_an_empty_window_is_not_found() {
    let log = filled(vec![wa(1, 10, 7, "@seven", 900)]);
    match bestWaerAt(&log, 1000, 100) {
        Err(Error::NotFound(m)) => assert_eq!(m, "No wa in this period"),
        _ => panic!("expected not found"),
    }
    assert!(matches!(bestWaerAt(&initialize(), 1000, 100), Err(Error::NotFound(_))));
}

#[test]
fn best_waable_is_the_target_with_most_reactions_in_the_window() {
    let log = filled(vec![
        wa(1, 10, 7, "@a", 100),
        wa(2, 10, 8, "@b", 950),
        wa(3, 11, 7, "@a", 960),
        wa(4, 11, 9, "@c", 970),
        wa(5, 12, 9, "@c", 980),
    ]);
    assert_eq!(bestWaableAt(&log, 1000, 100).ok(), Some((11, 2)));
    assert_eq!(bestWaableAt(&log, 1000, 1000).ok(), Some((10, 2)));
    assert!(matches!(bestWaableAt(&log, 1000, 10), Err(Error::NotFound(_))));
}

#[test]
fn the_clock_decides_the_window_of_best_waer() {
    // A reaction at the epoch is long past; one in the year 2100 lies ahead
    // of the clock and so within any window.
    let past = filled(vec![wa(1, 10, 7, "@a", 0)]);
    assert!(matches!(bestWaer(&past, 10), Err(Error::NotFound(_))));
    assert!(matches!(bestWaable(&past, 10), Err(Error::NotFound(_))));
    let ahead = filled(vec![wa(1, 10, 7, "@a", 4_102_444_800)]);
    assert_eq!(bestWaer(&ahead, 10).ok(), Some(("@a".to_string(), 1)));
    assert_eq!(bestWaable(&ahead, 10).ok(), Some((10, 1)));
    // A window that spans all of time reaches back to the epoch.
    assert_eq!(bestWaer(&past, i64::MAX).ok(), Some(("@a".to_string(), 1)));
}
