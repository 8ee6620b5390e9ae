use keybot::calendar::{lastMonth, monthBefore, sinceLastMonth};
use keybot::error::Error;

// 2020-03-15 12:30:45 UTC and the same time of day on other dates.
const MAR_15_2020: i64 = 1_584_275_445;
const FEB_15_2020: i64 = 1_581_769_845;
const JAN_15_2020: i64 = 1_579_091_445;
const DEC_15_2019: i64 = 1_576_413_045;
const MAR_31_2020: i64 = 1_585_657_845;
const MAR_29_2020: i64 = 1_585_485_045;
const FEB_29_2020: i64 = 1_582_979_445;
const MAR_29_2021: i64 = 1_617_021_045;

#[test]
fn the_month_before_wraps_at_january() {
    assert_eq!(monthBefore(2020, 3), Some((2020, 2)));
    assert_eq!(monthBefore(2020, 2), Some((2020, 1)));
    assert_eq!(monthBefore(2020, 1), Some((2019, 12)));
    assert_eq!(monthBefore(2020, 12), Some((2020, 11)));
    assert_eq!(monthBefore(i32::MIN, 1), None);
    assert_eq!(monthBefore(i32::MIN, 2), Some((i32::MIN, 1)));
}

#[test]
fn last_month_is_the_same_day_a_month_earlier() {
    assert_eq!(lastMonth(MAR_15_2020).ok(), Some(FEB_15_2020));
    assert_eq!(lastMonth(FEB_15_2020).ok(), Some(JAN_15_2020));
    assert_eq!(lastMonth(JAN_15_2020).ok(), Some(DEC_15_2019));
    assert_eq!(lastMonth(MAR_29_2020).ok(), Some(FEB_29_2020));
}

#[test]
fn last_month_fails_where_the_day_does_not_exist() {
    match lastMonth(MAR_31_2020) {
        Err(Error::RuntimeError(m)) => assert_eq!(m, "Failed to get last month"),
        _ => panic!("there is no 31st of February"),
    }
    assert!(lastMonth(MAR_29_2021).is_err());
    assert!(lastMonth(i64::MAX).is_err());
    assert!(lastMonth(i64::MIN).is_err());
}

#[test]
fn the_monthly_period_is_the_length_of_the_month_before() {
    assert_eq!(sinceLastMonth(MAR_15_2020).ok(), Some(29 * 86_400));
    assert_eq!(sinceLastMonth(FEB_15_2020).ok(), Some(31 * 86_400));
    assert_eq!(sinceLastMonth(JAN_15_2020).ok(), Some(31 * 86_400));
    assert!(sinceLastMonth(MAR_31_2020).is_err());
}
