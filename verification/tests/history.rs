use std::collections::VecDeque;

use nuttty::history::{displayed, push, trend_samples, Sample};

const SEC: u128 = 1_000_000_000;

fn series(times: &[u128]) -> VecDeque<Sample> {
    let mut out = VecDeque::new();
    for t in times {
        out.push_back(Sample {
            at: t * SEC,
            value: t.to_string(),
        });
    }
    out
}

fn times<'a>(samples: impl IntoIterator<Item = &'a Sample>) -> Vec<u128> {
    samples.into_iter().map(|s| s.at / SEC).collect()
}

#[test]
fn old_samples_are_forgotten() {
    let mut s = series(&[0, 40, 41, 900]);
    push(&mut s, 1000 * SEC, "x".to_string());
    // 960 seconds are kept, the limit included.
    assert_eq!(times(&s), [40, 41, 900, 1000]);
    assert_eq!(s[3].value, "x");
    push(&mut s, 1000 * SEC + 1, "y".to_string());
    assert_eq!(times(&s), [41, 900, 1000, 1000]);
    push(&mut s, 9000 * SEC, "z".to_string());
    assert_eq!(times(&s), [9000]);
}

#[test]
fn samples_from_later_stay() {
    let mut s = series(&[500]);
    push(&mut s, 10 * SEC, "x".to_string());
    assert_eq!(times(&s), [500, 10]);
    assert_eq!(times(&displayed(&s, 0)), [500, 10]);
}

#[test]
fn charts_display_a_quarter_of_an_hour() {
    let s = series(&[0, 99, 100, 500, 1000]);
    assert_eq!(times(&displayed(&s, 1000 * SEC)), [100, 500, 1000]);
    assert_eq!(displayed(&s, 1000 * SEC)[1].value, "500");
    assert!(displayed(&s, 5000 * SEC).is_empty());
}

#[test]
fn trend_takes_five_samples_over_a_minute() {
    let s = series(&[0, 100, 700, 715, 730, 745, 760]);
    let picked = trend_samples(&s, 1000 * SEC).unwrap();
    assert_eq!(times(&picked), [700, 715, 730, 745, 760]);
    // The first of the five has become too old.
    assert!(trend_samples(&s, 1000 * SEC + 1).is_none());
    // A little less than a minute.
    let mut s = series(&[700, 715, 730, 745]);
    push(&mut s, 760 * SEC - 1, "x".to_string());
    assert!(trend_samples(&s, 760 * SEC).is_none());
    assert!(trend_samples(&series(&[]), 0).is_none());
}
