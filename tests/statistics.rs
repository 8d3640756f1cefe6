use git_lead_time::statistics::summarize;

#[test]
fn median_takes_upper_middle() {
    let st = summarize(vec![10, 20, 30, 40]).unwrap();
    assert_eq!(st.median, 30);
    assert_eq!(st.mean, 25);
}

#[test]
fn median_of_shuffled_samples() {
    let st = summarize(vec![30, 10, 40, 20]).unwrap();
    assert_eq!(st.median, 30);
    assert_eq!(st.max, 40);
}

#[test]
fn mean_of_three() {
    let st = summarize(vec![10, 20, 30]).unwrap();
    assert_eq!(st.mean, 20);
    assert_eq!(st.total, 60);
    assert_eq!(st.median, 20);
}

#[test]
fn max_of_unsorted() {
    let st = summarize(vec![5, 100, 3]).unwrap();
    assert_eq!(st.max, 100);
    assert_eq!(st.median, 5);
    assert_eq!(st.mean, 36);
}

#[test]
fn no_samples_no_data() {
    assert!(summarize(vec![]).is_none());
}

#[test]
fn single_sample() {
    let st = summarize(vec![7]).unwrap();
    assert_eq!((st.count, st.mean, st.median, st.max), (1, 7, 7, 7));
}

#[test]
fn largest_samples_do_not_overflow() {
    let st = summarize(vec![u64::MAX, u64::MAX, u64::MAX]).unwrap();
    assert_eq!(st.total, 3 * u64::MAX as u128);
    assert_eq!(st.mean, u64::MAX);
    assert_eq!(st.max, u64::MAX);
}
