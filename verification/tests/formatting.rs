use archivebot::archiver::ArchiverState;
use archivebot::archiver::archiver_states;
use archivebot::metadata::fix_upload_date;
use archivebot::metrics::generate_metrics;
use archivebot::text::str_ends_with;
use archivebot::text::str_eq;
use archivebot::text::str_trim_slashes;
use archivebot::text::u64_to_dec;

#[test]
fn test_fix_upload_date() {
    assert_eq!(fix_upload_date("19840102"), "1984-01-02");
}

#[test]
fn fix_upload_date_short_input() {
    assert_eq!(fix_upload_date("1984"), "1984--");
    assert_eq!(fix_upload_date("198401"), "1984-01-");
    assert_eq!(fix_upload_date(""), "--");
}

#[test]
fn fix_upload_date_long_input() {
    assert_eq!(fix_upload_date("19840102extra"), "1984-01-02");
}

#[test]
fn decimal_rendering() {
    assert_eq!(u64_to_dec(0), "0");
    assert_eq!(u64_to_dec(7), "7");
    assert_eq!(u64_to_dec(10), "10");
    assert_eq!(u64_to_dec(1234567890), "1234567890");
    assert_eq!(u64_to_dec(u64::MAX), "18446744073709551615");
}

#[test]
fn trimming_slashes() {
    assert_eq!(str_trim_slashes("//a/b//"), "a/b");
    assert_eq!(str_trim_slashes("a/b"), "a/b");
    assert_eq!(str_trim_slashes("///"), "");
    assert_eq!(str_trim_slashes(""), "");
    assert_eq!(str_trim_slashes("/x"), "x");
}

#[test]
fn suffix_matching() {
    assert!(str_ends_with("video.info.json", ".info.json"));
    assert!(!str_ends_with("video.json", ".info.json"));
    assert!(str_ends_with("anything", ""));
    assert!(!str_ends_with("", "x"));
    assert!(str_eq("abc", "abc"));
    assert!(!str_eq("abc", "abd"));
}

#[test]
fn metrics_text() {
    let text = generate_metrics(ArchiverState::Downloading, 123);
    assert_eq!(
        text,
        "archivebot_state{state=\"Idle\"} 0\n\
         archivebot_state{state=\"Starting\"} 0\n\
         archivebot_state{state=\"FailureBackoff\"} 0\n\
         archivebot_state{state=\"Downloading\"} 1\n\
         archivebot_state{state=\"Uploading\"} 0\n\
         archivebot_cache_dir_size_bytes 123\n"
    );
}

#[test]
fn state_labels_and_order() {
    let states = archiver_states();
    assert_eq!(states.len(), 5);
    assert_eq!(states[0], ArchiverState::Idle);
    assert_eq!(states[0].label(), "Idle");
    assert_eq!(states[2].label(), "FailureBackoff");
    assert_eq!(states[4].label(), "Uploading");
}
