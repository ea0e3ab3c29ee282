use dotsync::clock::{name_archive, spells_a_time, Stamps, ARCHIVE_PATTERN, HISTORY_PATTERN};

#[test]
fn one_moment_in_both_patterns_is_taken_up() {
    let stamps = Stamps::new("20240102030405", "2024-01-02--03-04-05").unwrap();
    assert_eq!(stamps.archive(), "20240102030405");
    assert_eq!(stamps.history(), "2024-01-02--03-04-05");
}

#[test]
fn leap_second_is_a_time() {
    assert!(Stamps::new("20161231235960", "2016-12-31--23-59-60").is_some());
}

#[test]
fn years_outside_four_digits_carry_a_sign() {
    assert!(Stamps::new("+100000102030405", "+10000-01-02--03-04-05").is_some());
    assert!(Stamps::new("-00010102030405", "-0001-01-02--03-04-05").is_some());
    assert!(Stamps::new("100000102030405", "10000-01-02--03-04-05").is_none());
    assert!(Stamps::new("+20240102030405", "+2024-01-02--03-04-05").is_some());
}

#[test]
fn texts_that_spell_no_time_are_refused() {
    assert!(Stamps::new("", "").is_none());
    assert!(Stamps::new("t0", "t0").is_none());
    assert!(Stamps::new("2024010203040", "2024-01-02--03-04-0").is_none());
    assert!(Stamps::new("2024010203040x", "2024-01-02--03-04-0x").is_none());
    assert!(Stamps::new("202401020304 5", "2024-01-02--03-04- 5").is_none());
    assert!(Stamps::new("%Y%m%d%H%M%S", "%Y-%m-%d--%H-%M-%S").is_none());
    assert!(Stamps::new("２０２４0102030405", "２０２４-01-02--03-04-05").is_none());
}

#[test]
fn texts_of_two_moments_are_refused() {
    assert!(Stamps::new("20240102030405", "2024-01-02--03-04-06").is_none());
    assert!(Stamps::new("20240102030405", "20240102030405").is_none());
    assert!(Stamps::new("20240102030405", "2024-01-02-03-04-05").is_none());
    assert!(Stamps::new("20240102030405", "").is_none());
}

#[test]
fn archive_times_are_told_apart_from_other_texts() {
    assert!(spells_a_time("20240102030405"));
    assert!(spells_a_time("00000000000000"));
    assert!(spells_a_time("-12340102030405"));
    assert!(!spells_a_time("2024-01-02--03-04-05"));
    assert!(!spells_a_time("+2020102030405"));
    assert!(!spells_a_time("x0240102030405"));
}

#[test]
fn archive_is_named_after_its_time() {
    assert_eq!(name_archive("20240102030405"), "backup_20240102030405.zip");
}

#[test]
fn local_time_in_the_patterns_spells_one_moment() {
    let now = chrono::Local::now();
    let archive = now.format(ARCHIVE_PATTERN).to_string();
    let history = now.format(HISTORY_PATTERN).to_string();
    let stamps = Stamps::new(&archive, &history).unwrap();
    assert_eq!(stamps.archive(), archive);
    assert_eq!(stamps.history(), history);
    assert_eq!(ARCHIVE_PATTERN, "%Y%m%d%H%M%S");
    assert_eq!(HISTORY_PATTERN, "%Y-%m-%d--%H-%M-%S");
}
