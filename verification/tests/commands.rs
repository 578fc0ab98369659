use image_converter::commands::{
    add_diff, backup_key, backup_needed, backup_outcome, clear_expired_backup_files, converted,
    get_backup_file, get_image_format, image_convert, image_format_of, is_expired, restore_file,
    CacheEntry, ConvertStep, Error, QualitySearch, StopReason, BACKUP_TTL_NANOS, DIFF_LIMIT,
    MAX_ROUNDS,
};
use image_converter::utils::{set_app_cache_dir, CacheDir};

fn cache_at(dir: &str) -> CacheDir {
    let mut slot = CacheDir::new();
    set_app_cache_dir(&mut slot, dir);
    slot
}

#[test]
fn format_comes_from_the_extension() {
    assert_eq!(get_image_format("a/b/photo.png"), Ok("png".to_string()));
    assert_eq!(get_image_format("photo.webp"), Ok("webp".to_string()));
    assert_eq!(get_image_format("photo.avif"), Ok("avif".to_string()));
    assert_eq!(get_image_format("photo.jpeg"), Ok("jpeg".to_string()));
}

#[test]
fn jpg_means_jpeg() {
    assert_eq!(get_image_format("photo.jpg"), Ok("jpeg".to_string()));
    assert_eq!(image_format_of("jpg".to_string()), Ok("jpeg".to_string()));
}

#[test]
fn format_is_case_sensitive() {
    assert_eq!(get_image_format("photo.JPG"), Ok("JPG".to_string()));
}

#[test]
fn no_extension_is_an_invalid_format() {
    assert_eq!(get_image_format("photo"), Err(Error::FormatInvalid));
    assert_eq!(get_image_format(""), Err(Error::FormatInvalid));
    assert_eq!(image_format_of(String::new()), Err(Error::FormatInvalid));
}

#[test]
fn errors_have_a_category_and_a_message() {
    let e = Error::Io { message: "disk full".to_string() };
    assert_eq!(e.category(), "io");
    assert_eq!(e.message(), "disk full");
    assert_eq!(Error::FormatInvalid.category(), "format");
    assert_eq!(Error::FormatInvalid.message(), "Format is invalid");
    assert_eq!(Error::Pattern { message: "x".to_string() }.category(), "pattern");
    assert_eq!(Error::OptimizeProcessing { message: "x".to_string() }.category(), "optim");
    let nf = Error::NotFound { hash: "abc".to_string() };
    assert_eq!(nf.category(), "not_found");
    assert_eq!(nf.message(), "No backup for abc");
}

#[test]
fn errors_serialize_to_category_and_message() {
    let e = Error::Io { message: "disk full".to_string() };
    assert_eq!(e.serialize(), "{\"category\": \"io\", \"message\": \"disk full\"}");
    assert_eq!(
        Error::FormatInvalid.serialize(),
        "{\"category\": \"format\", \"message\": \"Format is invalid\"}"
    );
}

#[test]
fn backup_key_is_the_blake3_hash_in_hex() {
    assert_eq!(
        backup_key(b""),
        "af1349b9f5f9a1a6a0404dea36dcc9499bcb25c9adc112b7cc9a93cae41f3262"
    );
    assert_eq!(backup_key(b"some image bytes").len(), 64);
}

#[test]
fn backup_key_depends_on_the_content_only() {
    let a = vec![1u8, 2, 3, 4];
    let b = vec![1u8, 2, 3, 4];
    let c = vec![1u8, 2, 3, 5];
    assert_eq!(backup_key(&a), backup_key(&b));
    assert_ne!(backup_key(&a), backup_key(&c));
}

#[test]
fn backup_file_lies_in_the_cache_dir() {
    let cache = cache_at("/var/cache/app");
    assert_eq!(get_backup_file(&cache, "abc123"), "/var/cache/app/abc123.bak");
}

#[test]
fn backup_twice_writes_once() {
    // The first backup finds nothing in place and writes, the second finds
    // the file and leaves it alone; both report the same key and path.
    let cache = cache_at("/cache");
    let bytes = vec![9u8; 100];
    let first = backup_key(&bytes);
    assert!(backup_needed(false));
    let reported_first = backup_outcome(first.clone(), false, true);
    let second = backup_key(&bytes);
    assert!(!backup_needed(true));
    let reported_second = backup_outcome(second.clone(), true, false);
    assert_eq!(reported_first, reported_second);
    assert_eq!(get_backup_file(&cache, &first), get_backup_file(&cache, &second));
}

#[test]
fn failed_backup_reports_no_hash() {
    assert_eq!(backup_outcome("abc".to_string(), false, false), "");
    assert_eq!(backup_outcome("abc".to_string(), false, true), "abc");
    assert_eq!(backup_outcome("abc".to_string(), true, false), "abc");
}

#[test]
fn restore_copies_from_the_backup() {
    let cache = cache_at("/cache");
    let plan = restore_file(&cache, "abc", "/pics/a.png", true).unwrap();
    assert_eq!(plan.from, "/cache/abc.bak");
    assert_eq!(plan.to, "/pics/a.png");
}

#[test]
fn restore_without_backup_is_not_found() {
    let cache = cache_at("/cache");
    let r = restore_file(&cache, "nothing", "/pics/a.png", false);
    assert_eq!(r, Err(Error::NotFound { hash: "nothing".to_string() }));
}

fn entry(path: &str, accessed: Option<u128>) -> CacheEntry {
    CacheEntry { path: path.to_string(), accessed }
}

#[test]
fn sweep_takes_only_expired_backups() {
    let day = BACKUP_TTL_NANOS;
    let now = 10 * day;
    let entries = vec![
        entry("/c/old.bak", Some(now - day - 1)),
        entry("/c/fresh.bak", Some(now - day + 1)),
        entry("/c/old.txt", Some(0)),
        entry("/c/edge.bak", Some(now - day)),
        entry("/c/unknown.bak", None),
        entry("/c/noext", Some(0)),
        entry("/c/ancient.bak", Some(0)),
        entry("/c/ahead.bak", Some(now + 5)),
    ];
    assert_eq!(clear_expired_backup_files(&entries, now), vec![0, 6]);
}

#[test]
fn a_backup_of_exactly_24_hours_stays() {
    let now = 3 * BACKUP_TTL_NANOS;
    assert!(!is_expired(&entry("a.bak", Some(now - BACKUP_TTL_NANOS)), now));
    assert!(is_expired(&entry("a.bak", Some(now - BACKUP_TTL_NANOS - 1)), now));
    assert!(!is_expired(&entry("a.txt", Some(0)), now));
}

#[test]
fn sweep_of_an_empty_directory_is_empty() {
    assert!(clear_expired_backup_files(&Vec::new(), 5).is_empty());
}

#[test]
fn sweep_on_a_young_clock_takes_nothing() {
    // Before the clock has run for a day nothing can be older than a day.
    let now = BACKUP_TTL_NANOS - 1;
    assert!(!is_expired(&entry("a.bak", Some(now)), now));
    assert!(!is_expired(&entry("a.bak", Some(0)), now));
    assert!(!is_expired(&entry("a.bak", Some(0)), BACKUP_TTL_NANOS));
    assert!(is_expired(&entry("a.bak", Some(0)), BACKUP_TTL_NANOS + 1));
    assert!(!is_expired(&entry("a.bak", Some(u128::MAX)), u128::MAX));
}

#[test]
fn the_day_is_24_hours_of_nanoseconds() {
    assert_eq!(BACKUP_TTL_NANOS, 24 * 3600 * 1_000_000_000);
}

#[test]
fn search_accepts_shrinking_rounds() {
    let original = vec![0u8; 500];
    let mut s = QualitySearch::new(original.len());
    assert!(s.running());
    assert_eq!(s.input(&original), &original);
    s.step(vec![1u8; 300], 200, 10, 20);
    assert!(s.running());
    assert_eq!(s.rounds, 1);
    assert_eq!(s.fed_size, 300);
    assert_eq!(s.input(&original), &vec![1u8; 300]);
    s.step(vec![2u8; 250], 300, 10, 20);
    assert_eq!(s.rounds, 2);
    assert_eq!(s.diff, 500);
    s.step(vec![3u8; 240], 100, 10, 20);
    assert!(!s.running());
    assert_eq!(s.stop, Some(StopReason::RoundLimitReached));
    assert_eq!(s.rounds, MAX_ROUNDS);
    assert_eq!(s.best, Some(vec![3u8; 240]));
    let r = s.report("h".to_string());
    assert_eq!(r.size, 240);
    assert_eq!(r.original_size, 500);
    assert_eq!(r.diff, 600);
    assert_eq!(r.hash, "h");
    assert_eq!(r.optim_count, 3);
    assert_eq!((r.width, r.height), (10, 20));
}

#[test]
fn search_discards_a_round_that_does_not_shrink() {
    let mut s = QualitySearch::new(500);
    s.step(vec![1u8; 300], 200, 4, 4);
    s.step(vec![2u8; 300], 100, 4, 4);
    assert_eq!(s.stop, Some(StopReason::NoImprovement));
    assert_eq!(s.rounds, 1);
    assert_eq!(s.fed_size, 300);
    assert_eq!(s.best, Some(vec![1u8; 300]));
    assert_eq!(s.diff, 200);
    let r = s.report("h".to_string());
    assert_eq!(r.size, 300);
    assert_eq!(r.diff, 200);
    assert_eq!(r.hash, "h");
}

#[test]
fn search_compares_with_the_size_fed_in_not_the_original() {
    let mut s = QualitySearch::new(500);
    s.step(vec![1u8; 300], 0, 4, 4);
    // Smaller than the original, larger than what was fed in: discarded.
    s.step(vec![2u8; 400], 0, 4, 4);
    assert_eq!(s.stop, Some(StopReason::NoImprovement));
    assert_eq!(s.best, Some(vec![1u8; 300]));
}

#[test]
fn search_stops_where_the_difference_adds_up() {
    let mut s = QualitySearch::new(500);
    s.step(vec![1u8; 300], 3000, 4, 4);
    assert!(s.running());
    s.step(vec![1u8; 200], 2001, 4, 4);
    assert_eq!(s.stop, Some(StopReason::DiffExceeded));
    assert_eq!(s.diff, 5001);
    assert_eq!(s.rounds, 2);
    assert_eq!(s.best, Some(vec![1u8; 200]));
}

#[test]
fn search_runs_on_at_exactly_the_limit() {
    let mut s = QualitySearch::new(500);
    s.step(vec![1u8; 300], DIFF_LIMIT, 4, 4);
    assert!(s.running());
}

#[test]
fn search_that_never_shrinks_reports_nothing_saved() {
    let mut s = QualitySearch::new(500);
    s.step(vec![1u8; 500], 200, 7, 9);
    assert_eq!(s.stop, Some(StopReason::NoImprovement));
    assert_eq!(s.rounds, 0);
    assert_eq!(s.best, None);
    let r = s.report("h".to_string());
    assert_eq!(r.size, 500);
    assert_eq!(r.original_size, 500);
    assert_eq!(r.diff, 0);
    assert_eq!(r.hash, "");
    assert_eq!(r.optim_count, 0);
    assert_eq!((r.width, r.height), (7, 9));
}

#[test]
fn stopped_search_ignores_further_rounds() {
    let mut s = QualitySearch::new(500);
    s.step(vec![1u8; 600], 0, 4, 4);
    let stopped = s.clone();
    s.step(vec![1u8; 1], 0, 8, 8);
    assert_eq!(s, stopped);
}

#[test]
fn search_stops_within_three_rounds() {
    let mut s = QualitySearch::new(1000);
    let mut rounds = 0;
    let mut size = 900;
    while s.running() {
        s.step(vec![0u8; size], 1, 1, 1);
        size -= 100;
        rounds += 1;
        assert!(rounds <= 3);
    }
    assert_eq!(rounds, 3);
}

#[test]
fn differences_add_up_without_wrapping() {
    assert_eq!(add_diff(200, 300), 500);
    assert_eq!(add_diff(-10000, 200), -9800);
    assert_eq!(add_diff(i64::MAX, 1), i64::MAX);
    assert_eq!(add_diff(i64::MIN, -1), i64::MIN);
}

#[test]
fn convert_keeps_a_target_that_is_no_larger() {
    match image_convert(300, 10, 20, Some(300)) {
        ConvertStep::Keep(r) => {
            assert_eq!(r.diff, 0);
            assert_eq!(r.hash, "");
            assert_eq!(r.size, 300);
            assert_eq!(r.original_size, 300);
            assert_eq!((r.width, r.height), (10, 20));
            assert_eq!(r.optim_count, 0);
        }
        ConvertStep::Write => panic!("the target was to be kept"),
    }
    assert!(matches!(image_convert(301, 1, 1, Some(300)), ConvertStep::Keep(_)));
}

#[test]
fn convert_writes_a_smaller_or_new_target() {
    assert_eq!(image_convert(299, 10, 20, Some(300)), ConvertStep::Write);
    assert_eq!(image_convert(299, 10, 20, None), ConvertStep::Write);
    let r = converted(299, 150, 10, 20, 1000);
    assert_eq!(r.size, 299);
    assert_eq!(r.original_size, 1000);
    assert_eq!(r.diff, 150);
    assert_eq!(r.hash, "");
    assert_eq!((r.width, r.height), (10, 20));
}

#[test]
fn searches_made_by_steps_are_well_formed() {
    let mut s = QualitySearch::new(500);
    assert!(s.is_wf());
    s.step(vec![1u8; 300], 200, 4, 4);
    assert!(s.is_wf());
    s.step(vec![1u8; 300], 200, 4, 4);
    assert!(s.is_wf());
    let mut broken = QualitySearch::new(500);
    broken.rounds = 2;
    assert!(!broken.is_wf());
}

#[test]
fn restore_plan_points_at_the_backup_of_the_content() {
    // What was backed up under the key of its bytes is what a restore by
    // that key copies back.
    let cache = cache_at("/cache");
    let original = vec![5u8; 500];
    let key = backup_key(&original);
    let kept_at = get_backup_file(&cache, &key);
    let plan = restore_file(&cache, &key, "/pics/a.jpg", true).unwrap();
    assert_eq!(plan.from, kept_at);
    assert_eq!(plan.to, "/pics/a.jpg");
}
