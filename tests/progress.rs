use procedure::layout::{decimal_text, left_aligned, right_aligned};
use procedure::{percentage, run, Progress, RangeError};

#[test]
fn set_shows_every_percentage() {
    let mut p = Progress::new("Download", "file", 12);
    for v in 0..=100usize {
        assert_eq!(p.set(v), Ok(()));
        assert_eq!(p.value() as usize, v);
        assert!(p.line().contains(&format!("[{:>3}%]", v)));
    }
}

#[test]
fn set_above_hundred_is_refused() {
    let mut p = Progress::new("Download", "file", 12);
    p.set(40).unwrap();
    let before = p.line().to_string();
    assert_eq!(p.set(101), Err(RangeError::OutOfRange));
    assert_eq!(p.value(), 40);
    assert_eq!(p.line(), before);
}

#[test]
fn set_from_rounds_down() {
    let mut p = Progress::new("Download", "file", 12);
    p.set_from(500, 1000, 975).unwrap();
    assert_eq!(p.value(), 95);
    p.set_from(0, 3, 1).unwrap();
    assert_eq!(p.value(), 33);
    p.set_from(0, 3, 2).unwrap();
    assert_eq!(p.value(), 66);
    p.set_from(500, 1000, 500).unwrap();
    assert_eq!(p.value(), 0);
    p.set_from(500, 1000, 1000).unwrap();
    assert_eq!(p.value(), 100);
}

#[test]
fn set_from_on_the_largest_range() {
    let mut p = Progress::new("Download", "file", 12);
    p.set_from(0, usize::MAX, usize::MAX - 1).unwrap();
    assert_eq!(p.value(), 99);
    p.set_from(0, usize::MAX, usize::MAX).unwrap();
    assert_eq!(p.value(), 100);
}

#[test]
fn set_from_refuses_bad_ranges() {
    let mut p = Progress::new("Download", "file", 12);
    p.set(10).unwrap();
    assert_eq!(p.set_from(5, 5, 5), Err(RangeError::EmptyRange));
    assert_eq!(p.set_from(9, 3, 4), Err(RangeError::EmptyRange));
    assert_eq!(p.set_from(500, 1000, 499), Err(RangeError::OutOfRange));
    assert_eq!(p.set_from(500, 1000, 1001), Err(RangeError::OutOfRange));
    assert_eq!(p.value(), 10);
}

#[test]
fn percentage_values() {
    assert_eq!(percentage(500, 1000, 975), Ok(95));
    assert_eq!(percentage(0, 7, 7), Ok(100));
    assert_eq!(percentage(7, 7, 7), Err(RangeError::EmptyRange));
    assert_eq!(percentage(0, 7, 8), Err(RangeError::OutOfRange));
}

#[test]
fn increment_after_set_equals_direct_set() {
    let mut a = Progress::new("Download", "file", 12);
    a.set(30).unwrap();
    a.increment(25).unwrap();
    let mut b = Progress::new("Download", "file", 12);
    b.set(55).unwrap();
    assert_eq!(a.value(), b.value());
    assert_eq!(a.line(), b.line());
}

#[test]
fn increment_past_hundred_is_refused() {
    let mut p = Progress::new("Download", "file", 12);
    p.set(90).unwrap();
    assert_eq!(p.increment(11), Err(RangeError::OutOfRange));
    assert_eq!(p.increment(usize::MAX), Err(RangeError::OutOfRange));
    assert_eq!(p.value(), 90);
    assert_eq!(p.increment(10), Ok(()));
    assert_eq!(p.value(), 100);
}

#[test]
fn initialize_resets_to_zero() {
    let mut p = Progress::new("Download", "file", 12);
    assert_eq!(p.line(), "");
    p.set(77).unwrap();
    p.initialize();
    assert_eq!(p.value(), 0);
    assert!(p.line().contains("[  0%]"));
}

#[test]
fn running_line_layout() {
    let mut p = Progress::new("Download", "example_file.jpg", 12);
    p.set(50).unwrap();
    assert_eq!(p.line(), "\r\u{1b}[33m    Download\u{1b}[0m [ 50%] example_file.jpg");
}

#[test]
fn label_wider_than_padding_is_kept_whole() {
    let mut p = Progress::new("Downloading", "f", 3);
    p.set(5).unwrap();
    assert_eq!(p.line(), "\r\u{1b}[33mDownloading\u{1b}[0m [  5%] f");
}

#[test]
fn ok_completes_and_pads_to_description() {
    let mut p = Progress::new("Download", "example_file.jpg", 12);
    p.set(40).unwrap();
    p.ok("256KB");
    assert_eq!(p.value(), 100);
    assert_eq!(p.line(), "\r\u{1b}[32m    Download\u{1b}[0m [100%] 256KB           \n");
}

#[test]
fn err_keeps_the_percentage() {
    let mut p = Progress::new("Fetch", "a.zip", 6);
    p.set(95).unwrap();
    p.err("a.zip [Failed]");
    assert_eq!(p.value(), 95);
    assert_eq!(p.line(), "\r\u{1b}[31m Fetch\u{1b}[0m [ 95%] a.zip [Failed]\n");
}

#[test]
fn run_success_ends_at_hundred() {
    let mut p = Progress::new("Download", "example_file.jpg", 12);
    let r = run(&mut p, |progress: &mut Progress| -> Result<(u32, &str), &str> {
        progress.set(12).unwrap();
        Ok((262144, "example_file.jpg [256 KB]"))
    });
    assert_eq!(r, Ok(262144));
    assert_eq!(p.value(), 100);
    assert_eq!(p.line(), "\r\u{1b}[32m    Download\u{1b}[0m [100%] example_file.jpg [256 KB]\n");
}

#[test]
fn run_failure_keeps_percentage() {
    let mut p = Progress::new("Download", "some_other.zip", 12);
    let r = run(&mut p, |progress: &mut Progress| -> Result<(&str, &str), &str> {
        for i in 500..1000 {
            progress.set_from(500, 1000, i).unwrap();
            if i == 975 {
                return Err("some_other.zip [Failed]");
            }
        }
        Ok(("1MB", "some_other.zip [1 MB]"))
    });
    assert_eq!(r, Err("some_other.zip [Failed]"));
    assert_eq!(p.value(), 95);
    assert_eq!(p.line(), "\r\u{1b}[31m    Download\u{1b}[0m [ 95%] some_other.zip [Failed]\n");
}

#[test]
fn run_failure_right_away_stays_at_zero() {
    let mut p = Progress::new("Job", "x", 4);
    p.set(60).unwrap();
    let r = run(&mut p, |_: &mut Progress| -> Result<((), &str), u8> { Err(3) });
    assert_eq!(r, Err(3));
    assert_eq!(p.value(), 0);
    assert_eq!(p.line(), "\r\u{1b}[31m Job\u{1b}[0m [  0%] 3\n");
}

#[test]
fn decimal_and_alignment() {
    assert_eq!(decimal_text(0), "0");
    assert_eq!(decimal_text(7), "7");
    assert_eq!(decimal_text(42), "42");
    assert_eq!(decimal_text(100), "100");
    assert_eq!(decimal_text(255), "255");
    assert_eq!(right_aligned("ab", 5), "   ab");
    assert_eq!(right_aligned("abcdef", 3), "abcdef");
    assert_eq!(right_aligned("", 0), "");
    assert_eq!(left_aligned("ab", 5), "ab   ");
    assert_eq!(left_aligned("héé", 4), "héé ");
}
