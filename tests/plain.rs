use procedure::{proceed_padded, success_padded, Progress};

#[test]
fn lines_without_colour() {
    yansi::Paint::disable();
    assert_eq!(success_padded("Done", "all", 6), "\r  Done all\n");
    let mut p = Progress::new("Download", "f", 10);
    p.set(3).unwrap();
    assert_eq!(p.line(), "\r  Download [  3%] f");
    let (r, closing) = proceed_padded(
        "Copy",
        "notes.txt",
        |progress: &mut Progress| -> Result<(u8, &str), &str> {
            progress.set(70).unwrap();
            Ok((1, "1 file"))
        },
        6,
    );
    assert_eq!(r, Ok(1));
    assert_eq!(closing, "\r  Copy [100%] 1 file   \n");
}
