use bouquineur::metadata::isbn::strip_separators;
use bouquineur::pages::Page;
use bouquineur::series::{missing_volumes, MissingVolume, SeriesProgress, Standing};

#[test]
fn separators_are_taken_out_of_an_isbn() {
    assert_eq!(strip_separators("978-3-16-148410-0"), "9783161484100");
    assert_eq!(strip_separators("9783161484100"), "9783161484100");
    assert_eq!(strip_separators("--"), "");
    assert_eq!(strip_separators(""), "");
    assert_eq!(strip_separators("0-306-40615-X"), "030640615X");
}

#[test]
fn navigation_bar_lists_every_page() {
    assert_eq!(
        Page::variants(),
        &[Page::Books, Page::Unread, Page::Series, Page::Ongoing, Page::AddBook]
    );
    let names: Vec<&str> = Page::variants().iter().map(|p| p.name()).collect();
    assert_eq!(names, vec!["Books", "Unread", "Series", "Ongoing", "Add a Book"]);
    let locations: Vec<&str> = Page::variants().iter().map(|p| p.location()).collect();
    assert_eq!(locations, vec!["/", "/unread", "/series", "/ongoing", "/add"]);
}

fn progress(ongoing: bool, owned_count: i64, total_count: Option<i32>) -> SeriesProgress {
    SeriesProgress { ongoing, owned_count, total_count }
}

#[test]
fn series_with_every_volume_is_listed_while_it_goes_on() {
    assert_eq!(progress(true, 3, Some(3)).standing(), Standing::AllOwned);
    assert_eq!(progress(false, 3, Some(3)).standing(), Standing::Unlisted);
    assert_eq!(progress(true, 0, Some(0)).standing(), Standing::AllOwned);
}

#[test]
fn series_with_another_count_than_owned_has_missing_volumes() {
    assert_eq!(progress(true, 2, Some(3)).standing(), Standing::Missing);
    assert_eq!(progress(false, 2, Some(3)).standing(), Standing::Missing);
    assert_eq!(progress(false, 4, Some(3)).standing(), Standing::Missing);
    assert_eq!(progress(true, 5_000_000_000, Some(705_032_704)).standing(), Standing::Missing);
}

#[test]
fn series_of_unknown_length_is_not_listed() {
    assert_eq!(progress(true, 2, None).standing(), Standing::Unlisted);
    assert_eq!(progress(false, 0, None).standing(), Standing::Unlisted);
}

#[test]
fn missing_volumes_come_in_ascending_order() {
    let rows = vec![
        MissingVolume { series: 7, number: 5 },
        MissingVolume { series: 9, number: 1 },
        MissingVolume { series: 7, number: 2 },
        MissingVolume { series: 7, number: 11 },
        MissingVolume { series: 9, number: 4 },
        MissingVolume { series: 7, number: 2 },
    ];
    assert_eq!(missing_volumes(&rows, 7), vec![2, 2, 5, 11]);
    assert_eq!(missing_volumes(&rows, 9), vec![1, 4]);
    assert_eq!(missing_volumes(&rows, 8), Vec::<i32>::new());
    assert_eq!(missing_volumes(&Vec::new(), 7), Vec::<i32>::new());
}
