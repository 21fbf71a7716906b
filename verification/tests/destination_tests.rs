use x_pixiv::data::ArtworksData;
use x_pixiv::destination::{destination, directory_of, extension, file_name, plan, Grouping};
use x_pixiv::text::{decimal_string, is_plain, last_chars, parse_decimal};

fn artwork(title: &str, author: &str, images: &[&str]) -> ArtworksData {
    ArtworksData {
        images: images.iter().map(|s| s.to_string()).collect(),
        title: title.to_string(),
        description: String::new(),
        user_name: author.to_string(),
    }
}

#[test]
fn plan_by_author_is_a_directory_under_the_base() {
    let meta = artwork("T", "A", &[]);
    assert_eq!(plan("/out", &meta, 1, Grouping::ByAuthor), "/out/A/");
}

#[test]
fn plan_without_grouping_is_the_base_directory() {
    let meta = artwork("T", "A", &[]);
    assert_eq!(plan("/out", &meta, 1, Grouping::Flat), "/out/");
    assert_eq!(plan("/out/", &meta, 1, Grouping::Flat), "/out/");
    assert_eq!(plan("", &meta, 1, Grouping::Flat), "");
}

#[test]
fn plan_by_title_and_by_artwork() {
    let meta = artwork("T", "A", &[]);
    assert_eq!(plan("/out", &meta, 77, Grouping::ByTitle), "/out/T/");
    assert_eq!(plan("/out", &meta, 77, Grouping::ByArtwork), "/out/T-77/");
    assert_eq!(plan("./images/", &meta, 106483793, Grouping::ByArtwork), "./images/T-106483793/");
}

#[test]
fn directory_of_adds_one_separator_at_most() {
    assert_eq!(directory_of("a"), "a/");
    assert_eq!(directory_of("a/"), "a/");
    assert_eq!(directory_of("/"), "/");
    assert_eq!(directory_of(""), "");
}

#[test]
fn file_name_with_and_without_artwork_id() {
    let url = "https://i.pximg.net/img-original/img/2023/03/23/00/05/02/106465672_p0.png";
    assert_eq!(file_name("Sky", Some(106465672), 0, url), "Sky-106465672-0.png");
    assert_eq!(file_name("Sky", None, 12, url), "Sky-12.png");
    assert_eq!(file_name("", None, 0, "x.jpg"), "-0.jpg");
}

#[test]
fn extension_is_the_last_three_characters() {
    assert_eq!(extension("a/b/c.jpg"), "jpg");
    assert_eq!(extension("c.jpeg"), "peg");
    assert_eq!(extension("gif"), "gif");
    assert_eq!(extension("ab"), "ab");
    assert_eq!(extension(""), "");
    assert_eq!(extension("図.画像形"), "画像形");
}

#[test]
fn destination_joins_directory_and_name() {
    let meta = artwork("T", "A", &["http://h/1_p0.png", "http://h/1_p1.jpg"]);
    assert_eq!(destination("/out", &meta, 5, Grouping::ByAuthor, 1, true), "/out/A/T-5-1.jpg");
    assert_eq!(destination("/out", &meta, 5, Grouping::Flat, 0, false), "/out/T-0.png");
    assert_eq!(destination("", &meta, 5, Grouping::ByArtwork, 0, false), "T-5/T-0.png");
}

#[test]
fn decimal_string_writes_numbers() {
    assert_eq!(decimal_string(0), "0");
    assert_eq!(decimal_string(7), "7");
    assert_eq!(decimal_string(10), "10");
    assert_eq!(decimal_string(12345), "12345");
    assert_eq!(decimal_string(u64::MAX), "18446744073709551615");
}

#[test]
fn parse_decimal_reads_numerals_only() {
    assert_eq!(parse_decimal("0"), Some(0));
    assert_eq!(parse_decimal("007"), Some(7));
    assert_eq!(parse_decimal("106483793"), Some(106483793));
    assert_eq!(parse_decimal("18446744073709551615"), Some(u64::MAX));
    assert_eq!(parse_decimal("18446744073709551616"), None);
    assert_eq!(parse_decimal("99999999999999999999999"), None);
    assert_eq!(parse_decimal(""), None);
    assert_eq!(parse_decimal("12a"), None);
    assert_eq!(parse_decimal("+12"), None);
    assert_eq!(parse_decimal("-1"), None);
}

#[test]
fn parse_decimal_reads_back_what_decimal_string_writes() {
    for n in [0u64, 1, 9, 10, 99, 100, 4711, u64::MAX] {
        assert_eq!(parse_decimal(&decimal_string(n)), Some(n));
    }
}

#[test]
fn last_chars_takes_the_end() {
    assert_eq!(last_chars("hello", 3), "llo");
    assert_eq!(last_chars("hello", 0), "");
    assert_eq!(last_chars("hello", 5), "hello");
    assert_eq!(last_chars("hello", 9), "hello");
}

#[test]
fn plain_numerals_have_no_zero_in_front() {
    assert!(is_plain("0"));
    assert!(is_plain("7"));
    assert!(is_plain("10"));
    assert!(is_plain("99999999999999999999999"));
    assert!(!is_plain(""));
    assert!(!is_plain("07"));
    assert!(!is_plain("00"));
    assert!(!is_plain("1a"));
    assert!(!is_plain("+1"));
    for n in [0u64, 5, 10, 4711, u64::MAX] {
        assert!(is_plain(&decimal_string(n)));
    }
}
