use x_pixiv::data::{ArtworkPagesData, Artworks, ArtworksData};
use x_pixiv::resolve::{
    artwork_page_address, artwork_pages_address, decode_artwork, decode_pages, decode_rank_page,
    decode_user_artworks, ids_from_keys, original_urls, read_element_texts, select_artwork,
};

const PAGES: &str = r#"{"error":false,"body":[
  {"urls":{"small":"https://i.example/s/1_p0.jpg","original":"https://i.example/o/1_p0.png"},"width":10},
  {"urls":{"small":"https://i.example/s/1_p1.jpg","original":"https://i.example/o/1_p1.jpg"},"width":10}
]}"#;

const RANKING: &str = r#"{"contents":[
  {"title":"first","illust_id":101,"url":"https://i.example/101.jpg","user_name":"ann","tags":["a","b"],"rank":1},
  {"title":"second","illust_id":102,"url":"https://i.example/102.jpg","user_name":"bob","tags":[],"rank":2}
],"date":"20230323","mode":"daily"}"#;

fn page_html(content: &str) -> String {
    format!(
        "<html><head><meta name=\"other\" id=\"x\" content=\"no\">\
         <meta name=\"preload-data\" id=\"meta-preload-data\" content='{}'></head><body></body></html>",
        content
    )
}

#[test]
fn addresses_of_an_artwork() {
    assert_eq!(artwork_page_address(106483793), "https://www.pixiv.net/artworks/106483793");
    assert_eq!(artwork_pages_address(106483793), "https://www.pixiv.net/ajax/illust/106483793/pages");
}

#[test]
fn decode_pages_reads_the_original_addresses() {
    assert_eq!(
        decode_pages(PAGES),
        Some(vec![
            "https://i.example/o/1_p0.png".to_string(),
            "https://i.example/o/1_p1.jpg".to_string()
        ])
    );
    assert_eq!(decode_pages(r#"{"body":[]}"#), Some(vec![]));
}

#[test]
fn decode_pages_refuses_malformed_answers() {
    assert_eq!(decode_pages(""), None);
    assert_eq!(decode_pages("{"), None);
    assert_eq!(decode_pages(r#"{"body":{}}"#), None);
    assert_eq!(decode_pages(r#"{"nobody":[]}"#), None);
    assert_eq!(decode_pages(r#"{"body":[{"urls":{"small":"s"}}]}"#), None);
    assert_eq!(decode_pages(r#"{"body":[{"urls":{"original":"o"}},{"urls":{"original":5}}]}"#), None);
}

#[test]
fn read_element_texts_reads_plain_arrays() {
    assert_eq!(
        read_element_texts(r#"{"tags":["a","b","c"]}"#, "/tags", ""),
        Some(vec!["a".to_string(), "b".to_string(), "c".to_string()])
    );
    assert_eq!(read_element_texts(r#"{"tags":["a",1]}"#, "/tags", ""), None);
}

#[test]
fn decode_artwork_reads_the_preload_data() {
    let json = r#"{"illust":{"106483793":{"title":"Sky","description":"blue","userName":"Ann","extra":1}}}"#;
    let images = vec!["u0".to_string(), "u1".to_string()];
    let data = decode_artwork(&page_html(json), 106483793, images.clone()).unwrap();
    assert_eq!(data.title, "Sky");
    assert_eq!(data.description, "blue");
    assert_eq!(data.user_name, "Ann");
    assert_eq!(data.images, images);
}

#[test]
fn decode_artwork_refuses_malformed_pages() {
    let json = r#"{"illust":{"5":{"title":"Sky","description":"blue","userName":"Ann"}}}"#;
    assert!(decode_artwork(&page_html(json), 6, vec![]).is_none());
    assert!(decode_artwork("<html><body><p>nothing</p></body></html>", 5, vec![]).is_none());
    assert!(decode_artwork("", 5, vec![]).is_none());
    assert!(decode_artwork(&page_html("not json"), 5, vec![]).is_none());
    let no_name = r#"{"illust":{"5":{"title":"Sky","description":"blue"}}}"#;
    assert!(decode_artwork(&page_html(no_name), 5, vec![]).is_none());
    let bad_title = r#"{"illust":{"5":{"title":1,"description":"blue","userName":"Ann"}}}"#;
    assert!(decode_artwork(&page_html(bad_title), 5, vec![]).is_none());
    assert!(decode_artwork(&page_html(json), 5, vec![]).is_some());
}

#[test]
fn decode_rank_page_reads_entries_in_rank_order() {
    let list = decode_rank_page(RANKING).unwrap();
    assert_eq!(list.date, "20230323");
    assert_eq!(list.contents.len(), 2);
    assert_eq!(list.contents[0].title, "first");
    assert_eq!(list.contents[0].illust_id, 101);
    assert_eq!(list.contents[0].url, "https://i.example/101.jpg");
    assert_eq!(list.contents[0].user_name, "ann");
    assert_eq!(list.contents[0].tags, vec!["a".to_string(), "b".to_string()]);
    assert_eq!(list.contents[1].illust_id, 102);
    assert_eq!(list.contents[1].tags, Vec::<String>::new());
    let copy = list.contents[1].duplicate();
    assert_eq!(copy.title, "second");
    assert_eq!(copy.user_name, "bob");
}

#[test]
fn decode_rank_page_refuses_malformed_pages() {
    assert!(decode_rank_page("").is_none());
    assert!(decode_rank_page(r#"{"contents":[]}"#).is_none());
    assert!(decode_rank_page(r#"{"date":"d"}"#).is_none());
    assert!(decode_rank_page(r#"{"contents":[{"title":"t"}],"date":"d"}"#).is_none());
    assert!(decode_rank_page(
        r#"{"contents":[{"title":"t","illust_id":-1,"url":"u","user_name":"n","tags":[]}],"date":"d"}"#
    )
    .is_none());
    assert!(decode_rank_page(
        r#"{"contents":[{"title":"t","illust_id":1,"url":"u","user_name":"n","tags":[2]}],"date":"d"}"#
    )
    .is_none());
    assert!(decode_rank_page(r#"{"contents":[],"date":"d"}"#).is_some());
}

#[test]
fn decode_user_artworks_reads_the_keys() {
    let text = r#"{"error":false,"body":{"illusts":{"106483793":null,"99":null,"100":null},"manga":{}}}"#;
    let mut ids = decode_user_artworks(text).unwrap();
    ids.sort();
    assert_eq!(ids, vec![99, 100, 106483793]);
    assert_eq!(decode_user_artworks(r#"{"body":{"illusts":{}}}"#), Some(vec![]));
}

#[test]
fn decode_user_artworks_refuses_malformed_answers() {
    assert_eq!(decode_user_artworks(""), None);
    assert_eq!(decode_user_artworks(r#"{"body":{"illusts":[]}}"#), None);
    assert_eq!(decode_user_artworks(r#"{"body":{}}"#), None);
    assert_eq!(decode_user_artworks(r#"{"body":{"illusts":{"12x":null}}}"#), None);
    assert_eq!(decode_user_artworks(r#"{"body":{"illusts":{"7":null,"07":null}}}"#), None);
}

fn keys(list: &[&str]) -> Vec<String> {
    list.iter().map(|k| k.to_string()).collect()
}

#[test]
fn ids_from_keys_reads_plain_numerals_in_order() {
    assert_eq!(ids_from_keys(&keys(&[])), Some(vec![]));
    assert_eq!(ids_from_keys(&keys(&["0"])), Some(vec![0]));
    assert_eq!(ids_from_keys(&keys(&["106483793", "99", "100"])), Some(vec![106483793, 99, 100]));
    assert_eq!(ids_from_keys(&keys(&["18446744073709551615"])), Some(vec![u64::MAX]));
}

#[test]
fn ids_from_keys_refuses_other_keys() {
    assert_eq!(ids_from_keys(&keys(&["7", "07"])), None);
    assert_eq!(ids_from_keys(&keys(&["00"])), None);
    assert_eq!(ids_from_keys(&keys(&["1", ""])), None);
    assert_eq!(ids_from_keys(&keys(&["+1"])), None);
    assert_eq!(ids_from_keys(&keys(&["-1"])), None);
    assert_eq!(ids_from_keys(&keys(&["1.0"])), None);
    assert_eq!(ids_from_keys(&keys(&["12x"])), None);
    assert_eq!(ids_from_keys(&keys(&["18446744073709551616"])), None);
    assert_eq!(ids_from_keys(&keys(&["5", "x", "6"])), None);
}

#[test]
fn original_urls_of_typed_pages() {
    let mut first = ArtworkPagesData::new();
    first.insert("original".to_string(), "o0".to_string());
    first.insert("small".to_string(), "s0".to_string());
    let mut second = ArtworkPagesData::new();
    second.insert("original".to_string(), "o1".to_string());
    assert_eq!(
        original_urls(&vec![first, second]),
        Some(vec!["o0".to_string(), "o1".to_string()])
    );
    let mut lacking = ArtworkPagesData::new();
    lacking.insert("small".to_string(), "s".to_string());
    assert_eq!(original_urls(&vec![lacking]), None);
    assert_eq!(original_urls(&vec![]), Some(vec![]));
}

#[test]
fn select_artwork_finds_the_record_by_id() {
    let mut preload = Artworks::new();
    preload.insert(
        "42".to_string(),
        ArtworksData {
            images: vec!["kept".to_string()],
            title: "T".to_string(),
            description: "D".to_string(),
            user_name: "A".to_string(),
        },
    );
    let data = select_artwork(&preload, 42, &vec!["u0".to_string(), "u1".to_string()]).unwrap();
    assert_eq!(data.title, "T");
    assert_eq!(data.description, "D");
    assert_eq!(data.user_name, "A");
    assert_eq!(data.images, vec!["kept".to_string(), "u0".to_string(), "u1".to_string()]);
    assert!(select_artwork(&preload, 43, &vec![]).is_none());
    let copy = data.duplicate();
    assert_eq!(copy.images, data.images);
}

#[test]
fn artworks_test_get_artworks_data() {
    let images = decode_pages(PAGES).unwrap();
    let json = r#"{"illust":{"106483793":{"title":"Sky","description":"","userName":"Ann"}}}"#;
    let s = decode_artwork(&page_html(json), 106483793, images).unwrap();
    assert_eq!(s.title, "Sky");
    assert_eq!(s.user_name, "Ann");
    assert_eq!(s.images.len(), 2);
    assert_eq!(s.images[1], "https://i.example/o/1_p1.jpg");
}
