//! The resolvers' share of the work that is no input or output: the
//! addresses that are asked, and what the answers hold.

use vstd::prelude::*;
use vstd::string::*;
use crate::data::{texts, ArtworkModel, ArtworkPagesData, Artworks, ArtworksData, Content, RankList};
use crate::json::{
    element_pointer,
    json_keys,
    json_length,
    json_number,
    json_text,
    keys_at,
    length_at,
    number_at,
    pointer_to,
    text_at,
};
use crate::text::{
    decimal,
    decimal_string,
    is_plain,
    is_plain_numeral,
    lemma_plain_numeral_is_decimal,
    numeral_value,
    parse_decimal,
};

verus! {

/// The value of attribute `attribute` of the element of the document
/// `html` that `Html::select` hands out first for the CSS selector
/// `selector`: the document parsed by `scraper::Html::parse_document`, the
/// selector by `scraper::Selector::parse`, the attribute read by
/// `Element::attr`. `None` where the selector is not valid, no element
/// matches, or that element lacks the attribute.
pub uninterp spec fn html_attribute(
    html: Seq<char>,
    selector: Seq<char>,
    attribute: Seq<char>,
) -> Option<Seq<char>>;

/// Calls `scraper::Html::parse_document`, `scraper::Selector::parse`,
/// `Html::select` and `Element::attr`: the result is the value named
/// `html_attribute`.
#[verifier::external_body]
fn attribute_of(html: &str, selector: &str, attribute: &str) -> (r: Option<String>)
    ensures
        match r {
            Some(s) => html_attribute(html@, selector@, attribute@) == Some(s@),
            None => html_attribute(html@, selector@, attribute@) is None,
        },
{
    let document = scraper::Html::parse_document(html);
    let selector = scraper::Selector::parse(selector).ok()?;
    let element = document.select(&selector).next()?;
    element.value().attr(attribute).map(|s| s.to_string())
}

/// The address of the page of artwork `id`.
pub open spec fn artwork_url(id: nat) -> Seq<char> {
    "https://www.pixiv.net/artworks/"@ + decimal(id)
}

/// The address that lists the images of artwork `id`.
pub open spec fn artwork_pages_url(id: nat) -> Seq<char> {
    "https://www.pixiv.net/ajax/illust/"@ + decimal(id) + "/pages"@
}

/// The address of the page of artwork `id`.
pub fn artwork_page_address(id: u64) -> (url: String)
    ensures
        url@ == artwork_url(id as nat),
{
    let mut url: String = String::from_str("https://www.pixiv.net/artworks/");
    let number: String = decimal_string(id);
    url.append(number.as_str());
    url
}

/// The address that lists the images of artwork `id`.
pub fn artwork_pages_address(id: u64) -> (url: String)
    ensures
        url@ == artwork_pages_url(id as nat),
{
    let mut url: String = String::from_str("https://www.pixiv.net/ajax/illust/");
    let number: String = decimal_string(id);
    url.append(number.as_str());
    url.append("/pages");
    url
}

/// The addresses of the images in their original size: for each page, what
/// stands under `original`. `None` where a page has no such address.
pub open spec fn original_urls_spec(pages: Seq<ArtworkPagesData>) -> Option<Seq<Seq<char>>> {
    if forall|i: int| 0 <= i < pages.len() ==> (#[trigger] pages[i]).urls@.contains_key("original"@) {
        Some(Seq::new(pages.len(), |i: int| pages[i].urls@["original"@]@))
    } else {
        None
    }
}

/// The addresses of the images of an artwork in their original size, in
/// the order of its pages.
pub fn original_urls(pages: &Vec<ArtworkPagesData>) -> (r: Option<Vec<String>>)
    ensures
        match r {
            Some(urls) => original_urls_spec(pages@) == Some(texts(urls@)),
            None => original_urls_spec(pages@) is None,
        },
{
    let mut urls: Vec<String> = Vec::new();
    let mut i: usize = 0;
    while i < pages.len()
        invariant
            i <= pages@.len(),
            urls@.len() == i,
            forall|j: int| 0 <= j < i ==> (#[trigger] pages@[j]).urls@.contains_key("original"@),
            forall|j: int| 0 <= j < i ==> (#[trigger] urls@[j])@ == pages@[j].urls@["original"@]@,
        decreases pages@.len() - i,
    {
        match pages[i].urls.get("original") {
            Some(url) => {
                urls.push(url.clone());
            },
            None => {
                return None;
            },
        }
        i += 1;
    }
    assert(texts(urls@) =~= Seq::new(pages@.len(), |i: int| pages@[i].urls@["original"@]@));
    Some(urls)
}

/// What is known of artwork `id`: the record that the preload data hold
/// under the id written in decimal, with `images` put behind its images.
pub fn select_artwork(preload: &Artworks, id: u64, images: &Vec<String>) -> (r: Option<ArtworksData>)
    ensures
        match r {
            Some(data) => preload.illust@.contains_key(decimal(id as nat)) && data@ == (ArtworkModel {
                images: preload.illust@[decimal(id as nat)]@.images + texts(images@),
                ..preload.illust@[decimal(id as nat)]@
            }),
            None => !preload.illust@.contains_key(decimal(id as nat)),
        },
{
    let key: String = decimal_string(id);
    match preload.illust.get(key.as_str()) {
        Some(found) => {
            let mut data: ArtworksData = found.duplicate();
            let mut i: usize = 0;
            while i < images.len()
                invariant
                    i <= images@.len(),
                    data.title@ == found.title@,
                    data.description@ == found.description@,
                    data.user_name@ == found.user_name@,
                    texts(data.images@) == texts(found.images@) + texts(images@.take(i as int)),
                decreases images@.len() - i,
            {
                let ghost before = data.images@;
                data.images.push(images[i].clone());
                assert(texts(data.images@) =~= texts(before).push(images@[i as int]@));
                assert(texts(images@.take(i + 1)) =~= texts(images@.take(i as int)).push(
                    images@[i as int]@,
                ));
                i += 1;
            }
            assert(images@.take(i as int) =~= images@);
            Some(data)
        },
        None => None,
    }
}

/// The strings that `text` holds under `suffix` in the elements of the
/// array at `prefix`, which has `n` of them: `None` where one is missing.
pub open spec fn texts_of_elements(text: Seq<char>, prefix: Seq<char>, suffix: Seq<char>, n: nat) -> Option<
    Seq<Seq<char>>,
> {
    if forall|i: nat| i < n ==> #[trigger] json_text(text, element_pointer(prefix, i, suffix)) is Some {
        Some(Seq::new(n, |i: int| json_text(text, element_pointer(prefix, i as nat, suffix))->0))
    } else {
        None
    }
}

/// The strings under `suffix` in the elements of the array that `text`
/// holds at `prefix`: `None` where there is no such array, or an element
/// lacks the string.
pub open spec fn element_texts(text: Seq<char>, prefix: Seq<char>, suffix: Seq<char>) -> Option<
    Seq<Seq<char>>,
> {
    match json_length(text, prefix) {
        Some(n) => texts_of_elements(text, prefix, suffix, n as nat),
        None => None,
    }
}

/// Reads the strings under `suffix` in the elements of the array at
/// `prefix`.
pub fn read_element_texts(text: &str, prefix: &str, suffix: &str) -> (r: Option<Vec<String>>)
    ensures
        match r {
            Some(v) => element_texts(text@, prefix@, suffix@) == Some(texts(v@)),
            None => element_texts(text@, prefix@, suffix@) is None,
        },
{
    let n: usize = match length_at(text, prefix) {
        Some(n) => n,
        None => {
            return None;
        },
    };
    let mut out: Vec<String> = Vec::new();
    let mut i: usize = 0;
    while i < n
        invariant
            i <= n,
            out@.len() == i,
            json_length(text@, prefix@) == Some(n),
            forall|j: nat|
                j < i ==> #[trigger] json_text(text@, element_pointer(prefix@, j, suffix@)) == Some(
                    out@[j as int]@,
                ),
        decreases n - i,
    {
        let pointer: String = pointer_to(prefix, i as u64, suffix);
        match text_at(text, pointer.as_str()) {
            Some(s) => {
                out.push(s);
            },
            None => {
                assert(json_text(text@, element_pointer(prefix@, i as nat, suffix@)) is None);
                return None;
            },
        }
        i += 1;
    }
    assert(texts(out@) =~= Seq::new(
        n as nat,
        |i: int| json_text(text@, element_pointer(prefix@, i as nat, suffix@))->0,
    ));
    Some(out)
}

/// The addresses of an artwork's images that the answer `text` lists: for
/// each element of `body`, what stands under `urls` and `original`.
pub open spec fn pages_spec(text: Seq<char>) -> Option<Seq<Seq<char>>> {
    element_texts(text, "/body"@, "/urls/original"@)
}

/// Reads the addresses of an artwork's images, in their original size and
/// in page order, out of the answer that lists its pages. `None` where the
/// answer is malformed.
pub fn decode_pages(text: &str) -> (r: Option<Vec<String>>)
    ensures
        match r {
            Some(v) => pages_spec(text@) == Some(texts(v@)),
            None => pages_spec(text@) is None,
        },
{
    read_element_texts(text, "/body", "/urls/original")
}

/// The pointer to field `field` of artwork `id` in the preload data.
pub open spec fn preload_pointer(id: nat, field: Seq<char>) -> Seq<char> {
    element_pointer("/illust"@, id, field)
}

/// What the page `html` of artwork `id` tells of it, with `images` as its
/// images: `None` where the page holds no preload data, or they lack the
/// title, the description or the user's name of the artwork.
pub open spec fn artwork_spec(html: Seq<char>, id: nat, images: Seq<Seq<char>>) -> Option<
    ArtworkModel,
> {
    match html_attribute(html, "#meta-preload-data"@, "content"@) {
        None => None,
        Some(json) => match (
            json_text(json, preload_pointer(id, "/title"@)),
            json_text(json, preload_pointer(id, "/description"@)),
            json_text(json, preload_pointer(id, "/userName"@)),
        ) {
            (Some(title), Some(description), Some(user_name)) => Some(
                ArtworkModel { images, title, description, user_name },
            ),
            _ => None,
        },
    }
}

/// Reads what the page `html` of artwork `id` tells of it, and gives it
/// `images` as its images. `None` where the page is malformed.
pub fn decode_artwork(html: &str, id: u64, images: Vec<String>) -> (r: Option<ArtworksData>)
    ensures
        match r {
            Some(data) => artwork_spec(html@, id as nat, texts(images@)) == Some(data@),
            None => artwork_spec(html@, id as nat, texts(images@)) is None,
        },
{
    let json: String = match attribute_of(html, "#meta-preload-data", "content") {
        Some(json) => json,
        None => {
            return None;
        },
    };
    let p_title: String = pointer_to("/illust", id, "/title");
    let p_description: String = pointer_to("/illust", id, "/description");
    let p_user: String = pointer_to("/illust", id, "/userName");
    let title: String = match text_at(json.as_str(), p_title.as_str()) {
        Some(s) => s,
        None => {
            return None;
        },
    };
    let description: String = match text_at(json.as_str(), p_description.as_str()) {
        Some(s) => s,
        None => {
            return None;
        },
    };
    let user_name: String = match text_at(json.as_str(), p_user.as_str()) {
        Some(s) => s,
        None => {
            return None;
        },
    };
    Some(ArtworksData { images, title, description, user_name })
}

/// Entry `index` of the ranking page `text`: `None` where it lacks its
/// title, id, address, user's name or tags.
pub open spec fn content_spec(text: Seq<char>, index: nat) -> Option<crate::data::ContentModel> {
    match (
        json_text(text, element_pointer("/contents"@, index, "/title"@)),
        json_number(text, element_pointer("/contents"@, index, "/illust_id"@)),
        json_text(text, element_pointer("/contents"@, index, "/url"@)),
        json_text(text, element_pointer("/contents"@, index, "/user_name"@)),
        element_texts(text, element_pointer("/contents"@, index, "/tags"@), Seq::<char>::empty()),
    ) {
        (Some(title), Some(illust_id), Some(url), Some(user_name), Some(tags)) => Some(
            crate::data::ContentModel { title, illust_id, url, user_name, tags },
        ),
        _ => None,
    }
}

/// The entries of the ranking page `text`, of which there are `n`: `None`
/// where one of them is malformed.
pub open spec fn contents_spec(text: Seq<char>, n: nat) -> Option<Seq<crate::data::ContentModel>> {
    if forall|i: nat| i < n ==> #[trigger] content_spec(text, i) is Some {
        Some(Seq::new(n, |i: int| content_spec(text, i as nat)->0))
    } else {
        None
    }
}

/// The entries and the date of the ranking page `text`.
pub open spec fn rank_page_spec(text: Seq<char>) -> Option<(Seq<crate::data::ContentModel>, Seq<char>)> {
    match (json_length(text, "/contents"@), json_text(text, "/date"@)) {
        (Some(n), Some(date)) => match contents_spec(text, n as nat) {
            Some(contents) => Some((contents, date)),
            None => None,
        },
        _ => None,
    }
}

/// The entries of a list, each as plain values.
pub open spec fn content_models(v: Seq<Content>) -> Seq<crate::data::ContentModel> {
    Seq::new(v.len(), |i: int| v[i]@)
}

/// Reads entry `index` of a ranking page.
fn decode_content(text: &str, index: usize) -> (r: Option<Content>)
    ensures
        match r {
            Some(c) => content_spec(text@, index as nat) == Some(c@),
            None => content_spec(text@, index as nat) is None,
        },
{
    let p_title: String = pointer_to("/contents", index as u64, "/title");
    let p_id: String = pointer_to("/contents", index as u64, "/illust_id");
    let p_url: String = pointer_to("/contents", index as u64, "/url");
    let p_user: String = pointer_to("/contents", index as u64, "/user_name");
    let p_tags: String = pointer_to("/contents", index as u64, "/tags");
    let title: String = match text_at(text, p_title.as_str()) {
        Some(s) => s,
        None => {
            return None;
        },
    };
    let illust_id: u64 = match number_at(text, p_id.as_str()) {
        Some(n) => n,
        None => {
            return None;
        },
    };
    let url: String = match text_at(text, p_url.as_str()) {
        Some(s) => s,
        None => {
            return None;
        },
    };
    let user_name: String = match text_at(text, p_user.as_str()) {
        Some(s) => s,
        None => {
            return None;
        },
    };
    proof {
        reveal_strlit("");
        assert(""@ =~= Seq::<char>::empty());
    }
    let tags: Vec<String> = match read_element_texts(text, p_tags.as_str(), "") {
        Some(t) => t,
        None => {
            return None;
        },
    };
    Some(Content { title, illust_id, url, user_name, tags })
}

/// Reads a page of a ranking: its entries in rank order, and its date.
/// `None` where the page is malformed.
pub fn decode_rank_page(text: &str) -> (r: Option<RankList>)
    ensures
        match r {
            Some(list) => rank_page_spec(text@) == Some((content_models(list.contents@), list.date@)),
            None => rank_page_spec(text@) is None,
        },
{
    let n: usize = match length_at(text, "/contents") {
        Some(n) => n,
        None => {
            return None;
        },
    };
    let date: String = match text_at(text, "/date") {
        Some(s) => s,
        None => {
            return None;
        },
    };
    let mut contents: Vec<Content> = Vec::new();
    let mut i: usize = 0;
    while i < n
        invariant
            i <= n,
            contents@.len() == i,
            json_length(text@, "/contents"@) == Some(n),
            json_text(text@, "/date"@) == Some(date@),
            forall|j: nat| j < i ==> #[trigger] content_spec(text@, j) == Some(contents@[j as int]@),
        decreases n - i,
    {
        match decode_content(text, i) {
            Some(c) => {
                contents.push(c);
            },
            None => {
                assert(content_spec(text@, i as nat) is None);
                return None;
            },
        }
        i += 1;
    }
    assert(content_models(contents@) =~= Seq::new(n as nat, |i: int| content_spec(text@, i as nat)->0));
    Some(RankList { contents, date })
}

/// The ids that the keys `keys` write: `None` where one of them is no
/// plain numeral, or writes more than a `u64` holds.
pub open spec fn ids_of_keys(keys: Seq<Seq<char>>) -> Option<Seq<u64>> {
    if forall|i: int|
        0 <= i < keys.len() ==> is_plain_numeral(#[trigger] keys[i]) && numeral_value(keys[i])
            <= u64::MAX {
        Some(Seq::new(keys.len(), |i: int| numeral_value(keys[i]) as u64))
    } else {
        None
    }
}

/// The ids of a user's artworks that the answer `text` lists: the keys of
/// the object under `body` and `illusts`.
pub open spec fn user_artworks_spec(text: Seq<char>) -> Option<Seq<u64>> {
    match json_keys(text, "/body/illusts"@) {
        Some(keys) => ids_of_keys(keys),
        None => None,
    }
}

/// Reads the artwork ids that `keys` write, in their order. `None` where
/// a key is no plain numeral (a sign, a zero in front, anything but
/// digits), or writes more than a `u64` holds.
pub fn ids_from_keys(keys: &Vec<String>) -> (r: Option<Vec<u64>>)
    ensures
        match r {
            Some(ids) => ids_of_keys(texts(keys@)) == Some(ids@),
            None => ids_of_keys(texts(keys@)) is None,
        },
{
    let mut ids: Vec<u64> = Vec::new();
    let mut i: usize = 0;
    while i < keys.len()
        invariant
            i <= keys@.len(),
            ids@.len() == i,
            forall|j: int|
                0 <= j < i ==> is_plain_numeral(#[trigger] texts(keys@)[j]) && numeral_value(
                    texts(keys@)[j],
                ) <= u64::MAX && ids@[j] == numeral_value(texts(keys@)[j]),
        decreases keys@.len() - i,
    {
        assert(texts(keys@)[i as int] == keys@[i as int]@);
        if !is_plain(keys[i].as_str()) {
            return None;
        }
        match parse_decimal(keys[i].as_str()) {
            Some(id) => {
                ids.push(id);
            },
            None => {
                return None;
            },
        }
        i += 1;
    }
    assert(ids@ =~= Seq::new(keys@.len(), |i: int| numeral_value(texts(keys@)[i]) as u64));
    Some(ids)
}

/// Keys that differ write ids that differ: where no key comes twice, no
/// id does.
pub proof fn lemma_ids_of_different_keys_differ(keys: Seq<Seq<char>>)
    requires
        keys.no_duplicates(),
        ids_of_keys(keys) is Some,
    ensures
        ids_of_keys(keys)->0.no_duplicates(),
{
    let ids = ids_of_keys(keys)->0;
    assert forall|i: int, j: int| 0 <= i < ids.len() && 0 <= j < ids.len() && i != j implies ids[i]
        != ids[j] by {
        assert(is_plain_numeral(keys[i]) && is_plain_numeral(keys[j]));
        lemma_plain_numeral_is_decimal(keys[i]);
        lemma_plain_numeral_is_decimal(keys[j]);
    }
}

/// Reads the ids of a user's artworks out of the answer that lists them,
/// in the order in which the answer's object hands out its keys. `None`
/// where the answer is malformed.
pub fn decode_user_artworks(text: &str) -> (r: Option<Vec<u64>>)
    ensures
        match r {
            Some(ids) => user_artworks_spec(text@) == Some(ids@),
            None => user_artworks_spec(text@) is None,
        },
{
    match keys_at(text, "/body/illusts") {
        Some(keys) => ids_from_keys(&keys),
        None => None,
    }
}

} // verus!
