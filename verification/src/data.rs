//! The records that the resolvers hand to the download logic.

use vstd::prelude::*;
use vstd::hash_map::StringHashMap;

verus! {

/// An answer of the site's JSON interface: the payload sits under `body`.
pub struct Api<T> {
    pub body: T,
}

/// The preload data of an artwork page: the payload sits under `illust`.
pub struct Illust<T> {
    pub illust: T,
}

/// What is known of one artwork: its title, its description, the name it is
/// attributed to and the addresses of its images, in page order.
pub struct ArtworksData {
    pub images: Vec<String>,
    pub title: String,
    pub description: String,
    pub user_name: String,
}

/// `ArtworksData` as plain sequences of characters.
pub ghost struct ArtworkModel {
    pub images: Seq<Seq<char>>,
    pub title: Seq<char>,
    pub description: Seq<char>,
    pub user_name: Seq<char>,
}

/// The character sequences of a list of strings.
pub open spec fn texts(v: Seq<String>) -> Seq<Seq<char>> {
    Seq::new(v.len(), |i: int| v[i]@)
}

impl View for ArtworksData {
    type V = ArtworkModel;

    open spec fn view(&self) -> ArtworkModel {
        ArtworkModel {
            images: texts(self.images@),
            title: self.title@,
            description: self.description@,
            user_name: self.user_name@,
        }
    }
}

/// The preload data of an artwork page, keyed by the artwork's id in decimal.
pub struct Artworks {
    pub illust: StringHashMap<ArtworksData>,
}

/// One page (image) of an artwork: its addresses by size name.
pub struct ArtworkPagesData {
    pub urls: StringHashMap<String>,
}

/// The answer that lists the pages of an artwork.
pub struct ArtworkPages {
    pub body: Vec<ArtworkPagesData>,
}

/// One entry of a ranking page.
pub struct Content {
    pub title: String,
    pub illust_id: u64,
    pub url: String,
    pub user_name: String,
    pub tags: Vec<String>,
}

/// A `Content` as plain values.
pub ghost struct ContentModel {
    pub title: Seq<char>,
    pub illust_id: u64,
    pub url: Seq<char>,
    pub user_name: Seq<char>,
    pub tags: Seq<Seq<char>>,
}

impl View for Content {
    type V = ContentModel;

    open spec fn view(&self) -> ContentModel {
        ContentModel {
            title: self.title@,
            illust_id: self.illust_id,
            url: self.url@,
            user_name: self.user_name@,
            tags: texts(self.tags@),
        }
    }
}

impl Content {
    /// A copy of this entry.
    pub fn duplicate(&self) -> (c: Content)
        ensures
            c@ == self@,
    {
        Content {
            title: self.title.clone(),
            illust_id: self.illust_id,
            url: self.url.clone(),
            user_name: self.user_name.clone(),
            tags: copy_strings(&self.tags),
        }
    }
}

/// One page of a ranking, as the site sends it.
pub struct RankList {
    pub contents: Vec<Content>,
    pub date: String,
}

/// The (empty) record of image details of a user's profile.
pub struct ImagesInfo {}

/// A copy of a list of strings.
pub fn copy_strings(v: &Vec<String>) -> (r: Vec<String>)
    ensures
        texts(r@) == texts(v@),
        r@.len() == v@.len(),
{
    let mut r: Vec<String> = Vec::new();
    let mut i: usize = 0;
    while i < v.len()
        invariant
            i <= v.len(),
            r@.len() == i,
            forall|j: int| 0 <= j < i ==> r@[j]@ == v@[j]@,
        decreases v.len() - i,
    {
        r.push(v[i].clone());
        i += 1;
    }
    assert(texts(r@) =~= texts(v@));
    r
}

impl ArtworksData {
    /// A copy with the same title, description, name and images.
    pub fn duplicate(&self) -> (r: ArtworksData)
        ensures
            r@ == self@,
    {
        ArtworksData {
            images: copy_strings(&self.images),
            title: self.title.clone(),
            description: self.description.clone(),
            user_name: self.user_name.clone(),
        }
    }
}

impl Artworks {
    /// Preload data that hold no artwork.
    pub fn new() -> (a: Artworks)
        ensures
            a.illust@ == Map::<Seq<char>, ArtworksData>::empty(),
    {
        Artworks { illust: StringHashMap::new() }
    }

    /// Puts the record `data` under `key`, in place of what stood there.
    pub fn insert(&mut self, key: String, data: ArtworksData)
        ensures
            final(self).illust@ == old(self).illust@.insert(key@, data),
    {
        self.illust.insert(key, data);
    }
}

impl ArtworkPagesData {
    /// A page without addresses.
    pub fn new() -> (p: ArtworkPagesData)
        ensures
            p.urls@ == Map::<Seq<char>, String>::empty(),
    {
        ArtworkPagesData { urls: StringHashMap::new() }
    }

    /// Puts the address `url` under the size name `name`, in place of
    /// what stood there.
    pub fn insert(&mut self, name: String, url: String)
        ensures
            final(self).urls@ == old(self).urls@.insert(name@, url),
    {
        self.urls.insert(name, url);
    }
}

} // verus!
