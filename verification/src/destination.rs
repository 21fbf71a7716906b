//! Where the images of an artwork are stored: the directory that a grouping
//! mode selects under the output directory, and the name of each image file.

use vstd::prelude::*;
use vstd::string::*;
use crate::data::{ArtworkModel, ArtworksData};
use crate::text::{
    decimal,
    decimal_string,
    is_digit,
    last_chars,
    lemma_decimal_is_injective,
    lemma_decimal_is_read_back,
    suffix,
};

verus! {

/// How downloaded files are sorted into directories.
#[derive(Clone, Copy, Debug, PartialEq, Eq, Structural)]
pub enum Grouping {
    /// Every file directly in the output directory.
    Flat,
    /// One directory for each attribution name.
    ByAuthor,
    /// One directory for each title.
    ByTitle,
    /// One directory for each artwork: its title and its id.
    ByArtwork,
}

/// `p` as a directory prefix: it ends in `/` unless it is empty.
pub open spec fn as_directory(p: Seq<char>) -> Seq<char> {
    if p.len() == 0 || p.last() == '/' {
        p
    } else {
        p.push('/')
    }
}

/// The directory for an artwork's files under `base`.
pub open spec fn plan_spec(base: Seq<char>, meta: ArtworkModel, id: nat, mode: Grouping) -> Seq<
    char,
> {
    match mode {
        Grouping::Flat => as_directory(base),
        Grouping::ByAuthor => as_directory(base) + meta.user_name + seq!['/'],
        Grouping::ByTitle => as_directory(base) + meta.title + seq!['/'],
        Grouping::ByArtwork => as_directory(base) + meta.title + seq!['-'] + decimal(id) + seq![
            '/',
        ],
    }
}

/// What stands behind the dot of a file name: the last three characters of
/// the image's address.
pub open spec fn extension_spec(url: Seq<char>) -> Seq<char> {
    suffix(url, 3)
}

/// The name of image number `index`: title, artwork id where one is given,
/// index, and the extension.
pub open spec fn file_name_spec(title: Seq<char>, id: Option<nat>, index: nat, url: Seq<char>) -> Seq<
    char,
> {
    match id {
        Some(n) => title + seq!['-'] + decimal(n) + seq!['-'] + decimal(index) + seq!['.']
            + extension_spec(url),
        None => title + seq!['-'] + decimal(index) + seq!['.'] + extension_spec(url),
    }
}

/// The full path of image number `index` of an artwork.
pub open spec fn destination_spec(
    base: Seq<char>,
    meta: ArtworkModel,
    id: nat,
    mode: Grouping,
    index: nat,
    name_with_id: bool,
) -> Seq<char>
    recommends
        index < meta.images.len(),
{
    plan_spec(base, meta, id, mode) + file_name_spec(
        meta.title,
        if name_with_id {
            Some(id)
        } else {
            None
        },
        index,
        meta.images[index as int],
    )
}

/// `p` with a `/` added where it is not empty and lacks one at its end.
pub fn directory_of(p: &str) -> (r: String)
    ensures
        r@ == as_directory(p@),
{
    let n: usize = p.unicode_len();
    let mut r: String = String::from_str(p);
    if n > 0 && p.get_char(n - 1) != '/' {
        proof {
            reveal_strlit("/");
        }
        r.append("/");
        assert(r@ =~= p@.push('/'));
    }
    r
}

/// The directory in which the files of artwork `id` are stored. No directory
/// is created here.
pub fn plan(base: &str, metadata: &ArtworksData, id: u64, mode: Grouping) -> (dir: String)
    ensures
        dir@ == plan_spec(base@, metadata@, id as nat, mode),
{
    proof {
        reveal_strlit("/");
        reveal_strlit("-");
    }
    let mut dir: String = directory_of(base);
    match mode {
        Grouping::Flat => {},
        Grouping::ByAuthor => {
            dir.append(metadata.user_name.as_str());
            dir.append("/");
            assert(dir@ =~= as_directory(base@) + metadata@.user_name + seq!['/']);
        },
        Grouping::ByTitle => {
            dir.append(metadata.title.as_str());
            dir.append("/");
            assert(dir@ =~= as_directory(base@) + metadata@.title + seq!['/']);
        },
        Grouping::ByArtwork => {
            dir.append(metadata.title.as_str());
            dir.append("-");
            let num: String = decimal_string(id);
            dir.append(num.as_str());
            dir.append("/");
            assert(dir@ =~= as_directory(base@) + metadata@.title + seq!['-'] + decimal(id as nat)
                + seq!['/']);
        },
    }
    dir
}

/// The extension taken from an image's address.
pub fn extension(url: &str) -> (ext: String)
    ensures
        ext@ == extension_spec(url@),
{
    last_chars(url, 3)
}

/// The file name of image number `index`.
pub fn file_name(title: &str, id: Option<u64>, index: usize, url: &str) -> (name: String)
    ensures
        name@ == file_name_spec(
            title@,
            match id {
                Some(n) => Some(n as nat),
                None => None,
            },
            index as nat,
            url@,
        ),
{
    proof {
        reveal_strlit("-");
        reveal_strlit(".");
    }
    let mut name: String = String::from_str(title);
    name.append("-");
    match id {
        Some(n) => {
            let num: String = decimal_string(n);
            name.append(num.as_str());
            name.append("-");
        },
        None => {},
    }
    let idx: String = decimal_string(index as u64);
    name.append(idx.as_str());
    name.append(".");
    let ext: String = extension(url);
    name.append(ext.as_str());
    proof {
        match id {
            Some(n) => {
                assert(name@ =~= title@ + seq!['-'] + decimal(n as nat) + seq!['-'] + decimal(
                    index as nat,
                ) + seq!['.'] + extension_spec(url@));
            },
            None => {
                assert(name@ =~= title@ + seq!['-'] + decimal(index as nat) + seq!['.']
                    + extension_spec(url@));
            },
        }
    }
    name
}

/// The full path of image number `index` of artwork `id`.
pub fn destination(
    base: &str,
    metadata: &ArtworksData,
    id: u64,
    mode: Grouping,
    index: usize,
    name_with_id: bool,
) -> (path: String)
    requires
        index < metadata.images@.len(),
    ensures
        path@ == destination_spec(base@, metadata@, id as nat, mode, index as nat, name_with_id),
{
    let mut path: String = plan(base, metadata, id, mode);
    let name: String = file_name(
        metadata.title.as_str(),
        if name_with_id {
            Some(id)
        } else {
            None
        },
        index,
        metadata.images[index].as_str(),
    );
    path.append(name.as_str());
    path
}

/// Two texts that begin with numerals of different numbers, each followed
/// by a dot, differ.
proof fn lemma_numbered_tails_differ(i: nat, e1: Seq<char>, j: nat, e2: Seq<char>)
    requires
        i != j,
    ensures
        decimal(i) + seq!['.'] + e1 != decimal(j) + seq!['.'] + e2,
{
    let x = decimal(i) + seq!['.'] + e1;
    let y = decimal(j) + seq!['.'] + e2;
    lemma_decimal_is_read_back(i);
    lemma_decimal_is_read_back(j);
    if x == y {
        let a = decimal(i).len() as int;
        let b = decimal(j).len() as int;
        assert(x[a] == '.');
        assert(y[b] == '.');
        if a < b {
            assert(y[a] == decimal(j)[a]);
            assert(is_digit(decimal(j)[a]));
        } else if b < a {
            assert(x[b] == decimal(i)[b]);
            assert(is_digit(decimal(i)[b]));
        } else {
            assert(decimal(i) =~= x.take(a));
            assert(decimal(j) =~= y.take(a));
            lemma_decimal_is_injective(i, j);
        }
    }
}

/// The images of one artwork are stored in files of their own: different
/// indices give different paths.
pub proof fn lemma_destinations_differ(
    base: Seq<char>,
    meta: ArtworkModel,
    id: nat,
    mode: Grouping,
    name_with_id: bool,
    i: nat,
    j: nat,
)
    requires
        i != j,
    ensures
        destination_spec(base, meta, id, mode, i, name_with_id) != destination_spec(
            base,
            meta,
            id,
            mode,
            j,
            name_with_id,
        ),
{
    let prefix = if name_with_id {
        plan_spec(base, meta, id, mode) + (meta.title + seq!['-'] + decimal(id) + seq!['-'])
    } else {
        plan_spec(base, meta, id, mode) + (meta.title + seq!['-'])
    };
    let ti = decimal(i) + seq!['.'] + extension_spec(meta.images[i as int]);
    let tj = decimal(j) + seq!['.'] + extension_spec(meta.images[j as int]);
    let di = destination_spec(base, meta, id, mode, i, name_with_id);
    let dj = destination_spec(base, meta, id, mode, j, name_with_id);
    assert(di =~= prefix + ti);
    assert(dj =~= prefix + tj);
    lemma_numbered_tails_differ(
        i,
        extension_spec(meta.images[i as int]),
        j,
        extension_spec(meta.images[j as int]),
    );
    if di == dj {
        assert(ti =~= (prefix + ti).subrange(prefix.len() as int, (prefix + ti).len() as int));
        assert(tj =~= (prefix + tj).subrange(prefix.len() as int, (prefix + tj).len() as int));
    }
}

} // verus!
