//! The commands of the command line, and what their arguments mean.

use vstd::prelude::*;
use vstd::string::*;
use crate::destination::Grouping;
use crate::rank::{rank_type_name, RankType};

verus! {

/// The arguments of the command that downloads one artwork.
pub struct ArtworkArgs {
    /// The output directory.
    pub path: String,
    /// The id of the artwork.
    pub id: u64,
}

/// The arguments of the command that downloads the artworks of a user.
pub struct UserArgs {
    /// The output directory.
    pub path: String,
    /// Whether each artwork gets a directory named after its title.
    pub is_group: bool,
    /// The id of the user.
    pub id: u64,
}

/// The arguments of the command that downloads a range of a ranking.
pub struct RankArgs {
    /// The first rank.
    pub start: usize,
    /// The last rank.
    pub end: usize,
    /// The output directory.
    pub path: String,
    /// The name of the ranking's category.
    pub rank_type: String,
    /// The name of the grouping, if one is asked for.
    pub path_group: Option<String>,
}

/// The commands.
pub enum Commands {
    Rank(RankArgs),
    Artwork(ArtworkArgs),
    User(UserArgs),
}

/// A parsed command line.
pub struct Cli {
    pub command: Commands,
}

/// The category that a name stands for: the one that bears it, and the
/// daily ranking for every other name.
pub open spec fn rank_type_of(s: Seq<char>) -> RankType {
    if s == "daily"@ {
        RankType::Daily
    } else if s == "weekly"@ {
        RankType::Weekly
    } else if s == "monthly"@ {
        RankType::Monthly
    } else if s == "rookie"@ {
        RankType::Rookie
    } else if s == "original"@ {
        RankType::Original
    } else if s == "daily_ai"@ {
        RankType::DailyAI
    } else if s == "male"@ {
        RankType::Male
    } else if s == "female"@ {
        RankType::Female
    } else {
        RankType::Daily
    }
}

/// The grouping that the name given on the command line stands for: by
/// author for `author`, by title for `title`, none otherwise.
pub open spec fn group_of(s: Option<Seq<char>>) -> Grouping {
    match s {
        Some(name) => if name == "author"@ {
            Grouping::ByAuthor
        } else if name == "title"@ {
            Grouping::ByTitle
        } else {
            Grouping::Flat
        },
        None => Grouping::Flat,
    }
}

/// The number of ranks from `start` to `end`, both included.
pub open spec fn span(start: nat, end: nat) -> nat {
    if end < start {
        0
    } else {
        (end - start + 1) as nat
    }
}

/// Whether two strings hold the same characters.
pub fn same_text(a: &str, b: &str) -> (r: bool)
    ensures
        r == (a@ == b@),
{
    let x: String = String::from_str(a);
    let y: String = String::from_str(b);
    x == y
}

/// The category that `s` names; the daily ranking where it names none.
pub fn parse_agrs_type(s: &str) -> (t: RankType)
    ensures
        t == rank_type_of(s@),
{
    if same_text(s, "daily") {
        RankType::Daily
    } else if same_text(s, "weekly") {
        RankType::Weekly
    } else if same_text(s, "monthly") {
        RankType::Monthly
    } else if same_text(s, "rookie") {
        RankType::Rookie
    } else if same_text(s, "original") {
        RankType::Original
    } else if same_text(s, "daily_ai") {
        RankType::DailyAI
    } else if same_text(s, "male") {
        RankType::Male
    } else if same_text(s, "female") {
        RankType::Female
    } else {
        RankType::Daily
    }
}

/// The name of a category names that category.
pub proof fn lemma_names_are_parsed_back(t: RankType)
    ensures
        rank_type_of(rank_type_name(t)) == t,
{
    reveal_strlit("daily");
    reveal_strlit("weekly");
    reveal_strlit("monthly");
    reveal_strlit("rookie");
    reveal_strlit("original");
    reveal_strlit("daily_ai");
    reveal_strlit("male");
    reveal_strlit("female");
    match t {
        RankType::Daily => {},
        RankType::Weekly => {
            assert("weekly"@[0] != "daily"@[0]);
        },
        RankType::Monthly => {
            assert("monthly"@[0] != "daily"@[0]);
            assert("monthly"@[0] != "weekly"@[0]);
        },
        RankType::Rookie => {
            assert("rookie"@[0] != "daily"@[0]);
            assert("rookie"@[0] != "weekly"@[0]);
            assert("rookie"@[0] != "monthly"@[0]);
        },
        RankType::Original => {
            assert("original"@[0] != "daily"@[0]);
            assert("original"@[0] != "weekly"@[0]);
            assert("original"@[0] != "monthly"@[0]);
            assert("original"@[0] != "rookie"@[0]);
        },
        RankType::DailyAI => {
            assert("daily_ai"@.len() != "daily"@.len());
            assert("daily_ai"@[0] != "weekly"@[0]);
            assert("daily_ai"@[0] != "monthly"@[0]);
            assert("daily_ai"@[0] != "rookie"@[0]);
            assert("daily_ai"@[0] != "original"@[0]);
        },
        RankType::Male => {
            assert("male"@.len() != "daily"@.len());
            assert("male"@.len() != "weekly"@.len());
            assert("male"@.len() != "monthly"@.len());
            assert("male"@.len() != "rookie"@.len());
            assert("male"@.len() != "original"@.len());
            assert("male"@.len() != "daily_ai"@.len());
        },
        RankType::Female => {
            assert("female"@[0] != "daily"@[0]);
            assert("female"@[0] != "weekly"@[0]);
            assert("female"@[0] != "monthly"@[0]);
            assert("female"@[0] != "rookie"@[0]);
            assert("female"@[0] != "original"@[0]);
            assert("female"@[0] != "daily_ai"@[0]);
            assert("female"@[0] != "male"@[0]);
        },
    }
}

/// The grouping that the name given on the command line stands for.
pub fn parse_group(s: Option<&str>) -> (g: Grouping)
    ensures
        g == group_of(
            match s {
                Some(name) => Some(name@),
                None => None,
            },
        ),
{
    match s {
        Some(name) => if same_text(name, "author") {
            Grouping::ByAuthor
        } else if same_text(name, "title") {
            Grouping::ByTitle
        } else {
            Grouping::Flat
        },
        None => Grouping::Flat,
    }
}

impl RankArgs {
    /// The category that is asked for.
    pub fn category(&self) -> (t: RankType)
        ensures
            t == rank_type_of(self.rank_type@),
    {
        parse_agrs_type(self.rank_type.as_str())
    }

    /// The grouping that is asked for.
    pub fn grouping(&self) -> (g: Grouping)
        ensures
            g == group_of(
                match self.path_group {
                    Some(name) => Some(name@),
                    None => None,
                },
            ),
    {
        match &self.path_group {
            Some(name) => parse_group(Some(name.as_str())),
            None => parse_group(None),
        }
    }

    /// The number of ranks that are asked for, held at the largest `u64`.
    pub fn count(&self) -> (n: u64)
        ensures
            n == (if span(self.start as nat, self.end as nat) > u64::MAX {
                u64::MAX as nat
            } else {
                span(self.start as nat, self.end as nat)
            }),
    {
        if self.end < self.start {
            0
        } else {
            ((self.end - self.start) as u64).saturating_add(1)
        }
    }
}

impl UserArgs {
    /// The grouping that is asked for: by title, or none.
    pub fn grouping(&self) -> (g: Grouping)
        ensures
            g == (if self.is_group {
                Grouping::ByTitle
            } else {
                Grouping::Flat
            }),
    {
        if self.is_group {
            Grouping::ByTitle
        } else {
            Grouping::Flat
        }
    }
}

} // verus!
