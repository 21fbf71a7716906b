//! The ranking listing: which page of a ranking is fetched next, and which
//! entry is handed out next, for a range of ranks.

use vstd::prelude::*;
use vstd::string::*;
use std::ops::Range;
use crate::data::Content;
use crate::text::{decimal, decimal_string};

verus! {

/// The number of entries on a full page of a ranking.
pub const PAGE_SIZE: usize = 50;

/// The categories of rankings.
#[derive(Clone, Copy, Debug, PartialEq, Eq, Structural)]
pub enum RankType {
    Daily,
    Weekly,
    Monthly,
    Rookie,
    Original,
    DailyAI,
    Male,
    Female,
}

/// The name of a category in a ranking's address.
pub open spec fn rank_type_name(t: RankType) -> Seq<char> {
    match t {
        RankType::Daily => "daily"@,
        RankType::Weekly => "weekly"@,
        RankType::Monthly => "monthly"@,
        RankType::Rookie => "rookie"@,
        RankType::Original => "original"@,
        RankType::DailyAI => "daily_ai"@,
        RankType::Male => "male"@,
        RankType::Female => "female"@,
    }
}

/// The address of page `page` of a ranking.
pub open spec fn rank_url(t: RankType, is_r18: bool, page: nat) -> Seq<char> {
    "https://www.pixiv.net/ranking.php?mode="@ + rank_type_name(t) + (if is_r18 {
        "_r18"@
    } else {
        Seq::<char>::empty()
    }) + "&format=json&p="@ + decimal(page)
}

/// The page (counted from 1) on which rank `rank` (counted from 1) stands.
pub open spec fn page_of(rank: nat) -> nat
    recommends
        rank >= 1,
{
    ((rank - 1) / 50 + 1) as nat
}

/// The number of entries that stand before rank `rank` on its page.
pub open spec fn offset_in_page(rank: nat) -> nat
    recommends
        rank >= 1,
{
    ((rank - 1) % 50) as nat
}

impl RankType {
    /// The name of this category in a ranking's address.
    pub fn name(&self) -> (s: &'static str)
        ensures
            s@ == rank_type_name(*self),
    {
        match self {
            RankType::Daily => "daily",
            RankType::Weekly => "weekly",
            RankType::Monthly => "monthly",
            RankType::Rookie => "rookie",
            RankType::Original => "original",
            RankType::DailyAI => "daily_ai",
            RankType::Male => "male",
            RankType::Female => "female",
        }
    }

    /// The name of this category as a string of its own.
    pub fn to_string(&self) -> (s: String)
        ensures
            s@ == rank_type_name(*self),
    {
        String::from_str(self.name())
    }
}

/// What a listing asks for or hands out.
pub enum RankStep {
    /// The next entry of the range.
    Yield(Content),
    /// This page has to be fetched and supplied before the listing goes on.
    Fetch(usize),
    /// The range is exhausted, or the ranking has ended.
    Done,
}

/// A listing as plain values.
pub ghost struct RankModel {
    /// The rank of the entry that is handed out next (while not `finished`).
    pub next_rank: nat,
    /// The last rank of the range.
    pub end: nat,
    /// The entries that were fetched and not yet handed out, by rank.
    pub queue: Seq<Content>,
    /// The page that was supplied last was not full: no page follows it.
    pub last_page: bool,
    /// Nothing more is handed out.
    pub finished: bool,
}

impl RankModel {
    /// Whether the listing is at its end.
    pub open spec fn done(self) -> bool {
        self.finished || self.next_rank > self.end || (self.queue.len() == 0 && self.last_page)
    }

    /// Whether the listing waits for a page.
    pub open spec fn awaits_page(self) -> bool {
        !self.done() && self.queue.len() == 0
    }

    /// What `next_step` answers.
    pub open spec fn step_answer(self) -> RankStep {
        if self.done() {
            RankStep::Done
        } else if self.queue.len() > 0 {
            RankStep::Yield(self.queue[0])
        } else {
            RankStep::Fetch(page_of(self.next_rank) as usize)
        }
    }

    /// The listing after `next_step`.
    pub open spec fn after_step(self) -> RankModel {
        if self.done() {
            RankModel { finished: true, ..self }
        } else if self.queue.len() > 0 {
            RankModel {
                next_rank: if self.next_rank >= self.end {
                    self.next_rank
                } else {
                    self.next_rank + 1
                },
                queue: self.queue.drop_first(),
                finished: self.next_rank >= self.end,
                ..self
            }
        } else {
            self
        }
    }

    /// The part of a supplied page that belongs to the listing: what stands
    /// from the awaited rank on, and at most a full page.
    pub open spec fn useful_part(self, contents: Seq<Content>) -> Seq<Content> {
        let upto = if contents.len() < 50 {
            contents.len() as int
        } else {
            50
        };
        if offset_in_page(self.next_rank) >= upto {
            Seq::<Content>::empty()
        } else {
            contents.subrange(offset_in_page(self.next_rank) as int, upto)
        }
    }

    /// The listing after the awaited page was supplied.
    pub open spec fn after_page(self, contents: Seq<Content>) -> RankModel {
        if !self.awaits_page() {
            self
        } else {
            RankModel {
                queue: self.useful_part(contents),
                last_page: contents.len() < 50,
                finished: self.useful_part(contents).len() == 0,
                ..self
            }
        }
    }

    /// The listing after the awaited page could not be had.
    pub open spec fn after_failure(self) -> RankModel {
        if !self.awaits_page() {
            self
        } else {
            RankModel { finished: true, ..self }
        }
    }
}

/// A listing of one ranking over a range of ranks, both ends included and
/// counted from 1.
pub struct Rank {
    rank_type: RankType,
    is_r18: bool,
    download_range: Range<usize>,
    queue: Vec<Content>,
    current: usize,
    last_page: bool,
    finished: bool,
}

impl View for Rank {
    type V = RankModel;

    closed spec fn view(&self) -> RankModel {
        RankModel {
            next_rank: self.current as nat,
            end: self.download_range.end as nat,
            queue: self.queue@,
            last_page: self.last_page,
            finished: self.finished,
        }
    }
}

impl Rank {
    /// The category of the ranking.
    pub closed spec fn category(&self) -> RankType {
        self.rank_type
    }

    /// Whether the adult ranking is listed.
    pub closed spec fn adult(&self) -> bool {
        self.is_r18
    }

    /// The ranks are counted from 1, and the one that comes next is known.
    pub closed spec fn wf(&self) -> bool {
        self.current >= 1
    }

    /// A listing of the ranks from `download_range.start` (or 1, where that
    /// is 0) to `download_range.end`, with nothing fetched.
    pub fn new(rank_type: RankType, is_r18: bool, download_range: Range<usize>) -> (r: Rank)
        ensures
            r.wf(),
            r.category() == rank_type,
            r.adult() == is_r18,
            r@ == (RankModel {
                next_rank: if download_range.start == 0 {
                    1
                } else {
                    download_range.start as nat
                },
                end: download_range.end as nat,
                queue: Seq::<Content>::empty(),
                last_page: false,
                finished: false,
            }),
    {
        let start: usize = download_range.start;
        Rank {
            rank_type,
            is_r18,
            download_range,
            queue: Vec::new(),
            current: if start == 0 {
                1
            } else {
                start
            },
            last_page: false,
            finished: false,
        }
    }

    /// The address of page `page` of this ranking.
    pub fn get_url(&self, page: usize) -> (url: String)
        ensures
            url@ == rank_url(self.category(), self.adult(), page as nat),
    {
        let mut url: String = String::from_str("https://www.pixiv.net/ranking.php?mode=");
        url.append(self.rank_type.name());
        if self.is_r18 {
            url.append("_r18");
        } else {
            assert(url@ + Seq::<char>::empty() =~= url@);
        }
        url.append("&format=json&p=");
        let number: String = decimal_string(page as u64);
        url.append(number.as_str());
        url
    }

    /// Hands out the next entry, or names the page that is needed first, or
    /// says that the listing is at its end.
    pub fn next_step(&mut self) -> (step: RankStep)
        requires
            old(self).wf(),
        ensures
            final(self).wf(),
            step == old(self)@.step_answer(),
            final(self)@ == old(self)@.after_step(),
            final(self).category() == old(self).category(),
            final(self).adult() == old(self).adult(),
    {
        if self.finished || self.current > self.download_range.end || (self.queue.len() == 0
            && self.last_page) {
            self.finished = true;
            return RankStep::Done;
        }
        if self.queue.len() > 0 {
            let entry: Content = self.queue.remove(0);
            assert(self.queue@ =~= old(self).queue@.drop_first());
            if self.current >= self.download_range.end {
                self.finished = true;
            } else {
                self.current = self.current + 1;
            }
            return RankStep::Yield(entry);
        }
        RankStep::Fetch((self.current - 1) / PAGE_SIZE + 1)
    }

    /// Takes the entries of the page that `next_step` asked for. Where no
    /// page is awaited the listing stays as it is.
    pub fn supply_page(&mut self, contents: Vec<Content>)
        requires
            old(self).wf(),
        ensures
            final(self).wf(),
            final(self)@ == old(self)@.after_page(contents@),
            final(self).category() == old(self).category(),
            final(self).adult() == old(self).adult(),
    {
        if self.finished || self.current > self.download_range.end || self.queue.len() > 0
            || self.last_page {
            return ;
        }
        let mut contents = contents;
        let ghost given = contents@;
        let short: bool = contents.len() < PAGE_SIZE;
        if !short {
            contents.truncate(PAGE_SIZE);
        }
        let skip: usize = (self.current - 1) % PAGE_SIZE;
        if skip >= contents.len() {
            self.queue = Vec::new();
            self.finished = true;
        } else {
            let rest: Vec<Content> = contents.split_off(skip);
            assert(rest@ =~= old(self)@.useful_part(given));
            self.queue = rest;
        }
        self.last_page = short;
    }

    /// Takes note that the page that `next_step` asked for could not be had:
    /// the listing ends.
    pub fn supply_failure(&mut self)
        requires
            old(self).wf(),
        ensures
            final(self).wf(),
            final(self)@ == old(self)@.after_failure(),
            final(self).category() == old(self).category(),
            final(self).adult() == old(self).adult(),
    {
        if self.finished || self.current > self.download_range.end || self.queue.len() > 0
            || self.last_page {
            return ;
        }
        self.finished = true;
    }
}

/// What a listing hands out and which pages it asks for, in their order.
pub ghost struct Listed {
    pub entries: Seq<Content>,
    pub pages: Seq<nat>,
}

/// Page `page` of the ranking `ranking`, whose entry of rank `r` stands at
/// `r - 1`: fifty entries, or what is left of the ranking.
pub open spec fn page_of_ranking(ranking: Seq<Content>, page: nat) -> Seq<Content> {
    let lo = if (page - 1) * 50 < ranking.len() {
        (page - 1) * 50
    } else {
        ranking.len() as int
    };
    let hi = if page * 50 < ranking.len() {
        page * 50 as int
    } else {
        ranking.len() as int
    };
    ranking.subrange(lo, hi)
}

/// The pages from `first` to `last`, both included.
pub open spec fn pages_between(first: nat, last: nat) -> Seq<nat> {
    if first > last {
        Seq::<nat>::empty()
    } else {
        Seq::new((last - first + 1) as nat, |i: int| (first + i) as nat)
    }
}

/// What the listing `m` hands out and asks for in `steps` steps, when
/// every page that it asks for is supplied from `ranking`.
pub open spec fn listed(m: RankModel, ranking: Seq<Content>, steps: nat) -> Listed
    decreases steps,
{
    if steps == 0 {
        Listed { entries: Seq::<Content>::empty(), pages: Seq::<nat>::empty() }
    } else {
        match m.step_answer() {
            RankStep::Done => Listed { entries: Seq::<Content>::empty(), pages: Seq::<nat>::empty() },
            RankStep::Yield(c) => {
                let rest = listed(m.after_step(), ranking, (steps - 1) as nat);
                Listed { entries: seq![c] + rest.entries, pages: rest.pages }
            },
            RankStep::Fetch(p) => {
                let rest = listed(
                    m.after_step().after_page(page_of_ranking(ranking, p as nat)),
                    ranking,
                    (steps - 1) as nat,
                );
                Listed { entries: rest.entries, pages: seq![p as nat] + rest.pages }
            },
        }
    }
}

/// A listing on its way through `ranking`: what it has fetched and not yet
/// handed out are the entries from its next rank to the end of a page.
spec fn on_its_way(m: RankModel, ranking: Seq<Content>) -> bool {
    let r = m.next_rank;
    let q = r - 1 + m.queue.len();
    let page_end = if page_of(r) * 50 < ranking.len() {
        page_of(r) * 50 as int
    } else {
        ranking.len() as int
    };
    &&& !m.finished
    &&& 1 <= r <= m.end <= ranking.len()
    &&& m.end <= usize::MAX
    &&& m.queue.len() == 0 ==> !m.last_page
    &&& m.queue.len() > 0 ==> q == page_end && m.queue == ranking.subrange(r - 1, q)
    &&& m.last_page ==> q == ranking.len()
}

/// The steps that a listing on its way needs at most.
spec fn steps_needed(m: RankModel) -> int {
    2 * (m.end - m.next_rank + 1) - (if m.queue.len() > 0 {
        1int
    } else {
        0int
    })
}

proof fn lemma_listing_on_its_way(m: RankModel, ranking: Seq<Content>, steps: nat)
    requires
        on_its_way(m, ranking),
        steps >= steps_needed(m),
    ensures
        listed(m, ranking, steps).entries == ranking.subrange(m.next_rank - 1, m.end as int),
        listed(m, ranking, steps).pages == pages_between(
            if m.queue.len() > 0 {
                page_of(m.next_rank) + 1
            } else {
                page_of(m.next_rank)
            },
            page_of(m.end),
        ),
    decreases steps,
{
    let r = m.next_rank;
    let end = m.end;
    if m.queue.len() > 0 {
        let q = r - 1 + m.queue.len();
        assert(m.step_answer() == RankStep::Yield(m.queue[0]));
        assert(m.queue[0] == ranking[r - 1]);
        let after = m.after_step();
        let rest = listed(after, ranking, (steps - 1) as nat);
        if r >= end {
            assert(after.finished);
            assert(after.step_answer() is Done);
            assert(rest.entries =~= Seq::<Content>::empty());
            assert(rest.pages =~= Seq::<nat>::empty());
            assert(listed(m, ranking, steps).entries =~= ranking.subrange(r - 1, end as int));
            assert(pages_between((page_of(r) + 1) as nat, page_of(end)) =~= Seq::<nat>::empty());
        } else {
            assert(after.queue =~= ranking.subrange(r as int, q));
            if after.queue.len() > 0 {
                assert(page_of(r + 1) == page_of(r));
            } else {
                assert(page_of(r + 1) == page_of(r) + 1);
            }
            assert(on_its_way(after, ranking));
            lemma_listing_on_its_way(after, ranking, (steps - 1) as nat);
            assert(listed(m, ranking, steps).entries =~= ranking.subrange(r - 1, end as int));
        }
    } else {
        let p = page_of(r);
        assert(m.step_answer() == RankStep::Fetch(p as usize));
        let contents = page_of_ranking(ranking, p);
        let lo = (p - 1) * 50;
        let hi = if p * 50 < ranking.len() {
            p * 50 as int
        } else {
            ranking.len() as int
        };
        assert(contents == ranking.subrange(lo, hi));
        assert(offset_in_page(r) == r - 1 - lo);
        assert(m.after_step() == m);
        assert(m.useful_part(contents) =~= ranking.subrange(r - 1, hi));
        let after = m.after_page(contents);
        assert(on_its_way(after, ranking));
        lemma_listing_on_its_way(after, ranking, (steps - 1) as nat);
        let rest = listed(after, ranking, (steps - 1) as nat);
        assert(p <= page_of(end));
        assert(seq![p] + pages_between((p + 1) as nat, page_of(end)) =~= pages_between(p, page_of(end)));
    }
}

/// A listing of the ranks from `start` to `end` of a ranking that has them
/// hands out exactly those entries, in rank order, each once; and it asks
/// for exactly the pages on which they stand, from that of `start` to that
/// of `end`, each once.
pub proof fn lemma_listing_covers_its_range(
    ranking: Seq<Content>,
    start: nat,
    end: nat,
    steps: nat,
)
    requires
        1 <= start <= end <= ranking.len(),
        end <= usize::MAX,
        steps >= 2 * (end - start + 1),
    ensures
        ({
            let fresh = RankModel {
                next_rank: start,
                end,
                queue: Seq::<Content>::empty(),
                last_page: false,
                finished: false,
            };
            &&& listed(fresh, ranking, steps).entries == ranking.subrange(start - 1, end as int)
            &&& listed(fresh, ranking, steps).pages == pages_between(page_of(start), page_of(end))
        }),
{
    let fresh = RankModel {
        next_rank: start,
        end,
        queue: Seq::<Content>::empty(),
        last_page: false,
        finished: false,
    };
    lemma_listing_on_its_way(fresh, ranking, steps);
}

} // verus!
