//! The state of the panels of the terminal interface, and what each key
//! does to it. Drawing, and starting the downloads that a key asks for, is
//! left to the caller.

use vstd::prelude::*;
use vstd::string::*;
use crate::cli::{parse_agrs_type, rank_type_of};
use crate::data::Content;
use crate::keys::{ring_next, ring_prev, step_back, step_forward, Input, Key};
use crate::rank::RankType;
use crate::sweep::{all_started, finished, idle_indices, started, Mark, Sweep, SweepEntry};
use crate::text::{char_is_digit, is_digit, is_numeral, numeral_value, parse_decimal, pop_char, push_char};

verus! {

/// The number that `s` writes, where it is a numeral that a `u64` holds.
pub open spec fn id_of(s: Seq<char>) -> Option<u64> {
    if is_numeral(s) && numeral_value(s) <= u64::MAX {
        Some(numeral_value(s) as u64)
    } else {
        None
    }
}

/// `s` without its last character, or `s` where it is empty.
pub open spec fn without_last(s: Seq<char>) -> Seq<char> {
    if s.len() == 0 {
        s
    } else {
        s.drop_last()
    }
}

/// The panel that downloads one artwork by its id.
pub struct ArtworkDownloaderState {
    input: String,
    error: bool,
}

/// An `ArtworkDownloaderState` as plain values: the id typed so far, and
/// whether the last download failed.
pub ghost struct ArtworkPanel {
    pub input: Seq<char>,
    pub error: bool,
}

impl View for ArtworkDownloaderState {
    type V = ArtworkPanel;

    closed spec fn view(&self) -> ArtworkPanel {
        ArtworkPanel { input: self.input@, error: self.error }
    }
}

impl ArtworkPanel {
    /// The panel after `key`.
    pub open spec fn after(self, key: Key) -> ArtworkPanel {
        match key {
            Key::Char(c) => ArtworkPanel {
                input: if is_digit(c) {
                    self.input.push(c)
                } else {
                    self.input
                },
                error: false,
            },
            Key::Backspace => ArtworkPanel { input: without_last(self.input), ..self },
            _ => self,
        }
    }

    /// The artwork whose download `key` asks for.
    pub open spec fn request(self, key: Key) -> Option<u64> {
        match key {
            Key::Enter => id_of(self.input),
            _ => None,
        }
    }
}

impl ArtworkDownloaderState {
    /// The panel with nothing typed and no failure shown.
    pub fn new() -> (p: Box<ArtworkDownloaderState>)
        ensures
            p@ == (ArtworkPanel { input: Seq::<char>::empty(), error: false }),
    {
        Box::new(ArtworkDownloaderState { input: String::new(), error: false })
    }

    /// What is typed.
    pub fn input(&self) -> (s: &str)
        ensures
            s@ == self@.input,
    {
        self.input.as_str()
    }

    /// Whether the last download failed.
    pub fn has_error(&self) -> (e: bool)
        ensures
            e == self@.error,
    {
        self.error
    }

    /// Takes note that the download that was asked for has failed.
    pub fn mark_failed(&mut self)
        ensures
            final(self)@ == (ArtworkPanel { error: true, ..old(self)@ }),
    {
        self.error = true;
    }

    /// Takes a key. A character clears the failure, and a digit is added
    /// to the id; backspace takes the last digit away; enter asks for the
    /// download of the artwork whose id is typed, which is returned.
    pub fn update(&mut self, key: Key) -> (request: Option<u64>)
        ensures
            final(self)@ == old(self)@.after(key),
            request == old(self)@.request(key),
    {
        match key {
            Key::Char(c) => {
                self.error = false;
                if char_is_digit(c) {
                    push_char(&mut self.input, c);
                }
                None
            },
            Key::Backspace => {
                pop_char(&mut self.input);
                None
            },
            Key::Enter => parse_decimal(self.input.as_str()),
            _ => None,
        }
    }
}

/// The entry after the selected one in a list of `len` entries that is
/// walked through and left at its end: from none to the first.
pub open spec fn walk_next(selected: Option<usize>, len: nat) -> Option<usize> {
    match selected {
        Some(i) => if i + 1 >= len {
            None
        } else {
            Some((i + 1) as usize)
        },
        None => if len == 0 {
            None
        } else {
            Some(0)
        },
    }
}

/// The entry before the selected one: from none to the last.
pub open spec fn walk_prev(selected: Option<usize>, len: nat) -> Option<usize> {
    match selected {
        Some(i) => if i == 0 {
            None
        } else {
            Some((i - 1) as usize)
        },
        None => if len == 0 {
            None
        } else {
            Some((len - 1) as usize)
        },
    }
}

/// The entry after the selected one in a list of `len` entries that is
/// walked round: from none, and from the last, to the first.
pub open spec fn round_next(selected: Option<usize>, len: nat) -> Option<usize> {
    match selected {
        Some(i) => Some(ring_next(i as nat, len) as usize),
        None => if len == 0 {
            None
        } else {
            Some(0)
        },
    }
}

/// The entry before the selected one in a list that is walked round: from
/// the first to the last, from none to the first.
pub open spec fn round_prev(selected: Option<usize>, len: nat) -> Option<usize> {
    match selected {
        Some(i) => Some(ring_prev(i as nat, len) as usize),
        None => if len == 0 {
            None
        } else {
            Some(0)
        },
    }
}

/// What a key asks of the caller of the user panel.
#[derive(Clone, Copy, Debug, PartialEq, Eq, Structural)]
pub enum UserAction {
    /// Nothing.
    Nothing,
    /// List the artworks of this user.
    List(u64),
    /// Download the artwork at this place of the list.
    Download(usize),
    /// Download every artwork of the list.
    DownloadAll,
}

/// The panel that lists the artworks of a user and downloads them.
pub struct UserDownloaderState {
    input: String,
    artworks: Sweep,
    selected: Option<usize>,
    error: bool,
}

/// A `UserDownloaderState` as plain values.
pub ghost struct UserPanel {
    pub input: Seq<char>,
    pub list: Seq<SweepEntry>,
    pub selected: Option<usize>,
    pub error: bool,
}

impl UserPanel {
    /// The panel after `key`.
    pub open spec fn after(self, key: Key) -> UserPanel {
        let len = self.list.len();
        match key {
            Key::Char(c) => UserPanel {
                input: if is_digit(c) && self.selected is None {
                    self.input.push(c)
                } else {
                    self.input
                },
                error: false,
                ..self
            },
            Key::Backspace => UserPanel { input: without_last(self.input), ..self },
            Key::Up => UserPanel { selected: walk_prev(self.selected, len), ..self },
            Key::Down => UserPanel { selected: walk_next(self.selected, len), ..self },
            _ => self,
        }
    }

    /// What `key` asks of the caller.
    pub open spec fn action(self, key: Key) -> UserAction {
        let len = self.list.len();
        match key {
            Key::Char(c) => if !(is_digit(c) && self.selected is None) && c == 'a' {
                UserAction::DownloadAll
            } else {
                UserAction::Nothing
            },
            Key::Enter => match self.selected {
                Some(i) => if i < len {
                    UserAction::Download(i)
                } else {
                    UserAction::Nothing
                },
                None => match id_of(self.input) {
                    Some(id) => UserAction::List(id),
                    None => UserAction::Nothing,
                },
            },
            _ => UserAction::Nothing,
        }
    }
}

impl View for UserDownloaderState {
    type V = UserPanel;

    closed spec fn view(&self) -> UserPanel {
        UserPanel {
            input: self.input@,
            list: self.artworks@,
            selected: self.selected,
            error: self.error,
        }
    }
}

impl UserDownloaderState {
    /// The panel with nothing typed, nothing listed and nothing selected.
    pub fn new() -> (p: Box<UserDownloaderState>)
        ensures
            p@ == (UserPanel {
                input: Seq::<char>::empty(),
                list: Seq::<SweepEntry>::empty(),
                selected: None,
                error: false,
            }),
    {
        let none: Vec<u64> = Vec::new();
        let p = UserDownloaderState {
            input: String::new(),
            artworks: Sweep::new(&none),
            selected: None,
            error: false,
        };
        assert(p@.list =~= Seq::<SweepEntry>::empty());
        Box::new(p)
    }

    /// What is typed.
    pub fn input(&self) -> (s: &str)
        ensures
            s@ == self@.input,
    {
        self.input.as_str()
    }

    /// The place of the list that is selected.
    pub fn selected(&self) -> (s: Option<usize>)
        ensures
            s == self@.selected,
    {
        self.selected
    }

    /// Whether the artworks of the user could not be listed.
    pub fn has_error(&self) -> (e: bool)
        ensures
            e == self@.error,
    {
        self.error
    }

    /// Takes note that the artworks of the user could not be listed.
    pub fn mark_failed(&mut self)
        ensures
            final(self)@ == (UserPanel { error: true, ..old(self)@ }),
    {
        self.error = true;
    }

    /// Puts the artworks `ids` in place of the list, none of them touched.
    pub fn set_artworks(&mut self, ids: &Vec<u64>)
        ensures
            final(self)@ == (UserPanel { list: final(self)@.list, ..old(self)@ }),
            final(self)@.list.len() == ids@.len(),
            forall|i: int|
                0 <= i < ids@.len() ==> #[trigger] final(self)@.list[i] == (SweepEntry {
                    id: ids@[i],
                    mark: Mark::Untouched,
                }),
    {
        self.artworks = Sweep::new(ids);
    }

    /// The entry at `index` of the list, if there is one.
    pub fn entry(&self, index: usize) -> (e: Option<SweepEntry>)
        ensures
            e == (if index < self@.list.len() {
                Some(self@.list[index as int])
            } else {
                None
            }),
    {
        self.artworks.entry(index)
    }

    /// The number of artworks in the list.
    pub fn len(&self) -> (n: usize)
        ensures
            n == self@.list.len(),
    {
        self.artworks.len()
    }

    /// Starts the download of the artwork at `index`, as `Sweep::start`.
    pub fn start(&mut self, index: usize) -> (id: Option<u64>)
        ensures
            final(self)@ == (UserPanel { list: started(old(self)@.list, index as int), ..old(self)@ }),
            id == (if index < old(self)@.list.len() && !(old(self)@.list[index as int].mark
                is Downloading) {
                Some(old(self)@.list[index as int].id)
            } else {
                None
            }),
    {
        self.artworks.start(index)
    }

    /// Starts the download of every artwork of the list, as
    /// `Sweep::start_all`.
    pub fn start_all(&mut self) -> (indices: Vec<usize>)
        ensures
            final(self)@ == (UserPanel { list: all_started(old(self)@.list), ..old(self)@ }),
            indices@ == idle_indices(old(self)@.list, old(self)@.list.len() as int),
    {
        self.artworks.start_all()
    }

    /// Marks the artwork at `index` with the outcome of its download, as
    /// `Sweep::finish`.
    pub fn finish(&mut self, index: usize, success: bool) -> (taken: bool)
        ensures
            final(self)@ == (UserPanel {
                list: finished(old(self)@.list, index as int, success),
                ..old(self)@
            }),
            taken == (index < old(self)@.list.len() && old(self)@.list[index as int].mark
                is Downloading),
    {
        self.artworks.finish(index, success)
    }

    /// Takes a key and says what it asks for. The list is not changed:
    /// the caller starts and ends the downloads in it.
    pub fn update(&mut self, key: Key) -> (action: UserAction)
        ensures
            final(self)@ == old(self)@.after(key),
            action == old(self)@.action(key),
    {
        let len: usize = self.artworks.len();
        match key {
            Key::Char(c) => {
                self.error = false;
                if char_is_digit(c) && self.selected.is_none() {
                    push_char(&mut self.input, c);
                    UserAction::Nothing
                } else if c == 'a' {
                    UserAction::DownloadAll
                } else {
                    UserAction::Nothing
                }
            },
            Key::Backspace => {
                pop_char(&mut self.input);
                UserAction::Nothing
            },
            Key::Enter => match self.selected {
                Some(i) => if i < len {
                    UserAction::Download(i)
                } else {
                    UserAction::Nothing
                },
                None => match parse_decimal(self.input.as_str()) {
                    Some(id) => UserAction::List(id),
                    None => UserAction::Nothing,
                },
            },
            Key::Up => {
                self.selected = match self.selected {
                    Some(i) => if i == 0 {
                        None
                    } else {
                        Some(i - 1)
                    },
                    None => if len == 0 {
                        None
                    } else {
                        Some(len - 1)
                    },
                };
                UserAction::Nothing
            },
            Key::Down => {
                self.selected = match self.selected {
                    Some(i) => if i >= len || i + 1 >= len {
                        None
                    } else {
                        Some(i + 1)
                    },
                    None => if len == 0 {
                        None
                    } else {
                        Some(0)
                    },
                };
                UserAction::Nothing
            },
            _ => UserAction::Nothing,
        }
    }
}

/// What an event asks of the caller of the ranking panel.
#[derive(Clone, Copy, Debug, PartialEq, Eq, Structural)]
pub enum RankAction {
    /// Nothing.
    Nothing,
    /// Drop the listing that is being fetched, and fetch the ranking of
    /// this category anew.
    Refresh(RankType),
    /// Download the artwork at this place of the list.
    Download(usize),
    /// Download every artwork of the list.
    DownloadAll,
}

/// The panel that shows a ranking and downloads from it.
pub struct RankState {
    tabs_index: usize,
    tabs: Vec<String>,
    selected: Option<usize>,
    contents: Vec<Content>,
    marks: Sweep,
}

/// A `RankState` as plain values.
pub ghost struct RankPanel {
    pub tabs_index: nat,
    pub tabs: Seq<Seq<char>>,
    pub selected: Option<usize>,
    pub contents: Seq<Content>,
    pub marks: Seq<SweepEntry>,
}

impl RankPanel {
    /// The category of the tab that is shown; the daily ranking where
    /// there is no such tab.
    pub open spec fn category(self) -> RankType {
        if self.tabs_index < self.tabs.len() {
            rank_type_of(self.tabs[self.tabs_index as int])
        } else {
            RankType::Daily
        }
    }

    /// In the list, every artwork has its mark.
    pub open spec fn wf(self) -> bool {
        &&& self.contents.len() == self.marks.len()
        &&& forall|i: int|
            0 <= i < self.contents.len() ==> (#[trigger] self.marks[i]).id
                == self.contents[i].illust_id
    }

    /// The panel with an empty list and its first place selected.
    pub open spec fn emptied(self) -> RankPanel {
        RankPanel {
            selected: Some(0),
            contents: Seq::<Content>::empty(),
            marks: Seq::<SweepEntry>::empty(),
            ..self
        }
    }

    /// The panel after `input`. A change of tab empties the list, which
    /// is fetched anew, and selects its first place.
    pub open spec fn after(self, input: Input) -> RankPanel {
        let len = self.contents.len();
        match input {
            Input::Key(Key::Tab) => RankPanel {
                tabs_index: ring_next(self.tabs_index, self.tabs.len()),
                ..self.emptied()
            },
            Input::Key(Key::BackTab) => RankPanel {
                tabs_index: ring_prev(self.tabs_index, self.tabs.len()),
                ..self.emptied()
            },
            Input::Key(Key::Down) | Input::ScrollDown => RankPanel {
                selected: round_next(self.selected, len),
                ..self
            },
            Input::Key(Key::Up) | Input::ScrollUp => RankPanel {
                selected: round_prev(self.selected, len),
                ..self
            },
            _ => self,
        }
    }

    /// What `input` asks of the caller. A change of tab asks for the
    /// ranking of the tab that is shown after it.
    pub open spec fn action(self, input: Input) -> RankAction {
        let len = self.contents.len();
        match input {
            Input::Key(Key::Tab) | Input::Key(Key::BackTab) => RankAction::Refresh(
                self.after(input).category(),
            ),
            Input::Key(Key::Enter) => match self.selected {
                Some(i) => if i < len {
                    RankAction::Download(i)
                } else {
                    RankAction::Nothing
                },
                None => RankAction::Nothing,
            },
            Input::Key(Key::Char(c)) => if c == 'a' {
                RankAction::DownloadAll
            } else {
                RankAction::Nothing
            },
            _ => RankAction::Nothing,
        }
    }
}

impl View for RankState {
    type V = RankPanel;

    closed spec fn view(&self) -> RankPanel {
        RankPanel {
            tabs_index: self.tabs_index as nat,
            tabs: crate::data::texts(self.tabs@),
            selected: self.selected,
            contents: self.contents@,
            marks: self.marks@,
        }
    }
}

impl RankState {
    /// The panel with the tabs `tabs`, the first of them shown, and an
    /// empty list.
    pub fn new(tabs: Vec<String>) -> (p: Box<RankState>)
        ensures
            p@.wf(),
            p@ == (RankPanel {
                tabs_index: 0,
                tabs: crate::data::texts(tabs@),
                selected: None,
                contents: Seq::<Content>::empty(),
                marks: Seq::<SweepEntry>::empty(),
            }),
    {
        let none: Vec<u64> = Vec::new();
        let p = RankState {
            tabs_index: 0,
            tabs,
            selected: None,
            contents: Vec::new(),
            marks: Sweep::new(&none),
        };
        assert(p@.marks =~= Seq::<SweepEntry>::empty());
        Box::new(p)
    }

    /// The number of tabs.
    pub fn tabs_len(&self) -> (n: usize)
        ensures
            n == self@.tabs.len(),
    {
        self.tabs.len()
    }

    /// The name of the tab at `index`.
    pub fn tab(&self, index: usize) -> (name: &str)
        requires
            index < self@.tabs.len(),
        ensures
            name@ == self@.tabs[index as int],
    {
        self.tabs[index].as_str()
    }

    /// The place of the tab that is shown.
    pub fn tabs_index(&self) -> (i: usize)
        ensures
            i == self@.tabs_index,
    {
        self.tabs_index
    }

    /// The place of the list that is selected.
    pub fn selected(&self) -> (s: Option<usize>)
        ensures
            s == self@.selected,
    {
        self.selected
    }

    /// The category of the tab that is shown.
    pub fn category(&self) -> (t: RankType)
        ensures
            t == self@.category(),
    {
        if self.tabs_index < self.tabs.len() {
            parse_agrs_type(self.tabs[self.tabs_index].as_str())
        } else {
            RankType::Daily
        }
    }

    fn tabs_next(&mut self)
        ensures
            final(self)@ == (RankPanel {
                tabs_index: ring_next(old(self)@.tabs_index, old(self)@.tabs.len()),
                ..old(self)@
            }),
    {
        self.tabs_index = step_forward(self.tabs_index, self.tabs.len());
    }

    fn tabs_prev(&mut self)
        ensures
            final(self)@ == (RankPanel {
                tabs_index: ring_prev(old(self)@.tabs_index, old(self)@.tabs.len()),
                ..old(self)@
            }),
    {
        self.tabs_index = step_back(self.tabs_index, self.tabs.len());
    }

    fn list_next(&mut self)
        ensures
            final(self)@ == (RankPanel {
                selected: round_next(old(self)@.selected, old(self)@.contents.len()),
                ..old(self)@
            }),
    {
        let len: usize = self.contents.len();
        self.selected = match self.selected {
            Some(i) => Some(step_forward(i, len)),
            None => if len == 0 {
                None
            } else {
                Some(0)
            },
        };
    }

    fn list_prev(&mut self)
        ensures
            final(self)@ == (RankPanel {
                selected: round_prev(old(self)@.selected, old(self)@.contents.len()),
                ..old(self)@
            }),
    {
        let len: usize = self.contents.len();
        self.selected = match self.selected {
            Some(i) => Some(step_back(i, len)),
            None => if len == 0 {
                None
            } else {
                Some(0)
            },
        };
    }

    /// Begins a listing anew: the list is emptied and its first place
    /// selected. Returns the category whose ranking is to be fetched; a
    /// listing that is still being fetched is to be dropped.
    pub fn get_data(&mut self) -> (t: RankType)
        ensures
            final(self)@.wf(),
            t == old(self)@.category(),
            final(self)@ == old(self)@.emptied(),
    {
        let t: RankType = self.category();
        let none: Vec<u64> = Vec::new();
        self.selected = Some(0);
        self.contents = Vec::new();
        self.marks = Sweep::new(&none);
        assert(self@.marks =~= Seq::<SweepEntry>::empty());
        t
    }

    /// Puts an entry of the ranking at the end of the list, untouched.
    pub fn push(&mut self, content: Content)
        requires
            old(self)@.wf(),
        ensures
            final(self)@.wf(),
            final(self)@ == (RankPanel {
                contents: old(self)@.contents.push(content),
                marks: old(self)@.marks.push(
                    SweepEntry { id: content.illust_id, mark: Mark::Untouched },
                ),
                ..old(self)@
            }),
    {
        self.marks.push(content.illust_id);
        self.contents.push(content);
    }

    /// The number of artworks in the list.
    pub fn len(&self) -> (n: usize)
        ensures
            n == self@.contents.len(),
    {
        self.contents.len()
    }

    /// The entry of the ranking at `index` of the list.
    pub fn content(&self, index: usize) -> (c: &Content)
        requires
            index < self@.contents.len(),
        ensures
            *c == self@.contents[index as int],
    {
        &self.contents[index]
    }

    /// The mark of the artwork at `index` of the list, if there is one.
    pub fn mark(&self, index: usize) -> (m: Option<Mark>)
        ensures
            m == (if index < self@.marks.len() {
                Some(self@.marks[index as int].mark)
            } else {
                None
            }),
    {
        match self.marks.entry(index) {
            Some(e) => Some(e.mark),
            None => None,
        }
    }

    /// Starts the download of the artwork at `index`, as `Sweep::start`.
    pub fn start(&mut self, index: usize) -> (id: Option<u64>)
        requires
            old(self)@.wf(),
        ensures
            final(self)@.wf(),
            final(self)@ == (RankPanel { marks: started(old(self)@.marks, index as int), ..old(self)@ }),
            id == (if index < old(self)@.marks.len() && !(old(self)@.marks[index as int].mark
                is Downloading) {
                Some(old(self)@.marks[index as int].id)
            } else {
                None
            }),
    {
        self.marks.start(index)
    }

    /// Starts the download of every artwork of the list, as
    /// `Sweep::start_all`.
    pub fn start_all(&mut self) -> (indices: Vec<usize>)
        requires
            old(self)@.wf(),
        ensures
            final(self)@.wf(),
            final(self)@ == (RankPanel { marks: all_started(old(self)@.marks), ..old(self)@ }),
            indices@ == idle_indices(old(self)@.marks, old(self)@.marks.len() as int),
    {
        self.marks.start_all()
    }

    /// Marks the artwork at `index` with the outcome of its download, as
    /// `Sweep::finish`.
    pub fn finish(&mut self, index: usize, success: bool) -> (taken: bool)
        requires
            old(self)@.wf(),
        ensures
            final(self)@.wf(),
            final(self)@ == (RankPanel {
                marks: finished(old(self)@.marks, index as int, success),
                ..old(self)@
            }),
            taken == (index < old(self)@.marks.len() && old(self)@.marks[index as int].mark
                is Downloading),
    {
        self.marks.finish(index, success)
    }

    /// Takes an event and says what it asks for. A change of tab moves
    /// to the new tab, empties the list and asks for the ranking of the
    /// new tab; no other event changes the list.
    pub fn update(&mut self, input: Input) -> (action: RankAction)
        requires
            old(self)@.wf(),
        ensures
            final(self)@.wf(),
            final(self)@ == old(self)@.after(input),
            action == old(self)@.action(input),
            action matches RankAction::Refresh(t) ==> t == final(self)@.category(),
            action is Refresh ==> final(self)@.contents.len() == 0,
    {
        match input {
            Input::Key(Key::Tab) => {
                self.tabs_next();
                let t: RankType = self.get_data();
                RankAction::Refresh(t)
            },
            Input::Key(Key::BackTab) => {
                self.tabs_prev();
                let t: RankType = self.get_data();
                RankAction::Refresh(t)
            },
            Input::Key(Key::Enter) => match self.selected {
                Some(i) => if i < self.contents.len() {
                    RankAction::Download(i)
                } else {
                    RankAction::Nothing
                },
                None => RankAction::Nothing,
            },
            Input::Key(Key::Down) | Input::ScrollDown => {
                self.list_next();
                RankAction::Nothing
            },
            Input::Key(Key::Up) | Input::ScrollUp => {
                self.list_prev();
                RankAction::Nothing
            },
            Input::Key(Key::Char(c)) => if c == 'a' {
                RankAction::DownloadAll
            } else {
                RankAction::Nothing
            },
            _ => RankAction::Nothing,
        }
    }
}

/// Where an event goes.
#[derive(Clone, Copy, Debug, PartialEq, Eq, Structural)]
pub enum Route {
    /// To the settings panel.
    Config,
    /// To the menu, which has taken it.
    Menu,
    /// To the panel at this place of the menu.
    Panel(usize),
    /// Nowhere.
    Nowhere,
}

/// The frame of the interface: the menu, which side has the focus, and
/// whether the settings are open.
#[derive(Clone, Copy, Debug, PartialEq, Eq, Structural)]
pub struct AppState {
    /// The number of entries of the menu.
    pub menu_len: usize,
    /// The entry of the menu that is selected.
    pub selected: Option<usize>,
    /// Whether the menu has the focus, and not the panel.
    pub focus: bool,
    /// Whether the settings are open.
    pub config_open: bool,
}

impl AppState {
    /// The entry of the menu after the selected one; the first from none.
    pub open spec fn menu_next(self) -> Option<usize> {
        match self.selected {
            Some(i) => Some(ring_next(i as nat, self.menu_len as nat) as usize),
            None => Some(0),
        }
    }

    /// The entry of the menu before the selected one; the first from none.
    pub open spec fn menu_prev(self) -> Option<usize> {
        match self.selected {
            Some(i) => Some(ring_prev(i as nat, self.menu_len as nat) as usize),
            None => Some(0),
        }
    }

    /// The frame after `input`: only the menu, while it has the focus and
    /// the settings are closed, moves.
    pub open spec fn after(self, input: Input) -> AppState {
        if self.config_open || !self.focus {
            self
        } else {
            match input {
                Input::Key(Key::Down) => AppState { selected: self.menu_next(), ..self },
                Input::Key(Key::Up) => AppState { selected: self.menu_prev(), ..self },
                _ => self,
            }
        }
    }

    /// Where `input` goes: to the settings while they are open, else to
    /// the menu while it has the focus, else to the selected panel.
    pub open spec fn route(self, input: Input) -> Route {
        if self.config_open {
            Route::Config
        } else if self.focus {
            Route::Menu
        } else {
            match self.selected {
                Some(i) => Route::Panel(i),
                None => Route::Nowhere,
            }
        }
    }

    /// The frame after the keys that work everywhere: left and right move
    /// the focus while the settings are closed, escape opens and closes
    /// the settings.
    pub open spec fn after_global(self, key: Key) -> AppState {
        match key {
            Key::Left | Key::Right => if self.config_open {
                self
            } else {
                AppState { focus: !self.focus, ..self }
            },
            Key::Esc => AppState { config_open: !self.config_open, ..self },
            _ => self,
        }
    }

    /// A frame over a menu of `menu_len` entries: nothing selected, the
    /// focus on the menu, the settings closed.
    pub fn new(menu_len: usize) -> (a: AppState)
        ensures
            a == (AppState { menu_len, selected: None, focus: true, config_open: false }),
    {
        AppState { menu_len, selected: None, focus: true, config_open: false }
    }

    /// Selects the first entry of the menu.
    pub fn init(&mut self)
        ensures
            *final(self) == (AppState { selected: Some(0), ..*old(self) }),
    {
        self.selected = Some(0);
    }

    fn next(&mut self)
        ensures
            *final(self) == (AppState { selected: old(self).menu_next(), ..*old(self) }),
    {
        self.selected = match self.selected {
            Some(i) => Some(step_forward(i, self.menu_len)),
            None => Some(0),
        };
    }

    fn prev(&mut self)
        ensures
            *final(self) == (AppState { selected: old(self).menu_prev(), ..*old(self) }),
    {
        self.selected = match self.selected {
            Some(i) => Some(step_back(i, self.menu_len)),
            None => Some(0),
        };
    }

    /// Takes an event: moves the menu where it is meant for it, and says
    /// where it goes.
    pub fn update(&mut self, input: Input) -> (route: Route)
        ensures
            *final(self) == old(self).after(input),
            route == old(self).route(input),
    {
        if self.config_open {
            Route::Config
        } else if self.focus {
            match input {
                Input::Key(Key::Down) => self.next(),
                Input::Key(Key::Up) => self.prev(),
                _ => {},
            }
            Route::Menu
        } else {
            match self.selected {
                Some(i) => Route::Panel(i),
                None => Route::Nowhere,
            }
        }
    }

    /// Takes a key that works everywhere, and returns whether it asks to
    /// leave the program, which `q` does.
    pub fn handle_global(&mut self, key: Key) -> (quit: bool)
        ensures
            quit == (key == Key::Char('q')),
            *final(self) == (if quit {
                *old(self)
            } else {
                old(self).after_global(key)
            }),
    {
        match key {
            Key::Char(c) => c == 'q',
            Key::Left | Key::Right => {
                if !self.config_open {
                    self.focus = !self.focus;
                }
                false
            },
            Key::Esc => {
                self.config_open = !self.config_open;
                false
            },
            _ => false,
        }
    }
}

} // verus!
