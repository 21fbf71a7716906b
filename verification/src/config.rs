//! The settings: where files go and how they are grouped, and the state of
//! the panel in which the user changes them.

use vstd::prelude::*;
use vstd::string::*;
use crate::destination::Grouping;
use crate::keys::{ring_next, ring_prev, step_back, step_forward, Key};
use crate::text::{pop_char, push_char};

verus! {

/// The grouping modes that the settings offer.
#[derive(Clone, Copy, Debug, PartialEq, Eq, Structural)]
pub enum GroupType {
    Artwork,
    Author,
}

/// The name under which a grouping mode is shown.
pub open spec fn group_type_name(g: GroupType) -> Seq<char> {
    match g {
        GroupType::Author => "author"@,
        GroupType::Artwork => "artwork"@,
    }
}

/// The grouping that a setting stands for.
pub open spec fn grouping_spec(g: Option<GroupType>) -> Grouping {
    match g {
        None => Grouping::Flat,
        Some(GroupType::Author) => Grouping::ByAuthor,
        Some(GroupType::Artwork) => Grouping::ByArtwork,
    }
}

impl GroupType {
    /// The name under which this mode is shown.
    pub fn name(&self) -> (s: &'static str)
        ensures
            s@ == group_type_name(*self),
    {
        match self {
            GroupType::Author => "author",
            GroupType::Artwork => "artwork",
        }
    }

    /// The name of this mode as a string of its own.
    pub fn to_string(&self) -> (s: String)
        ensures
            s@ == group_type_name(*self),
    {
        String::from_str(self.name())
    }
}

/// The grouping that a setting stands for.
pub fn grouping_of(g: Option<GroupType>) -> (r: Grouping)
    ensures
        r == grouping_spec(g),
{
    match g {
        None => Grouping::Flat,
        Some(GroupType::Author) => Grouping::ByAuthor,
        Some(GroupType::Artwork) => Grouping::ByArtwork,
    }
}

/// The settings that are kept from run to run.
pub struct ConfigData {
    pub output: String,
    pub group_type: Option<GroupType>,
}

impl ConfigData {
    /// A copy of these settings.
    pub fn duplicate(&self) -> (c: ConfigData)
        ensures
            c == *self,
    {
        ConfigData { output: self.output.clone(), group_type: self.group_type }
    }
}

impl Default for ConfigData {
    /// The settings of a first run: files go to `./images`, ungrouped.
    fn default() -> (c: ConfigData)
        ensures
            c.output@ == "./images"@,
            c.group_type is None,
    {
        ConfigData { output: String::from_str("./images"), group_type: None }
    }
}

/// Which item of the settings panel is selected.
pub struct ConfigState {
    index: usize,
}

impl View for ConfigState {
    type V = usize;

    closed spec fn view(&self) -> usize {
        self.index
    }
}

impl ConfigState {
    /// The first item is selected.
    pub fn new() -> (s: ConfigState)
        ensures
            s@ == 0,
    {
        ConfigState { index: 0 }
    }

    /// Selects the item at `index`.
    pub fn select(&mut self, index: usize)
        ensures
            final(self)@ == index,
    {
        self.index = index;
    }

    /// The selected item.
    pub fn selected(&self) -> (index: usize)
        ensures
            index == self@,
    {
        self.index
    }
}

/// The modes that the grouping item walks through, in their order.
pub open spec fn group_choices() -> Seq<Option<GroupType>> {
    seq![None, Some(GroupType::Author), Some(GroupType::Artwork)]
}

/// The item of the settings panel that chooses the grouping.
pub struct GroupConfig {
    group_type: Option<GroupType>,
    groups: Vec<Option<GroupType>>,
    index: usize,
}

/// A `GroupConfig` as plain values: the mode shown and the place in the
/// list of choices.
pub ghost struct GroupChoice {
    pub group_type: Option<GroupType>,
    pub index: nat,
}

impl View for GroupConfig {
    type V = GroupChoice;

    closed spec fn view(&self) -> GroupChoice {
        GroupChoice { group_type: self.group_type, index: self.index as nat }
    }
}

impl GroupConfig {
    /// The choices are the three modes, and the place is one of them.
    pub closed spec fn wf(&self) -> bool {
        self.groups@ == group_choices() && self.index < 3
    }

    /// The item with no grouping chosen.
    pub fn new() -> (g: Box<GroupConfig>)
        ensures
            g.wf(),
            g@ == (GroupChoice { group_type: None, index: 0 }),
    {
        let mut groups: Vec<Option<GroupType>> = Vec::new();
        groups.push(None);
        groups.push(Some(GroupType::Author));
        groups.push(Some(GroupType::Artwork));
        assert(groups@ =~= group_choices());
        Box::new(GroupConfig { index: 0, group_type: None, groups })
    }

    /// Goes to the choice after this one, or to the first from the last.
    pub fn next(&mut self)
        requires
            old(self).wf(),
        ensures
            final(self).wf(),
            final(self)@.index == ring_next(old(self)@.index, 3),
            final(self)@.group_type == group_choices()[final(self)@.index as int],
    {
        self.index = step_forward(self.index, self.groups.len());
        self.group_type = self.groups[self.index];
    }

    /// Goes to the choice before this one, or to the last from the first.
    pub fn prev(&mut self)
        requires
            old(self).wf(),
        ensures
            final(self).wf(),
            final(self)@.index == ring_prev(old(self)@.index, 3),
            final(self)@.group_type == group_choices()[final(self)@.index as int],
    {
        self.index = step_back(self.index, self.groups.len());
        self.group_type = self.groups[self.index];
    }

    /// Shows the mode that the settings hold. The place in the list of
    /// choices stays.
    pub fn init(&mut self, config_data: &ConfigData)
        requires
            old(self).wf(),
        ensures
            final(self).wf(),
            final(self)@ == (GroupChoice { group_type: config_data.group_type, ..old(self)@ }),
    {
        self.group_type = config_data.group_type;
    }

    /// The mode that is shown.
    pub fn group_type(&self) -> (g: Option<GroupType>)
        ensures
            g == self@.group_type,
    {
        self.group_type
    }

    /// Takes a key: left and right walk through the choices. After any key
    /// the settings hold the mode shown, and are to be saved.
    pub fn update(&mut self, config: &mut ConfigData, key: Key)
        requires
            old(self).wf(),
        ensures
            final(self).wf(),
            final(self)@ == group_choice_after(old(self)@, key),
            final(config).group_type == final(self)@.group_type,
            final(config).output == old(config).output,
    {
        match key {
            Key::Left => self.prev(),
            Key::Right => self.next(),
            _ => {},
        }
        config.group_type = self.group_type;
    }
}

/// The grouping item after `key`.
pub open spec fn group_choice_after(g: GroupChoice, key: Key) -> GroupChoice {
    match key {
        Key::Left => GroupChoice {
            group_type: group_choices()[ring_prev(g.index, 3) as int],
            index: ring_prev(g.index, 3),
        },
        Key::Right => GroupChoice {
            group_type: group_choices()[ring_next(g.index, 3) as int],
            index: ring_next(g.index, 3),
        },
        _ => g,
    }
}

/// The item of the settings panel that holds the output directory.
pub struct OutputConfig {
    input: String,
    edit: bool,
}

/// An `OutputConfig` as plain values: the text in the field, and whether
/// it is being edited.
pub ghost struct OutputField {
    pub input: Seq<char>,
    pub edit: bool,
}

impl View for OutputConfig {
    type V = OutputField;

    closed spec fn view(&self) -> OutputField {
        OutputField { input: self.input@, edit: self.edit }
    }
}

/// The output field after `key`.
pub open spec fn output_field_after(f: OutputField, key: Key) -> OutputField {
    match key {
        Key::Char(c) => if f.edit {
            OutputField { input: f.input.push(c), ..f }
        } else {
            f
        },
        Key::Backspace => if f.edit && f.input.len() > 0 {
            OutputField { input: f.input.drop_last(), ..f }
        } else {
            f
        },
        Key::Enter => OutputField { edit: !f.edit, ..f },
        _ => f,
    }
}

/// Whether `key` ends an edit of the output field, so that the text becomes
/// the setting and is to be saved.
pub open spec fn output_is_committed(f: OutputField, key: Key) -> bool {
    key is Enter && f.edit
}

impl OutputConfig {
    /// An empty field that is not being edited.
    pub fn new() -> (o: Box<OutputConfig>)
        ensures
            o@ == (OutputField { input: Seq::<char>::empty(), edit: false }),
    {
        Box::new(OutputConfig { input: String::new(), edit: false })
    }

    /// The text in the field.
    pub fn input(&self) -> (s: &str)
        ensures
            s@ == self@.input,
    {
        self.input.as_str()
    }

    /// Whether the field is being edited.
    pub fn is_editing(&self) -> (e: bool)
        ensures
            e == self@.edit,
    {
        self.edit
    }

    /// Shows the directory that the settings hold.
    pub fn init(&mut self, config_data: &ConfigData)
        ensures
            final(self)@ == (OutputField { input: config_data.output@, edit: old(self)@.edit }),
    {
        self.input = config_data.output.clone();
    }

    /// Takes a key. Enter begins an edit, or ends it: then the text becomes
    /// the output directory of the settings, and `true` is returned, for
    /// the settings are to be saved. While an edit runs, characters are
    /// added to the text and backspace takes the last one away.
    pub fn update(&mut self, config: &mut ConfigData, key: Key) -> (save: bool)
        ensures
            final(self)@ == output_field_after(old(self)@, key),
            save == output_is_committed(old(self)@, key),
            final(config).group_type == old(config).group_type,
            final(config).output@ == (if save {
                old(self)@.input
            } else {
                old(config).output@
            }),
    {
        match key {
            Key::Char(c) => {
                if self.edit {
                    push_char(&mut self.input, c);
                }
                false
            },
            Key::Backspace => {
                if self.edit {
                    pop_char(&mut self.input);
                }
                false
            },
            Key::Enter => {
                if self.edit {
                    config.output = self.input.clone();
                    self.edit = false;
                    true
                } else {
                    self.edit = true;
                    false
                }
            },
            _ => false,
        }
    }
}

/// The settings panel: the settings, and its two items, the output
/// directory first and the grouping second.
pub struct Config {
    config_data: ConfigData,
    state: ConfigState,
    output: Box<OutputConfig>,
    group: Box<GroupConfig>,
}

/// A `Config` as plain values.
pub ghost struct ConfigModel {
    pub output: Seq<char>,
    pub group_type: Option<GroupType>,
    pub selected: nat,
    pub field: OutputField,
    pub choice: GroupChoice,
}

impl ConfigModel {
    /// The item that is selected after `key`: up and down walk round the
    /// two items.
    pub open spec fn selected_after(self, key: Key) -> nat {
        match key {
            Key::Up => ring_prev(self.selected, 2),
            Key::Down => ring_next(self.selected, 2),
            _ => self.selected,
        }
    }

    /// The panel after `key`: the selection moves first, and the item that
    /// is then selected takes the key.
    pub open spec fn after(self, key: Key) -> ConfigModel {
        let selected = self.selected_after(key);
        if selected == 0 {
            ConfigModel {
                selected,
                field: output_field_after(self.field, key),
                output: if output_is_committed(self.field, key) {
                    self.field.input
                } else {
                    self.output
                },
                ..self
            }
        } else {
            ConfigModel {
                selected,
                choice: group_choice_after(self.choice, key),
                group_type: group_choice_after(self.choice, key).group_type,
                ..self
            }
        }
    }

    /// Whether the settings are to be saved after `key`: when an edit of
    /// the output directory ends, and after every key that the grouping
    /// item takes.
    pub open spec fn saves(self, key: Key) -> bool {
        if self.selected_after(key) == 0 {
            output_is_committed(self.field, key)
        } else {
            true
        }
    }
}

impl View for Config {
    type V = ConfigModel;

    closed spec fn view(&self) -> ConfigModel {
        ConfigModel {
            output: self.config_data.output@,
            group_type: self.config_data.group_type,
            selected: self.state@ as nat,
            field: self.output@,
            choice: self.group@,
        }
    }
}

impl Config {
    /// One of the two items is selected, and the grouping item is sound.
    pub closed spec fn wf(&self) -> bool {
        self.state@ < 2 && self.group.wf()
    }

    /// The panel over the settings `config_data`: its items show them,
    /// and the first item is selected.
    pub fn new(config_data: ConfigData) -> (c: Config)
        ensures
            c.wf(),
            c@ == (ConfigModel {
                output: config_data.output@,
                group_type: config_data.group_type,
                selected: 0,
                field: OutputField { input: config_data.output@, edit: false },
                choice: GroupChoice { group_type: config_data.group_type, index: 0 },
            }),
    {
        let mut output: Box<OutputConfig> = OutputConfig::new();
        let mut group: Box<GroupConfig> = GroupConfig::new();
        output.init(&config_data);
        group.init(&config_data);
        Config { config_data, state: ConfigState::new(), output, group }
    }

    /// The settings.
    pub fn config_data(&self) -> (d: &ConfigData)
        ensures
            d.output@ == self@.output,
            d.group_type == self@.group_type,
    {
        &self.config_data
    }

    /// The item that is selected.
    pub fn selected(&self) -> (i: usize)
        ensures
            i == self@.selected,
    {
        self.state.selected()
    }

    /// The item that holds the output directory.
    pub fn output_item(&self) -> (o: &OutputConfig)
        ensures
            o@ == self@.field,
    {
        &*self.output
    }

    /// The item that chooses the grouping.
    pub fn group_item(&self) -> (g: &GroupConfig)
        ensures
            g@ == self@.choice,
    {
        &*self.group
    }

    fn next(&mut self)
        requires
            old(self).wf(),
        ensures
            final(self).wf(),
            final(self)@ == (ConfigModel { selected: ring_next(old(self)@.selected, 2), ..old(self)@ }),
    {
        let i: usize = step_forward(self.state.selected(), 2);
        self.state.select(i);
    }

    fn prev(&mut self)
        requires
            old(self).wf(),
        ensures
            final(self).wf(),
            final(self)@ == (ConfigModel { selected: ring_prev(old(self)@.selected, 2), ..old(self)@ }),
    {
        let i: usize = step_back(self.state.selected(), 2);
        self.state.select(i);
    }

    /// Takes a key, and returns whether the settings are to be saved.
    pub fn update(&mut self, key: Key) -> (save: bool)
        requires
            old(self).wf(),
        ensures
            final(self).wf(),
            final(self)@ == old(self)@.after(key),
            save == old(self)@.saves(key),
    {
        match key {
            Key::Up => self.prev(),
            Key::Down => self.next(),
            _ => {},
        }
        if self.state.selected() == 0 {
            self.output.update(&mut self.config_data, key)
        } else {
            self.group.update(&mut self.config_data, key);
            true
        }
    }
}

impl Default for Config {
    /// The panel over the settings of a first run.
    fn default() -> (c: Config)
        ensures
            c.wf(),
            c@.output == "./images"@,
            c@.group_type is None,
            c@.selected == 0,
    {
        Config::new(ConfigData { output: String::from_str("./images"), group_type: None })
    }
}

} // verus!
