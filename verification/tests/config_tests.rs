use x_pixiv::config::{grouping_of, Config, ConfigData, ConfigState, GroupConfig, GroupType, OutputConfig};
use x_pixiv::destination::Grouping;
use x_pixiv::keys::{step_back, step_forward, Key};

fn settings(output: &str, group_type: Option<GroupType>) -> ConfigData {
    ConfigData { output: output.to_string(), group_type }
}

#[test]
fn default_settings() {
    let c = ConfigData::default();
    assert_eq!(c.output, "./images");
    assert_eq!(c.group_type, None);
    let d = c.duplicate();
    assert_eq!(d.output, "./images");
}

#[test]
fn group_type_names() {
    assert_eq!(GroupType::Author.name(), "author");
    assert_eq!(GroupType::Artwork.to_string(), "artwork");
}

#[test]
fn grouping_of_a_setting() {
    assert_eq!(grouping_of(None), Grouping::Flat);
    assert_eq!(grouping_of(Some(GroupType::Author)), Grouping::ByAuthor);
    assert_eq!(grouping_of(Some(GroupType::Artwork)), Grouping::ByArtwork);
}

#[test]
fn config_state_keeps_the_selection() {
    let mut s = ConfigState::new();
    assert_eq!(s.selected(), 0);
    s.select(4);
    assert_eq!(s.selected(), 4);
}

#[test]
fn ring_steps() {
    assert_eq!(step_forward(0, 3), 1);
    assert_eq!(step_forward(2, 3), 0);
    assert_eq!(step_forward(0, 0), 0);
    assert_eq!(step_forward(7, 3), 0);
    assert_eq!(step_back(0, 3), 2);
    assert_eq!(step_back(2, 3), 1);
    assert_eq!(step_back(0, 0), 0);
}

#[test]
fn group_config_walks_round_its_choices() {
    let mut g = GroupConfig::new();
    assert_eq!(g.group_type(), None);
    g.next();
    assert_eq!(g.group_type(), Some(GroupType::Author));
    g.next();
    assert_eq!(g.group_type(), Some(GroupType::Artwork));
    g.next();
    assert_eq!(g.group_type(), None);
    g.prev();
    assert_eq!(g.group_type(), Some(GroupType::Artwork));
    g.prev();
    assert_eq!(g.group_type(), Some(GroupType::Author));
}

#[test]
fn group_config_writes_the_settings() {
    let mut g = GroupConfig::new();
    let mut c = settings("o", Some(GroupType::Artwork));
    g.init(&c);
    assert_eq!(g.group_type(), Some(GroupType::Artwork));
    g.update(&mut c, Key::Right);
    assert_eq!(c.group_type, Some(GroupType::Author));
    g.update(&mut c, Key::Left);
    assert_eq!(c.group_type, None);
    g.update(&mut c, Key::Enter);
    assert_eq!(c.group_type, None);
    assert_eq!(c.output, "o");
}

#[test]
fn output_config_edits_between_two_enters() {
    let mut o = OutputConfig::new();
    let mut c = settings("./images", None);
    o.init(&c);
    assert!(!o.update(&mut c, Key::Char('x')));
    assert!(!o.update(&mut c, Key::Backspace));
    assert!(!o.update(&mut c, Key::Enter));
    assert!(!o.update(&mut c, Key::Backspace));
    assert!(!o.update(&mut c, Key::Char('2')));
    assert_eq!(c.output, "./images");
    assert!(o.update(&mut c, Key::Enter));
    assert_eq!(c.output, "./image2");
    assert!(!o.update(&mut c, Key::Char('y')));
    assert!(!o.update(&mut c, Key::Enter));
    assert!(o.update(&mut c, Key::Enter));
    assert_eq!(c.output, "./image2");
}

#[test]
fn output_config_backspace_on_an_empty_field() {
    let mut o = OutputConfig::new();
    let mut c = settings("a", None);
    o.update(&mut c, Key::Enter);
    o.update(&mut c, Key::Backspace);
    o.update(&mut c, Key::Backspace);
    assert!(o.update(&mut c, Key::Enter));
    assert_eq!(c.output, "");
}

#[test]
fn config_panel_routes_keys_to_the_selected_item() {
    let mut c = Config::new(settings("out", None));
    assert_eq!(c.selected(), 0);
    assert!(!c.update(Key::Enter));
    assert!(!c.update(Key::Char('2')));
    assert!(c.update(Key::Enter));
    assert_eq!(c.config_data().output, "out2");
    assert!(c.update(Key::Down));
    assert_eq!(c.selected(), 1);
    assert!(c.update(Key::Right));
    assert_eq!(c.config_data().group_type, Some(GroupType::Author));
    assert!(c.update(Key::Right));
    assert_eq!(c.config_data().group_type, Some(GroupType::Artwork));
    assert!(!c.update(Key::Down));
    assert_eq!(c.selected(), 0);
    assert!(c.update(Key::Up));
    assert_eq!(c.selected(), 1);
    assert_eq!(c.config_data().output, "out2");
}

#[test]
fn default_config_panel() {
    let c = Config::default();
    assert_eq!(c.config_data().output, "./images");
    assert_eq!(c.config_data().group_type, None);
    assert_eq!(c.selected(), 0);
}
