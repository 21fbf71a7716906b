use x_pixiv::data::Content;
use x_pixiv::keys::{Input, Key};
use x_pixiv::panels::{
    AppState, ArtworkDownloaderState, RankAction, RankState, Route, UserAction, UserDownloaderState,
};
use x_pixiv::rank::RankType;
use x_pixiv::sweep::Mark;

fn type_text(p: &mut ArtworkDownloaderState, s: &str) {
    for c in s.chars() {
        assert_eq!(p.update(Key::Char(c)), None);
    }
}

fn entry(id: u64) -> Content {
    Content {
        title: format!("t{}", id),
        illust_id: id,
        url: String::new(),
        user_name: String::new(),
        tags: Vec::new(),
    }
}

fn tabs() -> Vec<String> {
    ["daily", "weekly", "monthly"].iter().map(|s| s.to_string()).collect()
}

#[test]
fn artwork_panel_takes_digits_only() {
    let mut p = ArtworkDownloaderState::new();
    type_text(&mut p, "10a6-4");
    assert_eq!(p.input(), "1064");
    p.update(Key::Backspace);
    assert_eq!(p.input(), "106");
    assert_eq!(p.update(Key::Enter), Some(106));
    assert_eq!(p.input(), "106");
}

#[test]
fn artwork_panel_asks_for_nothing_without_an_id() {
    let mut p = ArtworkDownloaderState::new();
    assert_eq!(p.update(Key::Enter), None);
    p.update(Key::Backspace);
    assert_eq!(p.input(), "");
    type_text(&mut p, "99999999999999999999999");
    assert_eq!(p.update(Key::Enter), None);
}

#[test]
fn artwork_panel_clears_the_failure_on_typing() {
    let mut p = ArtworkDownloaderState::new();
    assert!(!p.has_error());
    p.mark_failed();
    assert!(p.has_error());
    p.update(Key::Up);
    assert!(p.has_error());
    p.update(Key::Char('x'));
    assert!(!p.has_error());
}

#[test]
fn user_panel_lists_the_user_that_is_typed() {
    let mut p = UserDownloaderState::new();
    for c in "3115085".chars() {
        assert_eq!(p.update(Key::Char(c)), UserAction::Nothing);
    }
    assert_eq!(p.input(), "3115085");
    assert_eq!(p.update(Key::Enter), UserAction::List(3115085));
    p.set_artworks(&vec![7, 8, 9]);
    assert_eq!(p.len(), 3);
    assert_eq!(p.entry(1).unwrap().id, 8);
    assert_eq!(p.entry(1).unwrap().mark, Mark::Untouched);
    assert_eq!(p.input(), "3115085");
}

#[test]
fn user_panel_walks_through_its_list() {
    let mut p = UserDownloaderState::new();
    p.update(Key::Down);
    assert_eq!(p.selected(), None);
    p.update(Key::Up);
    assert_eq!(p.selected(), None);
    p.set_artworks(&vec![7, 8, 9]);
    p.update(Key::Down);
    assert_eq!(p.selected(), Some(0));
    p.update(Key::Down);
    p.update(Key::Down);
    assert_eq!(p.selected(), Some(2));
    p.update(Key::Down);
    assert_eq!(p.selected(), None);
    p.update(Key::Up);
    assert_eq!(p.selected(), Some(2));
    p.update(Key::Up);
    p.update(Key::Up);
    assert_eq!(p.selected(), Some(0));
    p.update(Key::Up);
    assert_eq!(p.selected(), None);
}

#[test]
fn user_panel_downloads_the_selected_or_all() {
    let mut p = UserDownloaderState::new();
    p.set_artworks(&vec![7, 8, 9]);
    assert_eq!(p.update(Key::Char('a')), UserAction::DownloadAll);
    assert_eq!(p.update(Key::Char('b')), UserAction::Nothing);
    p.update(Key::Down);
    p.update(Key::Down);
    assert_eq!(p.update(Key::Char('5')), UserAction::Nothing);
    assert_eq!(p.input(), "");
    assert_eq!(p.update(Key::Enter), UserAction::Download(1));
    assert_eq!(p.start(1), Some(8));
    assert!(p.finish(1, false));
    assert_eq!(p.entry(1).unwrap().mark, Mark::Failed);
    assert_eq!(p.start_all(), vec![0, 1, 2]);
    assert!(p.finish(0, true));
    assert_eq!(p.entry(0).unwrap().mark, Mark::Succeeded);
}

#[test]
fn user_panel_shows_a_failed_listing() {
    let mut p = UserDownloaderState::new();
    p.mark_failed();
    assert!(p.has_error());
    p.update(Key::Char('1'));
    assert!(!p.has_error());
    assert_eq!(p.input(), "1");
}

#[test]
fn rank_panel_changes_tabs_and_asks_for_the_ranking() {
    let mut p = RankState::new(tabs());
    assert_eq!(p.tabs_index(), 0);
    assert_eq!(p.category(), RankType::Daily);
    p.push(entry(1));
    assert_eq!(p.update(Input::Key(Key::Tab)), RankAction::Refresh(RankType::Weekly));
    assert_eq!(p.tabs_index(), 1);
    assert_eq!(p.category(), RankType::Weekly);
    assert_eq!(p.len(), 0);
    assert_eq!(p.selected(), Some(0));
    assert_eq!(p.update(Input::Key(Key::Tab)), RankAction::Refresh(RankType::Monthly));
    assert_eq!(p.tabs_index(), 2);
    assert_eq!(p.update(Input::Key(Key::Tab)), RankAction::Refresh(RankType::Daily));
    assert_eq!(p.tabs_index(), 0);
    assert_eq!(p.update(Input::Key(Key::BackTab)), RankAction::Refresh(RankType::Monthly));
    assert_eq!(p.tabs_index(), 2);
    assert_eq!(p.category(), RankType::Monthly);
    assert_eq!(p.update(Input::Key(Key::BackTab)), RankAction::Refresh(RankType::Weekly));
    assert_eq!(p.tabs_index(), 1);
}

#[test]
fn rank_panel_asks_for_the_tab_that_is_shown() {
    let mut p = RankState::new(vec!["daily".to_string(), "weekly".to_string()]);
    p.push(entry(1));
    p.push(entry(2));
    assert_eq!(p.update(Input::Key(Key::Tab)), RankAction::Refresh(RankType::Weekly));
    assert_eq!(p.tab(p.tabs_index()), "weekly");
    assert_eq!(p.len(), 0);
    assert_eq!(p.update(Input::Key(Key::Tab)), RankAction::Refresh(RankType::Daily));
    assert_eq!(p.tab(p.tabs_index()), "daily");
    let mut single = RankState::new(vec!["male".to_string()]);
    assert_eq!(single.update(Input::Key(Key::BackTab)), RankAction::Refresh(RankType::Male));
    assert_eq!(single.tabs_index(), 0);
    let mut none = RankState::new(vec![]);
    assert_eq!(none.update(Input::Key(Key::Tab)), RankAction::Refresh(RankType::Daily));
}

#[test]
fn rank_panel_begins_a_listing() {
    let mut p = RankState::new(tabs());
    p.push(entry(1));
    assert_eq!(p.get_data(), RankType::Daily);
    assert_eq!(p.len(), 0);
    assert_eq!(p.selected(), Some(0));
    p.push(entry(5));
    p.push(entry(6));
    assert_eq!(p.len(), 2);
    assert_eq!(p.content(1).illust_id, 6);
    assert_eq!(p.mark(1), Some(Mark::Untouched));
    assert_eq!(p.mark(2), None);
}

#[test]
fn rank_panel_walks_round_its_list() {
    let mut p = RankState::new(tabs());
    assert_eq!(p.update(Input::Key(Key::Down)), RankAction::Nothing);
    assert_eq!(p.selected(), None);
    for id in [5, 6, 7] {
        p.push(entry(id));
    }
    p.update(Input::ScrollDown);
    assert_eq!(p.selected(), Some(0));
    p.update(Input::Key(Key::Up));
    assert_eq!(p.selected(), Some(2));
    p.update(Input::Key(Key::Down));
    assert_eq!(p.selected(), Some(0));
    p.update(Input::ScrollUp);
    p.update(Input::ScrollUp);
    assert_eq!(p.selected(), Some(1));
    assert_eq!(p.update(Input::Other), RankAction::Nothing);
    assert_eq!(p.selected(), Some(1));
}

#[test]
fn rank_panel_downloads_the_selected_or_all() {
    let mut p = RankState::new(tabs());
    assert_eq!(p.update(Input::Key(Key::Enter)), RankAction::Nothing);
    for id in [5, 6, 7] {
        p.push(entry(id));
    }
    p.update(Input::Key(Key::Down));
    p.update(Input::Key(Key::Down));
    assert_eq!(p.update(Input::Key(Key::Enter)), RankAction::Download(1));
    assert_eq!(p.start(1), Some(6));
    assert_eq!(p.mark(1), Some(Mark::Downloading));
    assert_eq!(p.update(Input::Key(Key::Char('a'))), RankAction::DownloadAll);
    assert_eq!(p.start_all(), vec![0, 2]);
    assert!(p.finish(1, false));
    assert!(p.finish(0, true));
    assert!(p.finish(2, true));
    assert_eq!(p.mark(0), Some(Mark::Succeeded));
    assert_eq!(p.mark(1), Some(Mark::Failed));
    assert_eq!(p.mark(2), Some(Mark::Succeeded));
}

#[test]
fn app_state_moves_the_menu_while_it_has_the_focus() {
    let mut a = AppState::new(3);
    assert_eq!(a.selected, None);
    a.init();
    assert_eq!(a.selected, Some(0));
    assert_eq!(a.update(Input::Key(Key::Down)), Route::Menu);
    assert_eq!(a.selected, Some(1));
    a.update(Input::Key(Key::Down));
    a.update(Input::Key(Key::Down));
    assert_eq!(a.selected, Some(0));
    a.update(Input::Key(Key::Up));
    assert_eq!(a.selected, Some(2));
    assert_eq!(a.update(Input::Key(Key::Enter)), Route::Menu);
    assert_eq!(a.selected, Some(2));
}

#[test]
fn app_state_routes_events() {
    let mut a = AppState::new(3);
    a.init();
    assert!(!a.handle_global(Key::Right));
    assert!(!a.focus);
    assert_eq!(a.update(Input::Key(Key::Down)), Route::Panel(0));
    assert_eq!(a.selected, Some(0));
    assert!(!a.handle_global(Key::Esc));
    assert!(a.config_open);
    assert_eq!(a.update(Input::Key(Key::Down)), Route::Config);
    assert!(!a.handle_global(Key::Left));
    assert!(!a.focus);
    assert!(!a.handle_global(Key::Esc));
    assert!(!a.handle_global(Key::Left));
    assert!(a.focus);
    let mut b = AppState::new(0);
    b.handle_global(Key::Left);
    assert_eq!(b.update(Input::Other), Route::Nowhere);
}

#[test]
fn app_state_leaves_on_q() {
    let mut a = AppState::new(3);
    assert!(a.handle_global(Key::Char('q')));
    assert!(!a.handle_global(Key::Char('x')));
    assert!(!a.handle_global(Key::Enter));
    assert_eq!(a, AppState::new(3));
}
