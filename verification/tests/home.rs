use kino::filter::{
    Comments, Comp, Duration, Filter, FilterMode, Progress, ProgressKind, Rating, RatingKind,
    Release,
};
use kino::home::{
    change_filter, FilterChange, FilterMessage, Home, HomeAction, HomeMessage, HOUR, MINUTE,
};
use kino::icons::{GRID, LIST};
use kino::movies::{MoviesMessage, Preview, Thumbnail};
use kino::pages::{Page, PageKind, PageView};
use kino::sort::{Sort, SortKind, ViewType};
use kino::video::{Video, VideoId};

fn empty() -> Filter {
    Filter::new(FilterMode::And)
}

fn applied(filters: Filter, message: FilterMessage) -> Filter {
    match change_filter(filters, &message) {
        FilterChange::Applied(filters) => filters,
        other => panic!("{message:?} gave {other:?}"),
    }
}

fn on_movies() -> Home {
    let mut home = Home::boot();
    assert_eq!(home.update(HomeMessage::Goto(PageKind::Movies)), HomeAction::LoadMovies);
    home
}

fn movies(home: &Home) -> &kino::movies::Movies {
    match home.current_page() {
        Some(Page::Movies(movies)) => movies,
        other => panic!("no movies page: {other:?}"),
    }
}

#[test]
fn filter_toggles() {
    let filters = applied(empty(), FilterMessage::Mode);
    assert_eq!(filters, Filter::new(FilterMode::Or));
    let filters = applied(filters, FilterMessage::ProgressComp);
    assert_eq!(filters.progress, Progress { kind: ProgressKind::Any, comp: Comp::Greater });
    let filters = applied(filters, FilterMessage::ProgressKind(ProgressKind::Fifty));
    assert_eq!(filters.progress, Progress { kind: ProgressKind::Fifty, comp: Comp::Greater });
    let filters = applied(filters, FilterMessage::RatingKind(RatingKind::Two));
    let filters = applied(filters, FilterMessage::RatingComp);
    assert_eq!(filters.rating, Rating { kind: RatingKind::Two, comp: Comp::Greater });
    assert_eq!(applied(filters, FilterMessage::Clear), Filter::new(FilterMode::Or));
}

#[test]
fn comparison_of_an_absent_condition_stays_absent() {
    assert_eq!(applied(empty(), FilterMessage::CommentsComp), empty());
    assert_eq!(applied(empty(), FilterMessage::ReleaseComp), empty());
    assert_eq!(applied(empty(), FilterMessage::DurationComp), empty());
}

#[test]
fn comments_field() {
    let filters = applied(empty(), FilterMessage::CommentsNum(" 42 ".to_string()));
    assert_eq!(filters.comments, Some(Comments { number: 42, comp: Comp::Equal }));
    let filters = applied(filters, FilterMessage::CommentsComp);
    assert_eq!(filters.comments, Some(Comments { number: 42, comp: Comp::Greater }));
    let filters = applied(filters, FilterMessage::CommentsNum("4294967295".to_string()));
    assert_eq!(filters.comments, Some(Comments { number: u32::MAX, comp: Comp::Greater }));
    let too_large = FilterMessage::CommentsNum("4294967296".to_string());
    assert_eq!(change_filter(filters, &too_large), FilterChange::Rejected);
    let no_number = FilterMessage::CommentsNum("many".to_string());
    assert_eq!(change_filter(filters, &no_number), FilterChange::Rejected);
    let cleared = FilterMessage::CommentsNum("  ".to_string());
    assert_eq!(change_filter(filters, &cleared), FilterChange::Kept(empty()));
}

#[test]
fn release_field() {
    let filters = applied(empty(), FilterMessage::ReleaseYear("2016".to_string()));
    assert_eq!(filters.release, Some(Release { year: 2016, comp: Comp::Equal }));
    let filters = applied(filters, FilterMessage::ReleaseComp);
    let filters = applied(filters, FilterMessage::ReleaseYear("1999\n".to_string()));
    assert_eq!(filters.release, Some(Release { year: 1999, comp: Comp::Greater }));
    let too_large = FilterMessage::ReleaseYear("65536".to_string());
    assert_eq!(change_filter(filters, &too_large), FilterChange::Rejected);
    let cleared = FilterMessage::ReleaseYear(String::new());
    assert_eq!(change_filter(filters, &cleared), FilterChange::Kept(empty()));
}

#[test]
fn duration_fields_keep_each_other() {
    assert_eq!((HOUR, MINUTE), (3600, 60));
    let filters = applied(empty(), FilterMessage::DurationMinutes("90".to_string()));
    assert_eq!(filters.duration, Some(Duration { secs: 5400, comp: Comp::Equal }));
    let filters = applied(filters, FilterMessage::DurationComp);
    // the hours replace the whole hours and keep the rest
    let filters = applied(filters, FilterMessage::DurationHours("3".to_string()));
    assert_eq!(filters.duration, Some(Duration { secs: 3 * 3600 + 1800, comp: Comp::Greater }));
    // the minutes replace the rest and keep the whole hours
    let filters = applied(filters, FilterMessage::DurationMinutes("15".to_string()));
    assert_eq!(filters.duration, Some(Duration { secs: 3 * 3600 + 900, comp: Comp::Greater }));
    let hours = FilterMessage::DurationHours(" ".to_string());
    let kept = Filter { duration: Some(Duration { secs: 900, comp: Comp::Greater }), ..empty() };
    assert_eq!(change_filter(filters, &hours), FilterChange::Kept(kept));
    let minutes = FilterMessage::DurationMinutes(String::new());
    let kept = Filter { duration: Some(Duration { secs: 10800, comp: Comp::Greater }), ..empty() };
    assert_eq!(change_filter(filters, &minutes), FilterChange::Kept(kept));
    let filters = applied(empty(), FilterMessage::DurationHours("2".to_string()));
    assert_eq!(filters.duration, Some(Duration { secs: 7200, comp: Comp::Equal }));
}

#[test]
fn emptied_duration_field_can_take_the_condition_away() {
    let hours = Filter { duration: Some(Duration { secs: 7200, comp: Comp::Less }), ..empty() };
    let cleared = FilterMessage::DurationHours(String::new());
    assert_eq!(change_filter(hours, &cleared), FilterChange::Kept(empty()));
    let minutes = Filter { duration: Some(Duration { secs: 3599, comp: Comp::Less }), ..empty() };
    let cleared = FilterMessage::DurationMinutes(String::new());
    assert_eq!(change_filter(minutes, &cleared), FilterChange::Kept(empty()));
    assert_eq!(change_filter(empty(), &cleared), FilterChange::Kept(empty()));
}

#[test]
fn duration_that_is_too_long_is_rejected() {
    let huge = FilterMessage::DurationHours(u64::MAX.to_string());
    assert_eq!(change_filter(empty(), &huge), FilterChange::Rejected);
    let huge = FilterMessage::DurationMinutes((u64::MAX / 60 + 1).to_string());
    assert_eq!(change_filter(empty(), &huge), FilterChange::Rejected);
    let most = FilterMessage::DurationMinutes((u64::MAX / 60).to_string());
    let filters = applied(empty(), most);
    assert_eq!(filters.duration.unwrap().secs, u64::MAX / 60 * 60);
    let most = FilterMessage::DurationHours((u64::MAX / 3600).to_string());
    let filters = applied(filters, most);
    assert_eq!(filters.duration.unwrap().secs, u64::MAX / 3600 * 3600);
    let minute = Filter { duration: Some(Duration { secs: 60, comp: Comp::Equal }), ..empty() };
    let more = FilterMessage::DurationHours((u64::MAX / 3600).to_string());
    assert_eq!(change_filter(minute, &more), FilterChange::Rejected);
    let no_number = FilterMessage::DurationHours("1h".to_string());
    assert_eq!(change_filter(empty(), &no_number), FilterChange::Rejected);
}

#[test]
fn home_starts_without_a_page() {
    let home = Home::boot();
    assert!(home.current_page().is_none());
    assert!(home.backward().is_empty());
    assert!(home.forward().is_empty());
    assert_eq!(home.search(), "");
    assert_eq!(home.layout(), ViewType::Grid);
    assert_eq!(*home.sort(), Sort::default());
    assert!(!home.show_sorts());
    assert!(!home.show_filters());
    assert_eq!(home.filters(), empty());
    assert_eq!(home.title(), "Home");
    assert!(!home.can_back());
    assert!(!home.can_forward());
    let home = Home::new(ViewType::List, FilterMode::Or);
    assert_eq!(home.layout(), ViewType::List);
    assert_eq!(home.filters(), Filter::new(FilterMode::Or));
}

#[test]
fn going_to_the_movies_opens_a_page() {
    let mut home = Home::boot();
    home.update(HomeMessage::AddSort(SortKind::Name));
    home.update(HomeMessage::Filter(FilterMessage::Mode));
    assert_eq!(home.update(HomeMessage::Goto(PageKind::Movies)), HomeAction::LoadMovies);
    assert_eq!(home.backward().len(), 1);
    assert!(home.current_page().unwrap().is_movies());
    let page = movies(&home);
    assert!(page.thumbnails().is_empty());
    assert!(page.grid());
    assert_eq!(page.sort().kinds, [SortKind::Name]);
    assert_eq!(page.filter(), Filter::new(FilterMode::Or));
    assert_eq!(home.title(), "Movies");
    assert!(home.can_back());
}

#[test]
fn other_pages_cannot_be_gone_to() {
    let mut home = on_movies();
    for kind in [PageKind::Shows, PageKind::Comments, PageKind::Search, PageKind::Custom] {
        assert_eq!(home.update(HomeMessage::Goto(kind)), HomeAction::Rejected);
        assert_eq!(home.backward().len(), 1);
        assert!(home.forward().is_empty());
    }
    assert_eq!(Page::goto_shows(), PageKind::Shows);
    assert_eq!(Page::goto_movies(), PageKind::Movies);
    assert_eq!(Page::goto_comments(), PageKind::Comments);
}

#[test]
fn pages_know_their_kind() {
    assert!(Page::Shows.is_shows());
    assert!(Page::Comments.is_comments());
    assert!(Page::Custom.is_custom());
    assert!(!Page::Search.is_shows());
    assert!(!Page::Shows.is_movies());
    assert_eq!(Page::Shows.view(), PageView::Placeholder(PageKind::Shows));
    assert_eq!(Page::Search.view(), PageView::Placeholder(PageKind::Search));
    let mut shows = Page::Shows;
    shows.movies_update(MoviesMessage::Details(VideoId::new(1)));
    assert!(shows.is_shows());
}

#[test]
fn history_moves_one_page_at_a_time() {
    let mut home = on_movies();
    home.update(HomeMessage::Goto(PageKind::Movies));
    home.update(HomeMessage::Movies(MoviesMessage::Details(VideoId::new(3))));
    assert_eq!(home.backward().len(), 2);
    assert_eq!(home.update(HomeMessage::Back), HomeAction::Nothing);
    assert_eq!((home.backward().len(), home.forward().len()), (1, 1));
    assert!(home.can_forward());
    assert_eq!(movies(&home).preview(), None);
    home.update(HomeMessage::Back);
    assert_eq!((home.backward().len(), home.forward().len()), (0, 2));
    assert_eq!(home.title(), "Home");
    home.update(HomeMessage::Back);
    assert_eq!((home.backward().len(), home.forward().len()), (0, 2));
    home.update(HomeMessage::Forward);
    home.update(HomeMessage::Forward);
    assert_eq!((home.backward().len(), home.forward().len()), (2, 0));
    assert_eq!(movies(&home).preview(), Some(Preview::new(VideoId::new(3))));
    home.update(HomeMessage::Forward);
    assert_eq!((home.backward().len(), home.forward().len()), (2, 0));
    // a new page forgets the way forward
    home.update(HomeMessage::Back);
    home.update(HomeMessage::Goto(PageKind::Movies));
    assert_eq!((home.backward().len(), home.forward().len()), (2, 0));
}

#[test]
fn going_home_keeps_the_way_forward() {
    let mut home = on_movies();
    home.update(HomeMessage::Goto(PageKind::Movies));
    home.update(HomeMessage::Back);
    assert_eq!(home.update(HomeMessage::Home), HomeAction::Nothing);
    assert_eq!((home.backward().len(), home.forward().len()), (0, 1));
    assert!(home.current_page().is_none());
}

#[test]
fn page_messages_reach_the_current_page() {
    let mut home = on_movies();
    let batch = vec![Thumbnail::new(Video::testing(1, 1)), Thumbnail::new(Video::testing2(2, 1))];
    home.update(HomeMessage::Movies(MoviesMessage::Thumbnails(batch)));
    assert_eq!(movies(&home).thumbnails().len(), 2);
    home.update(HomeMessage::Movies(MoviesMessage::Details(VideoId::new(2))));
    assert_eq!(home.title(), "Ready Player One 2");
    assert_eq!(
        home.current_page().unwrap().view(),
        PageView::Movies(kino::movies::Screen::Preview(Preview::new(VideoId::new(2))))
    );
    let mut nowhere = Home::boot();
    let message = HomeMessage::Movies(MoviesMessage::Details(VideoId::new(2)));
    assert_eq!(nowhere.update(message), HomeAction::Nothing);
    assert!(nowhere.backward().is_empty());
}

#[test]
fn toolbar_is_handed_to_the_page() {
    let mut home = on_movies();
    assert_eq!(ViewType::Grid.icon(), GRID);
    assert_eq!(ViewType::List.icon(), LIST);
    home.update(HomeMessage::ToggleView);
    assert_eq!(home.layout(), ViewType::List);
    assert!(!movies(&home).grid());
    home.update(HomeMessage::ToggleView);
    assert!(movies(&home).grid());
    home.update(HomeMessage::AddSort(SortKind::Rating));
    home.update(HomeMessage::AddSort(SortKind::Name));
    home.update(HomeMessage::AddSort(SortKind::Rating));
    assert_eq!(home.sort().kinds, [SortKind::Rating, SortKind::Name, SortKind::Rating]);
    assert_eq!(movies(&home).sort().kinds, home.sort().kinds);
    assert_eq!(home.sort().position(SortKind::Name), Some(1));
    assert_eq!(home.sort().position(SortKind::Rating), Some(0));
    assert_eq!(home.sort().position(SortKind::Added), None);
    home.update(HomeMessage::RemoveSort(SortKind::Rating));
    assert_eq!(home.sort().kinds, [SortKind::Name]);
    assert_eq!(movies(&home).sort().kinds, [SortKind::Name]);
    home.update(HomeMessage::RemoveSort(SortKind::Added));
    assert_eq!(home.sort().kinds, [SortKind::Name]);
    let message = HomeMessage::Filter(FilterMessage::RatingKind(RatingKind::Four));
    assert_eq!(home.update(message), HomeAction::Nothing);
    assert_eq!(home.filters().rating.kind, RatingKind::Four);
    assert_eq!(movies(&home).filter(), home.filters());
}

#[test]
fn emptied_field_is_not_handed_to_the_page() {
    let mut home = on_movies();
    home.update(HomeMessage::Filter(FilterMessage::CommentsNum("5".to_string())));
    assert_eq!(movies(&home).filter(), home.filters());
    let message = HomeMessage::Filter(FilterMessage::CommentsNum(String::new()));
    assert_eq!(home.update(message), HomeAction::Nothing);
    assert_eq!(home.filters().comments, None);
    assert_eq!(movies(&home).filter().comments, Some(Comments { number: 5, comp: Comp::Equal }));
    let message = HomeMessage::Filter(FilterMessage::ReleaseYear("soon".to_string()));
    assert_eq!(home.update(message), HomeAction::Rejected);
    assert_eq!(home.filters().release, None);
}

#[test]
fn toolbar_switches_and_search() {
    let mut home = Home::boot();
    home.update(HomeMessage::ToggleSort);
    assert!(home.show_sorts() && !home.show_filters());
    home.update(HomeMessage::ToggleFilter);
    home.update(HomeMessage::ToggleSort);
    assert!(!home.show_sorts() && home.show_filters());
    home.update(HomeMessage::Search("beasts".to_string()));
    assert_eq!(home.search(), "beasts");
    home.update(HomeMessage::ToggleView);
    assert_eq!(home.layout(), ViewType::List);
    for message in [
        HomeMessage::FontLoad(true),
        HomeMessage::FontLoad(false),
        HomeMessage::Settings,
        HomeMessage::Randomize,
        HomeMessage::NewCollection,
        HomeMessage::Animate,
        HomeMessage::Nothing,
    ] {
        assert_eq!(home.update(message), HomeAction::Nothing);
    }
    assert_eq!(home.search(), "beasts");
    assert!(home.backward().is_empty());
}

#[test]
fn sort_kinds_are_listed_and_named() {
    let all = SortKind::all();
    assert_eq!(all.len(), 8);
    let labels: Vec<String> = all.iter().map(|kind| kind.label()).collect();
    let expected =
        ["Name", "Duration", "Added", "Rating", "Recent", "Release", "Progress", "Comments"];
    assert_eq!(labels, expected);
    let sort = Sort { kinds: vec![SortKind::Name, SortKind::Added], reverse: true };
    assert_eq!(sort.duplicate(), sort);
    let mut view = ViewType::default();
    view.toggle();
    assert_eq!(view, ViewType::List);
}
