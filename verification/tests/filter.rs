use kino::filter::{
    Comments, Comp, Duration, Filter, FilterMode, Progress, ProgressKind, Rating, RatingKind,
    Release,
};
use kino::icons::{CHEV_LEFT, CHEV_RIGHT, EQUALS};

#[test]
fn mode_toggles_between_and_and_or() {
    let mut mode = FilterMode::default();
    assert_eq!(mode, FilterMode::And);
    mode.toggle();
    assert_eq!(mode, FilterMode::Or);
    mode.toggle();
    assert_eq!(mode, FilterMode::And);
    assert_eq!(FilterMode::And.label(), "AND");
    assert_eq!(FilterMode::Or.label(), "OR");
}

#[test]
fn mode_combines_two_conditions() {
    for (x, y) in [(false, false), (false, true), (true, false), (true, true)] {
        assert_eq!(FilterMode::And.compare(x, y), x && y);
        assert_eq!(FilterMode::Or.compare(x, y), x || y);
    }
}

#[test]
fn mode_combines_many_conditions() {
    assert!(FilterMode::And.compare_many(&[]));
    assert!(!FilterMode::Or.compare_many(&[]));
    assert!(FilterMode::And.compare_many(&[true, true, true]));
    assert!(!FilterMode::And.compare_many(&[true, false, true]));
    assert!(FilterMode::Or.compare_many(&[false, false, true]));
    assert!(FilterMode::Or.compare_many(&[true, false, false]));
    assert!(!FilterMode::Or.compare_many(&[false, false, false]));
}

#[test]
fn comparison_cycles_through_its_three_values() {
    let mut comp = Comp::default();
    assert_eq!(comp, Comp::Equal);
    comp.toggle();
    assert_eq!(comp, Comp::Greater);
    comp.toggle();
    assert_eq!(comp, Comp::Less);
    comp.toggle();
    assert_eq!(comp, Comp::Equal);
    assert_eq!(Comp::all(), [Comp::Less, Comp::Equal, Comp::Greater]);
}

#[test]
fn comparison_is_read_from_the_reference() {
    assert!(Comp::Less.compare(5, 3));
    assert!(!Comp::Less.compare(3, 3));
    assert!(!Comp::Less.compare(2, 3));
    assert!(Comp::Equal.compare(3, 3));
    assert!(!Comp::Equal.compare(4, 3));
    assert!(Comp::Greater.compare(2, 3));
    assert!(!Comp::Greater.compare(3, 3));
    assert!(!Comp::Greater.compare(u64::MAX, 0));
}

#[test]
fn comparison_has_an_icon_and_a_sign() {
    assert_eq!(Comp::Equal.icon(), EQUALS);
    assert_eq!(Comp::Greater.icon(), CHEV_RIGHT);
    assert_eq!(Comp::Less.icon(), CHEV_LEFT);
    assert_eq!(Comp::Less.label(), "<");
    assert_eq!(Comp::Greater.label(), ">");
    assert_eq!(Comp::Equal.label(), "=");
}

#[test]
fn progress_condition() {
    let any = Progress::default();
    assert!(any.is_any());
    assert!(any.compare(0));
    assert!(any.compare(10_000));
    let half = Progress { kind: ProgressKind::Fifty, comp: Comp::Equal };
    assert!(!half.is_any());
    assert!(half.compare(5000));
    assert!(!half.compare(4999));
    let more = Progress { kind: ProgressKind::TwentyFive, comp: Comp::Less };
    assert!(more.compare(3500));
    assert!(!more.compare(2500));
    let less = Progress { kind: ProgressKind::SeventyFive, comp: Comp::Greater };
    assert!(less.compare(3500));
    assert!(!less.compare(9500));
    assert!(Progress { kind: ProgressKind::Zero, comp: Comp::Equal }.compare(0));
    assert!(Progress { kind: ProgressKind::Complete, comp: Comp::Equal }.compare(10_000));
}

#[test]
fn progress_kinds_are_listed_and_named() {
    let all = ProgressKind::all();
    assert_eq!(all.len(), 6);
    assert_eq!(all[0], ProgressKind::default());
    let labels: Vec<String> = all.iter().map(|kind| kind.label()).collect();
    assert_eq!(labels, ["Any", "0%", "25%", "50%", "75%", "100%"]);
}

#[test]
fn rating_condition() {
    let any = Rating::default();
    assert!(any.is_any());
    assert!(any.compare(0));
    let three = Rating { kind: RatingKind::Three, comp: Comp::Equal };
    assert!(!three.is_any());
    assert!(three.compare(3));
    assert!(!three.compare(1));
    let better = Rating { kind: RatingKind::Three, comp: Comp::Less };
    assert!(better.compare(4));
    assert!(!better.compare(3));
    let worse = Rating { kind: RatingKind::Two, comp: Comp::Greater };
    assert!(worse.compare(1));
    assert!(!worse.compare(2));
    assert!(Rating { kind: RatingKind::One, comp: Comp::Equal }.compare(1));
    assert!(Rating { kind: RatingKind::Four, comp: Comp::Equal }.compare(4));
    assert!(Rating { kind: RatingKind::Five, comp: Comp::Equal }.compare(5));
}

#[test]
fn rating_kinds_are_listed_and_named() {
    let all = RatingKind::all();
    assert_eq!(all[0], RatingKind::default());
    let labels: Vec<String> = all.iter().map(|kind| kind.label()).collect();
    assert_eq!(labels, ["Any", "1", "2", "3", "4", "5"]);
}

#[test]
fn number_conditions() {
    assert!(Comments { number: 69, comp: Comp::Equal }.compare(69));
    assert!(!Comments { number: 69, comp: Comp::Equal }.compare(420));
    assert!(Comments { number: 69, comp: Comp::Less }.compare(420));
    assert!(Release { year: 2016, comp: Comp::Greater }.compare(1999));
    assert!(!Release { year: 2016, comp: Comp::Greater }.compare(2016));
    assert!(Duration { secs: 3600, comp: Comp::Less }.compare(7200));
    assert!(!Duration { secs: 3600, comp: Comp::Less }.compare(60));
}

#[test]
fn new_filter_holds_no_condition() {
    let filter = Filter::new(FilterMode::Or);
    assert!(filter.is_any());
    assert_eq!(filter.mode, FilterMode::Or);
    assert_eq!(filter.progress, Progress::default());
    assert_eq!(filter.rating, Rating::default());
    assert_eq!(filter.comments, None);
    assert_eq!(filter.release, None);
    assert_eq!(filter.duration, None);
}

#[test]
fn each_condition_makes_the_filter_specific() {
    let empty = Filter::new(FilterMode::And);
    let progress = Progress { kind: ProgressKind::Zero, comp: Comp::Equal };
    assert!(!Filter { progress, ..empty }.is_any());
    let rating = Rating { kind: RatingKind::One, comp: Comp::Equal };
    assert!(!Filter { rating, ..empty }.is_any());
    let comments = Some(Comments { number: 0, comp: Comp::Equal });
    assert!(!Filter { comments, ..empty }.is_any());
    let release = Some(Release { year: 0, comp: Comp::Equal });
    assert!(!Filter { release, ..empty }.is_any());
    let duration = Some(Duration { secs: 0, comp: Comp::Equal });
    assert!(!Filter { duration, ..empty }.is_any());
    // the comparison alone is no condition
    let progress = Progress { kind: ProgressKind::Any, comp: Comp::Less };
    assert!(Filter { progress, ..empty }.is_any());
}

#[test]
fn clear_keeps_the_mode() {
    let mut filter = Filter {
        progress: Progress { kind: ProgressKind::Fifty, comp: Comp::Less },
        rating: Rating { kind: RatingKind::Two, comp: Comp::Greater },
        comments: Some(Comments { number: 1, comp: Comp::Equal }),
        release: Some(Release { year: 2000, comp: Comp::Equal }),
        duration: Some(Duration { secs: 60, comp: Comp::Equal }),
        mode: FilterMode::Or,
    };
    filter.clear();
    assert_eq!(filter, Filter::new(FilterMode::Or));
    assert!(filter.is_any());
}
