//! The home screen: a history of pages, the toolbar with its order and its
//! filter, and what the messages of the screen do to them.

use vstd::prelude::*;
use crate::filter::{
    Comments, Comp, Duration, Filter, FilterMode, ProgressKind, RatingKind, Release,
};
use crate::movies::{Movies, MoviesMessage, MoviesModel, PageUpdate};
use crate::pages::{Page, PageKind};
use crate::sort::{Sort, SortKind, ViewType};
use crate::text::{parse, parse_number, trim, trimmed};

verus! {

/// A change that the user makes to the filter.
#[derive(Debug, Clone)]
pub enum FilterMessage {
    Mode,
    Clear,
    ProgressKind(ProgressKind),
    ProgressComp,
    RatingKind(RatingKind),
    RatingComp,
    /// The text of the field for the number of comments.
    CommentsNum(String),
    CommentsComp,
    /// The text of the field for the year of release.
    ReleaseYear(String),
    ReleaseComp,
    /// The text of the field for the hours of the duration.
    DurationHours(String),
    /// The text of the field for the minutes of the duration.
    DurationMinutes(String),
    DurationComp,
}

/// What can happen on the home screen.
#[derive(Debug, Clone)]
pub enum HomeMessage {
    /// The icon font was loaded, or could not be.
    FontLoad(bool),
    Search(String),
    AddSort(SortKind),
    RemoveSort(SortKind),
    ToggleSort,
    ToggleFilter,
    Filter(FilterMessage),
    Movies(MoviesMessage),
    Settings,
    Randomize,
    Back,
    Forward,
    ToggleView,
    Home,
    Goto(PageKind),
    NewCollection,
    Animate,
    /// Nothing happened.
    Nothing,
}

/// What a change by the user does to a filter.
#[derive(Debug, Clone, Copy, PartialEq, Eq, Structural)]
pub enum FilterChange {
    /// The filter is as given, and the page has to take it over.
    Applied(Filter),
    /// The filter is as given, and the page keeps the one it has.
    Kept(Filter),
    /// The text is no number, or one that is too large.
    Rejected,
}

/// What the caller of [`Home::update`] has to do.
#[derive(Debug, Clone, Copy, PartialEq, Eq, Structural)]
pub enum HomeAction {
    Nothing,
    /// The videos of the new movies page have to be loaded.
    LoadMovies,
    /// The message asks for what cannot be done: a text is no number, or
    /// a page has no content yet. Nothing was changed.
    Rejected,
}

/// The seconds of an hour.
pub const HOUR: u64 = 3600;

/// The seconds of a minute.
pub const MINUTE: u64 = 60;

/// The comparison of a condition that is there, and of a new one.
pub open spec fn comp_or_default(comp: Option<Comp>) -> Comp {
    match comp {
        Some(c) => c,
        None => Comp::Equal,
    }
}

/// A duration condition for `secs` seconds, or none for no seconds at all.
pub open spec fn duration_or_none(secs: int, comp: Comp) -> Option<Duration> {
    if secs == 0 {
        None
    } else {
        Some(Duration { secs: secs as u64, comp })
    }
}

/// What the change `message` does to `filters`.
///
/// The mode and the comparisons are toggled, a comparison only where its
/// condition is there; the reference values of progress and rating are
/// set. A text field is read without the white space around it. An empty
/// field takes its condition away, or for the duration its part of the
/// seconds, and the page is not told. Any other text has to be a number
/// that the field can hold, and becomes the reference value; the hours and
/// the minutes of the duration replace only their part of the seconds.
pub open spec fn filter_change(filters: Filter, message: FilterMessage) -> FilterChange {
    match message {
        FilterMessage::Mode => FilterChange::Applied(
            Filter { mode: filters.mode.toggled(), ..filters },
        ),
        FilterMessage::Clear => FilterChange::Applied(Filter::empty(filters.mode)),
        FilterMessage::ProgressKind(kind) => FilterChange::Applied(
            Filter { progress: crate::filter::Progress { kind, ..filters.progress }, ..filters },
        ),
        FilterMessage::ProgressComp => FilterChange::Applied(
            Filter {
                progress: crate::filter::Progress {
                    comp: filters.progress.comp.toggled(),
                    ..filters.progress
                },
                ..filters
            },
        ),
        FilterMessage::RatingKind(kind) => FilterChange::Applied(
            Filter { rating: crate::filter::Rating { kind, ..filters.rating }, ..filters },
        ),
        FilterMessage::RatingComp => FilterChange::Applied(
            Filter {
                rating: crate::filter::Rating {
                    comp: filters.rating.comp.toggled(),
                    ..filters.rating
                },
                ..filters
            },
        ),
        FilterMessage::CommentsNum(text) => if trimmed(text@).len() == 0 {
            FilterChange::Kept(Filter { comments: None, ..filters })
        } else {
            match parse_number(trimmed(text@), u32::MAX as nat) {
                Some(number) => FilterChange::Applied(
                    Filter {
                        comments: Some(
                            Comments {
                                number: number as u32,
                                comp: comp_or_default(
                                    match filters.comments {
                                        Some(c) => Some(c.comp),
                                        None => None,
                                    },
                                ),
                            },
                        ),
                        ..filters
                    },
                ),
                None => FilterChange::Rejected,
            }
        },
        FilterMessage::CommentsComp => FilterChange::Applied(
            Filter {
                comments: match filters.comments {
                    Some(c) => Some(Comments { comp: c.comp.toggled(), ..c }),
                    None => None,
                },
                ..filters
            },
        ),
        FilterMessage::ReleaseYear(text) => if trimmed(text@).len() == 0 {
            FilterChange::Kept(Filter { release: None, ..filters })
        } else {
            match parse_number(trimmed(text@), u16::MAX as nat) {
                Some(year) => FilterChange::Applied(
                    Filter {
                        release: Some(
                            Release {
                                year: year as u16,
                                comp: comp_or_default(
                                    match filters.release {
                                        Some(r) => Some(r.comp),
                                        None => None,
                                    },
                                ),
                            },
                        ),
                        ..filters
                    },
                ),
                None => FilterChange::Rejected,
            }
        },
        FilterMessage::ReleaseComp => FilterChange::Applied(
            Filter {
                release: match filters.release {
                    Some(r) => Some(Release { comp: r.comp.toggled(), ..r }),
                    None => None,
                },
                ..filters
            },
        ),
        FilterMessage::DurationMinutes(text) => if trimmed(text@).len() == 0 {
            FilterChange::Kept(
                Filter {
                    duration: match filters.duration {
                        Some(d) => duration_or_none(d.secs / HOUR * HOUR, d.comp),
                        None => None,
                    },
                    ..filters
                },
            )
        } else {
            match parse_number(trimmed(text@), u64::MAX as nat) {
                Some(minutes) => {
                    let hours = match filters.duration {
                        Some(d) => d.secs / HOUR * HOUR,
                        None => 0,
                    };
                    if hours + minutes * MINUTE <= u64::MAX {
                        FilterChange::Applied(
                            Filter {
                                duration: Some(
                                    Duration {
                                        secs: (hours + minutes * MINUTE) as u64,
                                        comp: comp_or_default(
                                            match filters.duration {
                                                Some(d) => Some(d.comp),
                                                None => None,
                                            },
                                        ),
                                    },
                                ),
                                ..filters
                            },
                        )
                    } else {
                        FilterChange::Rejected
                    }
                },
                None => FilterChange::Rejected,
            }
        },
        FilterMessage::DurationHours(text) => if trimmed(text@).len() == 0 {
            FilterChange::Kept(
                Filter {
                    duration: match filters.duration {
                        Some(d) => duration_or_none((d.secs % HOUR) as int, d.comp),
                        None => None,
                    },
                    ..filters
                },
            )
        } else {
            match parse_number(trimmed(text@), u64::MAX as nat) {
                Some(hours) => {
                    let minutes = match filters.duration {
                        Some(d) => d.secs % HOUR,
                        None => 0,
                    };
                    if hours * HOUR + minutes <= u64::MAX {
                        FilterChange::Applied(
                            Filter {
                                duration: Some(
                                    Duration {
                                        secs: (hours * HOUR + minutes) as u64,
                                        comp: comp_or_default(
                                            match filters.duration {
                                                Some(d) => Some(d.comp),
                                                None => None,
                                            },
                                        ),
                                    },
                                ),
                                ..filters
                            },
                        )
                    } else {
                        FilterChange::Rejected
                    }
                },
                None => FilterChange::Rejected,
            }
        },
        FilterMessage::DurationComp => FilterChange::Applied(
            Filter {
                duration: match filters.duration {
                    Some(d) => Some(Duration { comp: d.comp.toggled(), ..d }),
                    None => None,
                },
                ..filters
            },
        ),
    }
}

/// Computes [`filter_change`].
pub fn change_filter(filters: Filter, message: &FilterMessage) -> (change: FilterChange)
    ensures
        change == filter_change(filters, *message),
{
    let mut filters = filters;
    match message {
        FilterMessage::Mode => {
            filters.mode.toggle();
        },
        FilterMessage::ProgressKind(kind) => {
            filters.progress.kind = *kind;
        },
        FilterMessage::ProgressComp => {
            filters.progress.comp.toggle();
        },
        FilterMessage::RatingKind(kind) => {
            filters.rating.kind = *kind;
        },
        FilterMessage::RatingComp => {
            filters.rating.comp.toggle();
        },
        FilterMessage::CommentsNum(number) => {
            let number = trim(number.as_str());
            if number.unicode_len() == 0 {
                filters.comments = None;
                return FilterChange::Kept(filters);
            }
            let number = match parse(number, u32::MAX as u64) {
                Some(number) => number as u32,
                None => {
                    return FilterChange::Rejected;
                },
            };
            filters.comments = Some(
                match filters.comments {
                    Some(comments) => Comments { number, comp: comments.comp },
                    None => Comments { number, comp: Comp::Equal },
                },
            );
        },
        FilterMessage::CommentsComp => {
            if let Some(comments) = filters.comments {
                let mut comp = comments.comp;
                comp.toggle();
                filters.comments = Some(Comments { comp, number: comments.number });
            }
        },
        FilterMessage::DurationMinutes(minutes) => {
            let minutes = trim(minutes.as_str());
            if minutes.unicode_len() == 0 {
                if let Some(duration) = filters.duration {
                    let secs = (duration.secs / HOUR) * HOUR;
                    filters.duration = if secs == 0 {
                        None
                    } else {
                        Some(Duration { secs, comp: duration.comp })
                    };
                }
                return FilterChange::Kept(filters);
            }
            let minutes = match parse(minutes, u64::MAX) {
                Some(minutes) => minutes,
                None => {
                    return FilterChange::Rejected;
                },
            };
            let (hours, comp) = match filters.duration {
                Some(duration) => ((duration.secs / HOUR) * HOUR, duration.comp),
                None => (0, Comp::Equal),
            };
            let secs = match minutes.checked_mul(MINUTE) {
                Some(secs) => secs,
                None => {
                    return FilterChange::Rejected;
                },
            };
            let secs = match hours.checked_add(secs) {
                Some(secs) => secs,
                None => {
                    return FilterChange::Rejected;
                },
            };
            filters.duration = Some(Duration { secs, comp });
        },
        FilterMessage::DurationHours(hours) => {
            let hours = trim(hours.as_str());
            if hours.unicode_len() == 0 {
                if let Some(duration) = filters.duration {
                    let secs = duration.secs % HOUR;
                    filters.duration = if secs == 0 {
                        None
                    } else {
                        Some(Duration { secs, comp: duration.comp })
                    };
                }
                return FilterChange::Kept(filters);
            }
            let hours = match parse(hours, u64::MAX) {
                Some(hours) => hours,
                None => {
                    return FilterChange::Rejected;
                },
            };
            let (minutes, comp) = match filters.duration {
                Some(duration) => (duration.secs % HOUR, duration.comp),
                None => (0, Comp::Equal),
            };
            let secs = match hours.checked_mul(HOUR) {
                Some(secs) => secs,
                None => {
                    return FilterChange::Rejected;
                },
            };
            let secs = match secs.checked_add(minutes) {
                Some(secs) => secs,
                None => {
                    return FilterChange::Rejected;
                },
            };
            filters.duration = Some(Duration { secs, comp });
        },
        FilterMessage::DurationComp => {
            if let Some(duration) = filters.duration {
                let mut comp = duration.comp;
                comp.toggle();
                filters.duration = Some(Duration { comp, secs: duration.secs });
            }
        },
        FilterMessage::ReleaseYear(year) => {
            let year = trim(year.as_str());
            if year.unicode_len() == 0 {
                filters.release = None;
                return FilterChange::Kept(filters);
            }
            let year = match parse(year, u16::MAX as u64) {
                Some(year) => year as u16,
                None => {
                    return FilterChange::Rejected;
                },
            };
            filters.release = Some(
                match filters.release {
                    Some(release) => Release { year, comp: release.comp },
                    None => Release { year, comp: Comp::Equal },
                },
            );
        },
        FilterMessage::ReleaseComp => {
            if let Some(release) = filters.release {
                let mut comp = release.comp;
                comp.toggle();
                filters.release = Some(Release { comp, year: release.year });
            }
        },
        FilterMessage::Clear => {
            filters.clear();
        },
    }
    FilterChange::Applied(filters)
}

/// The mathematical content of a [`Home`] screen.
pub struct HomeModel {
    /// The pages that were left by going back, the nearest last.
    pub ahead: Seq<Page>,
    /// The pages that were gone to, the current one last.
    pub past: Seq<Page>,
    pub search: Seq<char>,
    pub view: ViewType,
    /// The properties by which the videos are ordered.
    pub kinds: Seq<SortKind>,
    /// Whether the order is turned round.
    pub reverse: bool,
    pub show_sorts: bool,
    pub show_filters: bool,
    pub filters: Filter,
}

/// What a step does to the current page, if there is one.
pub open spec fn current_changed(
    pre: Seq<Page>,
    post: Seq<Page>,
    how: spec_fn(MoviesModel, MoviesModel) -> bool,
) -> bool {
    if pre.len() > 0 {
        &&& post.len() == pre.len()
        &&& post.drop_last() == pre.drop_last()
        &&& post.last().kind() == PageKind::Movies
        &&& how(pre.last().movies().model(), post.last().movies().model())
    } else {
        post == pre
    }
}

impl HomeModel {
    /// Every page of the history is a movies page, and well formed: no
    /// other kind of page has a content yet.
    pub open spec fn wf(self) -> bool {
        &&& forall|i: int|
            0 <= i < self.past.len() ==> (#[trigger] self.past[i]).kind() == PageKind::Movies
                && self.past[i].wf()
        &&& forall|i: int|
            0 <= i < self.ahead.len() ==> (#[trigger] self.ahead[i]).kind() == PageKind::Movies
                && self.ahead[i].wf()
    }

    /// A home screen without a page.
    pub open spec fn initial(view: ViewType, mode: FilterMode) -> HomeModel {
        HomeModel {
            ahead: Seq::empty(),
            past: Seq::empty(),
            search: Seq::empty(),
            view,
            kinds: Seq::empty(),
            reverse: false,
            show_sorts: false,
            show_filters: false,
            filters: Filter::empty(mode),
        }
    }

    /// What the screen is called: the name of the page that is shown, or
    /// `Home` without one.
    pub open spec fn title(self) -> Seq<char> {
        if self.past.len() > 0 {
            self.past.last().movies().model().name()
        } else {
            "Home"@
        }
    }

    /// The screen with another current page, and the same in all else: the
    /// current page came from the former one as `how` says.
    pub open spec fn with_current(
        pre: HomeModel,
        post: HomeModel,
        how: spec_fn(MoviesModel, MoviesModel) -> bool,
    ) -> bool {
        &&& current_changed(pre.past, post.past, how)
        &&& post == (HomeModel { past: post.past, ..pre })
    }

    /// How `post` and `action` come from `pre` by `message`.
    ///
    /// Going home moves the whole history to the pages that one can go
    /// forward to. Going to the movies opens a new, empty movies page with
    /// the order, the layout and the filter of the toolbar, forgets the way
    /// forward and asks for the videos; no other kind of page can be gone
    /// to. Back and forward move one page between the two halves of the
    /// history. The toolbar's changes are taken over and handed to the
    /// current page, except that a filter field that was emptied is not
    /// handed on; a text that is no number is rejected.
    pub open spec fn updated(
        pre: HomeModel,
        post: HomeModel,
        message: HomeMessage,
        action: HomeAction,
    ) -> bool {
        match message {
            HomeMessage::Search(input) => {
                &&& action == HomeAction::Nothing
                &&& post == (HomeModel { search: input@, ..pre })
            },
            HomeMessage::Home => {
                &&& action == HomeAction::Nothing
                &&& post == (HomeModel { ahead: pre.past, past: Seq::empty(), ..pre })
            },
            HomeMessage::Goto(kind) => if kind == PageKind::Movies {
                &&& action == HomeAction::LoadMovies
                &&& post == (HomeModel { ahead: Seq::empty(), past: post.past, ..pre })
                &&& post.past.len() == pre.past.len() + 1
                &&& post.past.drop_last() == pre.past
                &&& post.past.last().kind() == PageKind::Movies
                &&& post.past.last().movies().model() == (MoviesModel {
                    thumbnails: Map::empty(),
                    grid: pre.view == ViewType::Grid,
                    focused: None,
                    kinds: pre.kinds,
                    reverse: pre.reverse,
                    filter: pre.filters,
                    preview: None,
                    preview_back: None,
                })
            } else {
                &&& action == HomeAction::Rejected
                &&& post == pre
            },
            HomeMessage::Movies(inner) => {
                &&& action == HomeAction::Nothing
                &&& HomeModel::with_current(
                    pre,
                    post,
                    |before: MoviesModel, after: MoviesModel| after == before.updated(inner),
                )
            },
            HomeMessage::Back => {
                &&& action == HomeAction::Nothing
                &&& post == if pre.past.len() > 0 {
                    HomeModel {
                        past: pre.past.drop_last(),
                        ahead: pre.ahead.push(pre.past.last()),
                        ..pre
                    }
                } else {
                    pre
                }
            },
            HomeMessage::Forward => {
                &&& action == HomeAction::Nothing
                &&& post == if pre.ahead.len() > 0 {
                    HomeModel {
                        ahead: pre.ahead.drop_last(),
                        past: pre.past.push(pre.ahead.last()),
                        ..pre
                    }
                } else {
                    pre
                }
            },
            HomeMessage::ToggleView => {
                &&& action == HomeAction::Nothing
                &&& HomeModel::with_current(
                    HomeModel { view: pre.view.toggled(), ..pre },
                    post,
                    |before: MoviesModel, after: MoviesModel|
                        after == before.page_updated(PageUpdate::Layout(pre.view.toggled())),
                )
            },
            HomeMessage::AddSort(kind) => {
                &&& action == HomeAction::Nothing
                &&& HomeModel::with_current(
                    HomeModel { kinds: pre.kinds.push(kind), ..pre },
                    post,
                    |before: MoviesModel, after: MoviesModel|
                        after == (MoviesModel {
                            kinds: pre.kinds.push(kind),
                            reverse: pre.reverse,
                            ..before
                        }),
                )
            },
            HomeMessage::RemoveSort(kind) => {
                &&& action == HomeAction::Nothing
                &&& HomeModel::with_current(
                    HomeModel { kinds: pre.kinds.filter(|k: SortKind| k != kind), ..pre },
                    post,
                    |before: MoviesModel, after: MoviesModel|
                        after == (MoviesModel {
                            kinds: pre.kinds.filter(|k: SortKind| k != kind),
                            reverse: pre.reverse,
                            ..before
                        }),
                )
            },
            HomeMessage::ToggleSort => {
                &&& action == HomeAction::Nothing
                &&& post == (HomeModel { show_sorts: !pre.show_sorts, ..pre })
            },
            HomeMessage::ToggleFilter => {
                &&& action == HomeAction::Nothing
                &&& post == (HomeModel { show_filters: !pre.show_filters, ..pre })
            },
            HomeMessage::Filter(change) => match filter_change(pre.filters, change) {
                FilterChange::Applied(filters) => {
                    &&& action == HomeAction::Nothing
                    &&& HomeModel::with_current(
                        HomeModel { filters, ..pre },
                        post,
                        |before: MoviesModel, after: MoviesModel|
                            after == before.page_updated(PageUpdate::Filters(filters)),
                    )
                },
                FilterChange::Kept(filters) => {
                    &&& action == HomeAction::Nothing
                    &&& post == (HomeModel { filters, ..pre })
                },
                FilterChange::Rejected => {
                    &&& action == HomeAction::Rejected
                    &&& post == pre
                },
            },
            _ => {
                &&& action == HomeAction::Nothing
                &&& post == pre
            },
        }
    }
}

/// The home screen.
#[derive(Debug)]
pub struct Home {
    /// The pages that were left by going back, the nearest last.
    forward: Vec<Page>,
    /// The pages that were gone to, the current one last.
    backward: Vec<Page>,
    search: String,
    view: ViewType,
    sort: Sort,
    show_sorts: bool,
    show_filters: bool,
    filters: Filter,
}

impl Home {
    /// The mathematical content of the screen.
    pub closed spec fn model(&self) -> HomeModel {
        HomeModel {
            ahead: self.forward@,
            past: self.backward@,
            search: self.search@,
            view: self.view,
            kinds: self.sort.kinds@,
            reverse: self.sort.reverse,
            show_sorts: self.show_sorts,
            show_filters: self.show_filters,
            filters: self.filters,
        }
    }

    /// Every page of the history is a movies page, and well formed.
    pub open spec fn wf(&self) -> bool {
        self.model().wf()
    }

    /// A home screen without a page.
    pub fn new(view: ViewType, filter_mode: FilterMode) -> (home: Home)
        ensures
            home.wf(),
            home.model() == HomeModel::initial(view, filter_mode),
    {
        Home {
            forward: Vec::new(),
            backward: Vec::new(),
            search: String::new(),
            view,
            sort: Sort::default(),
            show_sorts: false,
            show_filters: false,
            filters: Filter::new(filter_mode),
        }
    }

    /// The home screen as the program starts with it: the default layout
    /// and the default filter mode.
    pub fn boot() -> (home: Home)
        ensures
            home.wf(),
            home.model() == HomeModel::initial(ViewType::Grid, FilterMode::And),
    {
        Home::new(ViewType::default(), FilterMode::default())
    }

    /// The pages that were gone to, the current one last.
    pub fn backward(&self) -> (pages: &Vec<Page>)
        ensures
            pages@ == self.model().past,
    {
        &self.backward
    }

    /// The pages that were left by going back, the nearest last.
    pub fn forward(&self) -> (pages: &Vec<Page>)
        ensures
            pages@ == self.model().ahead,
    {
        &self.forward
    }

    /// The text of the search field.
    pub fn search(&self) -> (text: &str)
        ensures
            text@ == self.model().search,
    {
        self.search.as_str()
    }

    /// How the videos are laid out.
    pub fn layout(&self) -> (view: ViewType)
        ensures
            view == self.model().view,
    {
        self.view
    }

    /// The order in which the videos are shown.
    pub fn sort(&self) -> (sort: &Sort)
        ensures
            sort.kinds@ == self.model().kinds,
            sort.reverse == self.model().reverse,
    {
        &self.sort
    }

    /// Whether the toolbar shows the order.
    pub fn show_sorts(&self) -> (show: bool)
        ensures
            show == self.model().show_sorts,
    {
        self.show_sorts
    }

    /// Whether the toolbar shows the filter.
    pub fn show_filters(&self) -> (show: bool)
        ensures
            show == self.model().show_filters,
    {
        self.show_filters
    }

    /// The filter of the toolbar.
    pub fn filters(&self) -> (filters: Filter)
        ensures
            filters == self.model().filters,
    {
        self.filters
    }

    /// The page that is shown, if one is.
    pub fn current_page(&self) -> (page: Option<&Page>)
        ensures
            page.is_some() == (self.model().past.len() > 0),
            page matches Some(p) ==> *p == self.model().past.last(),
    {
        let len = self.backward.len();
        if len == 0 {
            None
        } else {
            Some(&self.backward[len - 1])
        }
    }

    /// Whether one can go back: there is a page to leave.
    pub fn can_back(&self) -> (can: bool)
        requires
            self.wf(),
        ensures
            can == (self.model().past.len() > 0),
    {
        self.backward.len() > 0
    }

    /// Whether one can go forward: to a page that was left, or to the
    /// preview that the current page left.
    pub fn can_forward(&self) -> (can: bool)
        requires
            self.wf(),
        ensures
            can == (self.model().ahead.len() > 0 || (self.model().past.len() > 0
                && self.model().past.last().movies().model().preview_back.is_some())),
    {
        let here = match self.current_page() {
            Some(page) => page.can_forward(),
            None => false,
        };
        here || self.forward.len() > 0
    }

    /// What the screen is called: the name of the page that is shown, or
    /// `Home` without one.
    pub fn title(&self) -> (title: &str)
        requires
            self.wf(),
        ensures
            title@ == self.model().title(),
    {
        match self.current_page() {
            Some(page) => page.name(),
            None => "Home",
        }
    }

    /// Handles what happened on the screen, as [`HomeModel::updated`]
    /// says.
    pub fn update(&mut self, message: HomeMessage) -> (action: HomeAction)
        requires
            old(self).wf(),
        ensures
            final(self).wf(),
            HomeModel::updated(old(self).model(), final(self).model(), message, action),
    {
        match message {
            HomeMessage::Nothing => HomeAction::Nothing,
            HomeMessage::Animate => HomeAction::Nothing,
            HomeMessage::FontLoad(_loaded) => HomeAction::Nothing,
            HomeMessage::Search(input) => {
                self.search = input;
                HomeAction::Nothing
            },
            HomeMessage::Settings => HomeAction::Nothing,
            HomeMessage::Home => {
                let mut pages: Vec<Page> = Vec::new();
                std::mem::swap(&mut pages, &mut self.backward);
                self.forward = pages;
                HomeAction::Nothing
            },
            HomeMessage::Goto(kind) => {
                match kind {
                    PageKind::Movies => {
                        let movies = Movies::new(
                            self.sort.duplicate(),
                            matches!(self.view, ViewType::Grid),
                            self.filters,
                        );
                        self.forward = Vec::new();
                        self.backward.push(Page::Movies(movies));
                        assert(self.backward@.drop_last() =~= old(self).backward@);
                        HomeAction::LoadMovies
                    },
                    _ => HomeAction::Rejected,
                }
            },
            HomeMessage::Movies(inner) => {
                if let Some(mut page) = self.backward.pop() {
                    page.movies_update(inner);
                    self.backward.push(page);
                    assert(self.backward@.drop_last() =~= old(self).backward@.drop_last());
                }
                HomeAction::Nothing
            },
            HomeMessage::Back => {
                if let Some(current) = self.backward.pop() {
                    self.forward.push(current);
                    assert(self.backward@ =~= old(self).backward@.drop_last());
                }
                HomeAction::Nothing
            },
            HomeMessage::Forward => {
                if let Some(next) = self.forward.pop() {
                    self.backward.push(next);
                    assert(self.forward@ =~= old(self).forward@.drop_last());
                }
                HomeAction::Nothing
            },
            HomeMessage::ToggleView => {
                self.view.toggle();
                let view = self.view;
                if let Some(mut page) = self.backward.pop() {
                    page.page_update(PageUpdate::Layout(view));
                    self.backward.push(page);
                    assert(self.backward@.drop_last() =~= old(self).backward@.drop_last());
                }
                HomeAction::Nothing
            },
            HomeMessage::AddSort(kind) => {
                self.sort.add(kind);
                self.hand_on_sort();
                HomeAction::Nothing
            },
            HomeMessage::RemoveSort(kind) => {
                self.sort.remove(kind);
                self.hand_on_sort();
                HomeAction::Nothing
            },
            HomeMessage::ToggleSort => {
                self.show_sorts = !self.show_sorts;
                HomeAction::Nothing
            },
            HomeMessage::ToggleFilter => {
                self.show_filters = !self.show_filters;
                HomeAction::Nothing
            },
            HomeMessage::Filter(change) => {
                match change_filter(self.filters, &change) {
                    FilterChange::Applied(filters) => {
                        self.filters = filters;
                        if let Some(mut page) = self.backward.pop() {
                            page.page_update(PageUpdate::Filters(filters));
                            self.backward.push(page);
                            assert(self.backward@.drop_last() =~= old(self).backward@.drop_last());
                        }
                        HomeAction::Nothing
                    },
                    FilterChange::Kept(filters) => {
                        self.filters = filters;
                        HomeAction::Nothing
                    },
                    FilterChange::Rejected => HomeAction::Rejected,
                }
            },
            HomeMessage::NewCollection => HomeAction::Nothing,
            HomeMessage::Randomize => HomeAction::Nothing,
        }
    }

    /// Hands the order of the toolbar to the current page.
    fn hand_on_sort(&mut self)
        requires
            old(self).wf(),
        ensures
            final(self).wf(),
            HomeModel::with_current(
                old(self).model(),
                final(self).model(),
                |before: MoviesModel, after: MoviesModel|
                    after == (MoviesModel {
                        kinds: old(self).model().kinds,
                        reverse: old(self).model().reverse,
                        ..before
                    }),
            ),
    {
        let sort = self.sort.duplicate();
        if let Some(mut page) = self.backward.pop() {
            page.page_update(PageUpdate::Sort(sort));
            self.backward.push(page);
            assert(self.backward@.drop_last() =~= old(self).backward@.drop_last());
        }
    }
}

} // verus!
