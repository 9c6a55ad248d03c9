//! The pages of the home screen.

use vstd::prelude::*;
use crate::movies::{Movies, MoviesMessage, MoviesModel, PageUpdate, Screen};

verus! {

/// The kinds of page that there are.
#[derive(Debug, Clone, Copy, PartialEq, Eq, Structural)]
pub enum PageKind {
    Shows,
    Movies,
    Comments,
    Search,
    Custom,
}

/// A page of the home screen. Only the movies page has a content yet.
#[derive(Debug, Clone)]
pub enum Page {
    Shows,
    Movies(Movies),
    Comments,
    Search,
    Custom,
}

/// What a page shows.
#[derive(Debug, Clone, Copy, PartialEq, Eq, Structural)]
pub enum PageView {
    /// A page without content: only its kind is shown.
    Placeholder(PageKind),
    /// The movies page.
    Movies(Screen),
}

impl Page {
    /// The kind of the page.
    pub open spec fn kind(&self) -> PageKind {
        match self {
            Page::Shows => PageKind::Shows,
            Page::Movies(_) => PageKind::Movies,
            Page::Comments => PageKind::Comments,
            Page::Search => PageKind::Search,
            Page::Custom => PageKind::Custom,
        }
    }

    /// The movies page in the page.
    pub open spec fn movies(&self) -> Movies
        recommends
            self.kind() == PageKind::Movies,
    {
        self->Movies_0
    }

    /// A movies page has to be well formed; the others always are.
    pub open spec fn wf(&self) -> bool {
        self matches Page::Movies(movies) ==> movies.wf()
    }

    pub fn goto_shows() -> (kind: PageKind)
        ensures
            kind == PageKind::Shows,
    {
        PageKind::Shows
    }

    pub fn goto_movies() -> (kind: PageKind)
        ensures
            kind == PageKind::Movies,
    {
        PageKind::Movies
    }

    pub fn goto_comments() -> (kind: PageKind)
        ensures
            kind == PageKind::Comments,
    {
        PageKind::Comments
    }

    pub fn is_shows(&self) -> (is: bool)
        ensures
            is == (self.kind() == PageKind::Shows),
    {
        match self {
            Page::Shows => true,
            _ => false,
        }
    }

    pub fn is_movies(&self) -> (is: bool)
        ensures
            is == (self.kind() == PageKind::Movies),
    {
        match self {
            Page::Movies(_) => true,
            _ => false,
        }
    }

    pub fn is_comments(&self) -> (is: bool)
        ensures
            is == (self.kind() == PageKind::Comments),
    {
        match self {
            Page::Comments => true,
            _ => false,
        }
    }

    pub fn is_custom(&self) -> (is: bool)
        ensures
            is == (self.kind() == PageKind::Custom),
    {
        match self {
            Page::Custom => true,
            _ => false,
        }
    }

    /// Hands what happened on the movies page to the movies page. Another
    /// page ignores it.
    pub fn movies_update(&mut self, message: MoviesMessage)
        requires
            old(self).wf(),
        ensures
            final(self).wf(),
            final(self).kind() == old(self).kind(),
            old(self).kind() == PageKind::Movies ==> final(self).movies().model() == old(
                self,
            ).movies().model().updated(message),
            old(self).kind() != PageKind::Movies ==> *final(self) == *old(self),
    {
        match self {
            Page::Movies(movies) => {
                movies.update(message);
            },
            _ => {},
        }
    }

    /// What the page is called.
    pub fn name(&self) -> (name: &str)
        requires
            self.kind() == PageKind::Movies,
        ensures
            name@ == self.movies().model().name(),
    {
        match self {
            Page::Movies(movies) => movies.name(),
            _ => "",
        }
    }

    /// Returns true if the collection can go to a previous page
    pub fn can_back(&self) -> (can: bool)
        requires
            self.kind() == PageKind::Movies,
        ensures
            can == self.movies().model().preview.is_some(),
    {
        match self {
            Page::Movies(movies) => movies.can_back(),
            _ => false,
        }
    }

    /// Returns true if the collection can go to a next page
    pub fn can_forward(&self) -> (can: bool)
        requires
            self.kind() == PageKind::Movies,
        ensures
            can == self.movies().model().preview_back.is_some(),
    {
        match self {
            Page::Movies(movies) => movies.can_forward(),
            _ => false,
        }
    }

    /// Navigates to the previous page of the collection.
    /// Returning `false` causes the entire collection to be navigated past.
    pub fn back(&mut self) -> (went: bool)
        requires
            old(self).kind() == PageKind::Movies,
        ensures
            !went,
            *final(self) == *old(self),
    {
        false
    }

    /// Navigates to the next page of the collection.
    /// Returning `false` causes the entire collection to be navigated past.
    pub fn forward(&mut self) -> (went: bool)
        requires
            old(self).kind() == PageKind::Movies,
        ensures
            !went,
            *final(self) == *old(self),
    {
        false
    }

    /// Hands a change of the toolbar to the movies page.
    pub fn page_update(&mut self, update: PageUpdate)
        requires
            old(self).kind() == PageKind::Movies,
        ensures
            final(self).kind() == PageKind::Movies,
            final(self).movies().model() == old(self).movies().model().page_updated(update),
            old(self).wf() ==> final(self).wf(),
    {
        match self {
            Page::Movies(movies) => {
                movies.page_update(update);
            },
            _ => {},
        }
    }

    /// What the page shows.
    pub fn view(&self) -> (shown: PageView)
        ensures
            shown == match self {
                Page::Movies(movies) => PageView::Movies(movies.model().screen()),
                _ => PageView::Placeholder(self.kind()),
            },
    {
        match self {
            Page::Shows => PageView::Placeholder(PageKind::Shows),
            Page::Movies(movies) => PageView::Movies(movies.view()),
            Page::Comments => PageView::Placeholder(PageKind::Comments),
            Page::Search => PageView::Placeholder(PageKind::Search),
            Page::Custom => PageView::Placeholder(PageKind::Custom),
        }
    }
}

} // verus!
