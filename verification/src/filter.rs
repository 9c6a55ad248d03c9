//! The rules by which the catalogue is filtered.
//!
//! A filter holds one condition for each property of a video and a mode
//! that says how the conditions combine. A condition names a reference
//! value and how a video's own value has to compare with it.

use vstd::prelude::*;
use crate::icons::{CHEV_LEFT, CHEV_RIGHT, EQUALS};
use crate::text::{decimal, decimal_string};

verus! {

/// How the conditions of a filter combine.
#[derive(Debug, Clone, Copy, PartialEq, Eq, Structural)]
pub enum FilterMode {
    /// Every condition has to hold.
    And,
    /// One condition has to hold.
    Or,
}

impl Default for FilterMode {
    fn default() -> (mode: FilterMode)
        ensures
            mode == FilterMode::And,
    {
        FilterMode::And
    }
}

impl FilterMode {
    /// The other mode.
    pub open spec fn toggled(self) -> FilterMode {
        match self {
            FilterMode::And => FilterMode::Or,
            FilterMode::Or => FilterMode::And,
        }
    }

    /// Two conditions combined.
    pub open spec fn spec_compare(self, x: bool, y: bool) -> bool {
        match self {
            FilterMode::Or => x || y,
            FilterMode::And => x && y,
        }
    }

    /// Any number of conditions combined: with `And` all of them have to
    /// hold, with `Or` at least one.
    pub open spec fn spec_compare_many(self, conditions: Seq<bool>) -> bool {
        match self {
            FilterMode::And => forall|i: int| 0 <= i < conditions.len() ==> conditions[i],
            FilterMode::Or => exists|i: int| 0 <= i < conditions.len() && conditions[i],
        }
    }

    /// What the mode is called on the screen.
    pub open spec fn spec_label(self) -> Seq<char> {
        match self {
            FilterMode::Or => "OR"@,
            FilterMode::And => "AND"@,
        }
    }

    /// Switches to the other mode.
    pub fn toggle(&mut self)
        ensures
            *final(self) == old(self).toggled(),
    {
        *self = match self {
            FilterMode::And => FilterMode::Or,
            FilterMode::Or => FilterMode::And,
        }
    }

    /// Compares two conditions using self.
    pub fn compare(&self, x: bool, y: bool) -> (r: bool)
        ensures
            r == self.spec_compare(x, y),
    {
        match self {
            FilterMode::Or => x || y,
            FilterMode::And => x && y,
        }
    }

    /// Like `compare` but with multiple values
    pub fn compare_many(&self, conditions: &[bool]) -> (r: bool)
        ensures
            r == self.spec_compare_many(conditions@),
    {
        let init = matches!(self, FilterMode::And);
        let mut acc = init;
        let mut i: usize = 0;
        while i < conditions.len()
            invariant
                i <= conditions@.len(),
                acc == self.spec_compare_many(conditions@.subrange(0, i as int)),
            decreases conditions@.len() - i,
        {
            let ghost before = conditions@.subrange(0, i as int);
            let ghost after = conditions@.subrange(0, i + 1);
            acc = self.compare(acc, conditions[i]);
            proof {
                assert(forall|k: int| 0 <= k < i ==> before[k] == after[k]);
                assert(after[i as int] == conditions@[i as int]);
                if self == FilterMode::Or && self.spec_compare_many(before) {
                    let k = choose|k: int| 0 <= k < before.len() && before[k];
                    assert(after[k]);
                }
                if self == FilterMode::Or && self.spec_compare_many(after)
                    && !conditions@[i as int] {
                    let k = choose|k: int| 0 <= k < after.len() && after[k];
                    assert(before[k]);
                }
            }
            i = i + 1;
        }
        assert(conditions@.subrange(0, i as int) =~= conditions@);
        acc
    }

    /// What the mode is called on the screen.
    pub fn label(&self) -> (text: String)
        ensures
            text@ == self.spec_label(),
    {
        match self {
            FilterMode::Or => String::from_str("OR"),
            FilterMode::And => String::from_str("AND"),
        }
    }
}

/// How a video's value has to compare with the reference value of a
/// condition. The comparison is read from the reference value: `Less`
/// holds where the reference is less than the video's value.
#[derive(Debug, Clone, Copy, PartialEq, Eq, Structural)]
pub enum Comp {
    Less,
    Equal,
    Greater,
}

impl Default for Comp {
    fn default() -> (comp: Comp)
        ensures
            comp == Comp::Equal,
    {
        Comp::Equal
    }
}

impl Comp {
    /// The next comparison in the cycle less, equal, greater.
    pub open spec fn toggled(self) -> Comp {
        match self {
            Comp::Less => Comp::Equal,
            Comp::Equal => Comp::Greater,
            Comp::Greater => Comp::Less,
        }
    }

    /// Whether the value `x` meets the comparison with the reference `y`.
    pub open spec fn holds(self, x: int, y: int) -> bool {
        match self {
            Comp::Less => x > y,
            Comp::Equal => x == y,
            Comp::Greater => x < y,
        }
    }

    /// The icon of the comparison.
    pub open spec fn spec_icon(self) -> char {
        match self {
            Comp::Equal => EQUALS,
            Comp::Greater => CHEV_RIGHT,
            Comp::Less => CHEV_LEFT,
        }
    }

    /// The sign of the comparison.
    pub open spec fn spec_label(self) -> Seq<char> {
        match self {
            Comp::Less => "<"@,
            Comp::Greater => ">"@,
            Comp::Equal => "="@,
        }
    }

    /// Every comparison, in the order of the cycle.
    pub fn all() -> (all: [Comp; 3])
        ensures
            all@ == seq![Comp::Less, Comp::Equal, Comp::Greater],
    {
        let all = [Comp::Less, Comp::Equal, Comp::Greater];
        assert(all@ =~= seq![Comp::Less, Comp::Equal, Comp::Greater]);
        all
    }

    pub fn icon(&self) -> (icon: char)
        ensures
            icon == self.spec_icon(),
    {
        match self {
            Comp::Equal => EQUALS,
            Comp::Greater => CHEV_RIGHT,
            Comp::Less => CHEV_LEFT,
        }
    }

    /// Moves on to the next comparison in the cycle.
    pub fn toggle(&mut self)
        ensures
            *final(self) == old(self).toggled(),
    {
        *self = match self {
            Comp::Less => Comp::Equal,
            Comp::Equal => Comp::Greater,
            Comp::Greater => Comp::Less,
        }
    }

    /// Whether the value `x` meets the comparison with the reference `y`.
    pub fn compare(&self, x: u64, y: u64) -> (r: bool)
        ensures
            r == self.holds(x as int, y as int),
    {
        match self {
            Comp::Less => x > y,
            Comp::Equal => x == y,
            Comp::Greater => x < y,
        }
    }

    /// The sign of the comparison.
    pub fn label(&self) -> (text: String)
        ensures
            text@ == self.spec_label(),
    {
        match self {
            Comp::Less => String::from_str("<"),
            Comp::Greater => String::from_str(">"),
            Comp::Equal => String::from_str("="),
        }
    }
}

/// The reference values that a progress condition can name.
#[derive(Debug, Clone, Copy, PartialEq, Eq, Structural)]
pub enum ProgressKind {
    Any,
    Zero,
    TwentyFive,
    Fifty,
    SeventyFive,
    Complete,
}

impl Default for ProgressKind {
    fn default() -> (kind: ProgressKind)
        ensures
            kind == ProgressKind::Any,
    {
        ProgressKind::Any
    }
}

impl ProgressKind {
    /// The reference value in hundredths of a percent, if there is one.
    pub open spec fn threshold(self) -> Option<int> {
        match self {
            ProgressKind::Any => None,
            ProgressKind::Zero => Some(0),
            ProgressKind::TwentyFive => Some(2500),
            ProgressKind::Fifty => Some(5000),
            ProgressKind::SeventyFive => Some(7500),
            ProgressKind::Complete => Some(10000),
        }
    }

    /// What the reference value is called on the screen.
    pub open spec fn spec_label(self) -> Seq<char> {
        match self {
            ProgressKind::Any => "Any"@,
            ProgressKind::Zero => "0%"@,
            ProgressKind::TwentyFive => "25%"@,
            ProgressKind::Fifty => "50%"@,
            ProgressKind::SeventyFive => "75%"@,
            ProgressKind::Complete => "100%"@,
        }
    }

    /// Every reference value, in rising order.
    pub fn all() -> (all: [ProgressKind; 6])
        ensures
            all@ == seq![
                ProgressKind::Any,
                ProgressKind::Zero,
                ProgressKind::TwentyFive,
                ProgressKind::Fifty,
                ProgressKind::SeventyFive,
                ProgressKind::Complete,
            ],
    {
        let all = [
            ProgressKind::Any,
            ProgressKind::Zero,
            ProgressKind::TwentyFive,
            ProgressKind::Fifty,
            ProgressKind::SeventyFive,
            ProgressKind::Complete,
        ];
        assert(all@ =~= seq![
            ProgressKind::Any,
            ProgressKind::Zero,
            ProgressKind::TwentyFive,
            ProgressKind::Fifty,
            ProgressKind::SeventyFive,
            ProgressKind::Complete,
        ]);
        all
    }

    /// What the reference value is called on the screen.
    pub fn label(&self) -> (text: String)
        ensures
            text@ == self.spec_label(),
    {
        match self {
            ProgressKind::Any => String::from_str("Any"),
            ProgressKind::Zero => String::from_str("0%"),
            ProgressKind::TwentyFive => String::from_str("25%"),
            ProgressKind::Fifty => String::from_str("50%"),
            ProgressKind::SeventyFive => String::from_str("75%"),
            ProgressKind::Complete => String::from_str("100%"),
        }
    }
}

/// A condition on how far a video has been watched.
#[derive(Debug, Clone, Copy, PartialEq, Eq, Structural)]
pub struct Progress {
    pub kind: ProgressKind,
    pub comp: Comp,
}

impl Default for Progress {
    fn default() -> (progress: Progress)
        ensures
            progress == (Progress { kind: ProgressKind::Any, comp: Comp::Equal }),
    {
        Progress { kind: ProgressKind::Any, comp: Comp::Equal }
    }
}

impl Progress {
    /// Whether a progress of `value` hundredths of a percent meets the
    /// condition: always where it names no reference value.
    pub open spec fn accepts(self, value: int) -> bool {
        match self.kind.threshold() {
            None => true,
            Some(reference) => self.comp.holds(value, reference),
        }
    }

    pub fn is_any(&self) -> (any: bool)
        ensures
            any == (self.kind == ProgressKind::Any),
    {
        matches!(self.kind, ProgressKind::Any)
    }

    /// Whether a progress of `value` hundredths of a percent meets the
    /// condition.
    pub fn compare(&self, value: u16) -> (r: bool)
        ensures
            r == self.accepts(value as int),
    {
        let reference: u64 = match self.kind {
            ProgressKind::Any => {
                return true;
            },
            ProgressKind::Zero => 0,
            ProgressKind::TwentyFive => 2500,
            ProgressKind::Fifty => 5000,
            ProgressKind::SeventyFive => 7500,
            ProgressKind::Complete => 10000,
        };
        self.comp.compare(value as u64, reference)
    }
}

/// The reference values that a rating condition can name.
#[derive(Debug, Clone, Copy, PartialEq, Eq, Structural)]
pub enum RatingKind {
    Any,
    One,
    Two,
    Three,
    Four,
    Five,
}

impl Default for RatingKind {
    fn default() -> (kind: RatingKind)
        ensures
            kind == RatingKind::Any,
    {
        RatingKind::Any
    }
}

impl RatingKind {
    /// The reference value in stars, if there is one.
    pub open spec fn threshold(self) -> Option<int> {
        match self {
            RatingKind::Any => None,
            RatingKind::One => Some(1),
            RatingKind::Two => Some(2),
            RatingKind::Three => Some(3),
            RatingKind::Four => Some(4),
            RatingKind::Five => Some(5),
        }
    }

    /// What the reference value is called on the screen.
    pub open spec fn spec_label(self) -> Seq<char> {
        match self.threshold() {
            None => "Any"@,
            Some(stars) => decimal(stars as nat),
        }
    }

    /// Every reference value, in rising order.
    pub fn all() -> (all: [RatingKind; 6])
        ensures
            all@ == seq![
                RatingKind::Any,
                RatingKind::One,
                RatingKind::Two,
                RatingKind::Three,
                RatingKind::Four,
                RatingKind::Five,
            ],
    {
        let all = [
            RatingKind::Any,
            RatingKind::One,
            RatingKind::Two,
            RatingKind::Three,
            RatingKind::Four,
            RatingKind::Five,
        ];
        assert(all@ =~= seq![
            RatingKind::Any,
            RatingKind::One,
            RatingKind::Two,
            RatingKind::Three,
            RatingKind::Four,
            RatingKind::Five,
        ]);
        all
    }

    /// What the reference value is called on the screen.
    pub fn label(&self) -> (text: String)
        ensures
            text@ == self.spec_label(),
    {
        match self {
            RatingKind::Any => String::from_str("Any"),
            RatingKind::One => decimal_string(1),
            RatingKind::Two => decimal_string(2),
            RatingKind::Three => decimal_string(3),
            RatingKind::Four => decimal_string(4),
            RatingKind::Five => decimal_string(5),
        }
    }
}

/// A condition on the rating of a video.
#[derive(Debug, Clone, Copy, PartialEq, Eq, Structural)]
pub struct Rating {
    pub kind: RatingKind,
    pub comp: Comp,
}

impl Default for Rating {
    fn default() -> (rating: Rating)
        ensures
            rating == (Rating { kind: RatingKind::Any, comp: Comp::Equal }),
    {
        Rating { kind: RatingKind::Any, comp: Comp::Equal }
    }
}

impl Rating {
    /// Whether a rating of `value` stars meets the condition: always where
    /// it names no reference value.
    pub open spec fn accepts(self, value: int) -> bool {
        match self.kind.threshold() {
            None => true,
            Some(reference) => self.comp.holds(value, reference),
        }
    }

    pub fn is_any(&self) -> (any: bool)
        ensures
            any == (self.kind == RatingKind::Any),
    {
        matches!(self.kind, RatingKind::Any)
    }

    /// Whether a rating of `value` stars meets the condition.
    pub fn compare(&self, value: u8) -> (r: bool)
        ensures
            r == self.accepts(value as int),
    {
        let reference: u64 = match self.kind {
            RatingKind::Any => {
                return true;
            },
            RatingKind::One => 1,
            RatingKind::Two => 2,
            RatingKind::Three => 3,
            RatingKind::Four => 4,
            RatingKind::Five => 5,
        };
        self.comp.compare(value as u64, reference)
    }
}

/// A condition on the number of comments of a video.
#[derive(Debug, Clone, Copy, PartialEq, Eq, Structural)]
pub struct Comments {
    pub number: u32,
    pub comp: Comp,
}

impl Comments {
    /// Whether a video with `value` comments meets the condition.
    pub fn compare(&self, value: u32) -> (r: bool)
        ensures
            r == self.comp.holds(value as int, self.number as int),
    {
        self.comp.compare(value as u64, self.number as u64)
    }
}

/// A condition on the year in which a video was released.
#[derive(Debug, Clone, Copy, PartialEq, Eq, Structural)]
pub struct Release {
    pub year: u16,
    pub comp: Comp,
}

impl Release {
    /// Whether a video released in the year `value` meets the condition.
    pub fn compare(&self, value: u16) -> (r: bool)
        ensures
            r == self.comp.holds(value as int, self.year as int),
    {
        self.comp.compare(value as u64, self.year as u64)
    }
}

/// A condition on the length of a video.
#[derive(Debug, Clone, Copy, PartialEq, Eq, Structural)]
pub struct Duration {
    pub secs: u64,
    pub comp: Comp,
}

impl Duration {
    /// Whether a video of `value` seconds meets the condition.
    pub fn compare(&self, value: u64) -> (r: bool)
        ensures
            r == self.comp.holds(value as int, self.secs as int),
    {
        self.comp.compare(value, self.secs)
    }
}

/// The conditions on the videos of the catalogue, and how they combine.
#[derive(Debug, Clone, Copy, PartialEq, Eq, Structural)]
pub struct Filter {
    pub progress: Progress,
    pub rating: Rating,
    pub comments: Option<Comments>,
    pub release: Option<Release>,
    pub duration: Option<Duration>,
    pub mode: FilterMode,
}

impl Filter {
    /// The filter of `mode` without a condition.
    pub open spec fn empty(mode: FilterMode) -> Filter {
        Filter {
            progress: Progress { kind: ProgressKind::Any, comp: Comp::Equal },
            rating: Rating { kind: RatingKind::Any, comp: Comp::Equal },
            comments: None,
            release: None,
            duration: None,
            mode,
        }
    }

    /// Whether the filter holds no condition.
    pub open spec fn spec_is_any(self) -> bool {
        &&& self.progress.kind == ProgressKind::Any
        &&& self.rating.kind == RatingKind::Any
        &&& self.comments.is_none()
        &&& self.release.is_none()
        &&& self.duration.is_none()
    }

    pub fn new(mode: FilterMode) -> (filter: Filter)
        ensures
            filter == Filter::empty(mode),
    {
        Filter {
            progress: Progress::default(),
            rating: Rating::default(),
            comments: None,
            release: None,
            duration: None,
            mode,
        }
    }

    pub fn is_any(&self) -> (any: bool)
        ensures
            any == self.spec_is_any(),
    {
        self.progress.is_any() && self.rating.is_any() && self.comments.is_none()
            && self.release.is_none() && self.duration.is_none()
    }

    /// Resets all filters keeping the mode intact
    pub fn clear(&mut self)
        ensures
            *final(self) == Filter::empty(old(self).mode),
    {
        self.progress = Progress::default();
        self.rating = Rating::default();
        self.comments = None;
        self.release = None;
        self.duration = None;
    }
}

} // verus!
