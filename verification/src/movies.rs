//! The movies page: the videos it shows, which of them pass the filter, and
//! the preview of one of them.

use std::collections::HashMap;
use vstd::prelude::*;
use vstd::utf8::encode_utf8;
use vstd::view::View as _;
use crate::filter::{Filter, FilterMode};
use crate::icons::{
    PROGRESS_10, PROGRESS_100, PROGRESS_20, PROGRESS_40, PROGRESS_60, PROGRESS_80, PROGRESS_90,
};
use crate::sort::{
    bytes_order, compare_bytes, compare_numbers, lemma_bytes_order_flips,
    lemma_bytes_order_transitive, number_order, Order, Sort, SortKind, ViewType,
};
use crate::text::{decimal, decimal_padded, push_decimal, push_decimal_padded};
use crate::video::{Video, VideoId};

verus! {

broadcast use vstd::std_specs::hash::group_hash_axioms;

/// The tabs of a preview.
#[derive(Debug, Clone, Copy, PartialEq, Eq, Structural)]
pub enum View {
    /// Video overview
    Info,
    /// Comments on Video
    Comments,
    /// Video details: duration, comments no, release, ratings, added, watch progress,
    /// watch count, recent,
    Data,
    /// Collection memberships
    Collections,
}

impl Default for View {
    fn default() -> (view: View)
        ensures
            view == View::Info,
    {
        View::Info
    }
}

impl View {
    /// What the tab is called on the screen.
    pub open spec fn spec_label(self) -> Seq<char> {
        match self {
            View::Info => "Overview"@,
            View::Comments => "Comments"@,
            View::Data => "Data"@,
            View::Collections => "Collections"@,
        }
    }

    /// Every tab, in the order in which they are shown.
    pub fn all() -> (all: [View; 4])
        ensures
            all@ == seq![View::Info, View::Data, View::Comments, View::Collections],
    {
        let all = [View::Info, View::Data, View::Comments, View::Collections];
        assert(all@ =~= seq![View::Info, View::Data, View::Comments, View::Collections]);
        all
    }

    /// What the tab is called on the screen.
    pub fn label(&self) -> (text: String)
        ensures
            text@ == self.spec_label(),
    {
        match self {
            View::Info => String::from_str("Overview"),
            View::Comments => String::from_str("Comments"),
            View::Data => String::from_str("Data"),
            View::Collections => String::from_str("Collections"),
        }
    }
}

/// The most stars that a rating can have.
pub const MAX_RATING: u8 = 5;

/// The icon for a progress of `progress` hundredths of a percent.
pub open spec fn progress_icon(progress: int) -> char {
    if progress < 1500 {
        PROGRESS_10
    } else if progress < 3000 {
        PROGRESS_20
    } else if progress < 5000 {
        PROGRESS_40
    } else if progress < 7000 {
        PROGRESS_60
    } else if progress < 8500 {
        PROGRESS_80
    } else if progress < 10000 {
        PROGRESS_90
    } else {
        PROGRESS_100
    }
}

/// A progress of `progress` hundredths of a percent in words: the whole
/// percent, then a point and two digits where it is no whole percent, then
/// the percent sign.
pub open spec fn progress_text(progress: nat) -> Seq<char> {
    decimal(progress / 100) + (if progress % 100 == 0 {
        Seq::<char>::empty()
    } else {
        seq!['.'] + decimal_padded(progress % 100)
    }) + seq!['%']
}

/// One video as the page shows it.
#[derive(Debug, Clone)]
pub struct Thumbnail {
    /// Whether the card is enlarged, as it is under the cursor.
    pub zoom: bool,
    pub video: Video,
}

impl Thumbnail {
    pub fn new(video: Video) -> (thumbnail: Thumbnail)
        ensures
            thumbnail.video == video,
            !thumbnail.zoom,
    {
        Thumbnail { zoom: false, video }
    }

    /// How many full and how many empty stars show the rating: the rating
    /// itself, and what is missing to [`MAX_RATING`].
    pub fn ratings(&self) -> (stars: (u8, u8))
        ensures
            stars.0 == self.video.rating,
            stars.1 == if self.video.rating <= MAX_RATING {
                MAX_RATING - self.video.rating
            } else {
                0
            },
    {
        let empty = if self.video.rating <= MAX_RATING {
            MAX_RATING - self.video.rating
        } else {
            0
        };
        (self.video.rating, empty)
    }

    /// The icon and the words that show how far the video has been
    /// watched.
    pub fn progress(&self) -> (shown: (char, String))
        ensures
            shown.0 == progress_icon(self.video.progress as int),
            shown.1@ == progress_text(self.video.progress as nat),
    {
        let progress = self.video.progress;
        let icon = if progress < 1500 {
            PROGRESS_10
        } else if progress < 3000 {
            PROGRESS_20
        } else if progress < 5000 {
            PROGRESS_40
        } else if progress < 7000 {
            PROGRESS_60
        } else if progress < 8500 {
            PROGRESS_80
        } else if progress < 10000 {
            PROGRESS_90
        } else {
            PROGRESS_100
        };
        let mut text = String::new();
        push_decimal(&mut text, (progress / 100) as u64);
        if progress % 100 != 0 {
            text.append(".");
            push_decimal_padded(&mut text, (progress % 100) as u64);
        }
        text.append("%");
        proof {
            reveal_strlit(".");
            reveal_strlit("%");
            assert("."@ =~= seq!['.']);
            assert("%"@ =~= seq!['%']);
            assert(text@ =~= progress_text(progress as nat));
        }
        (icon, text)
    }
}

/// Whether an optional condition is met: one that is absent counts as met
/// where all conditions have to hold, and as not met where one suffices.
pub open spec fn optional_condition(condition: Option<bool>, mode: FilterMode) -> bool {
    match condition {
        Some(met) => met,
        None => mode == FilterMode::And,
    }
}

/// The conditions of `filter` as `video` meets them, in the order
/// progress, rating, comments, release, duration.
pub open spec fn conditions(video: Video, filter: Filter) -> Seq<bool> {
    seq![
        filter.progress.accepts(video.progress as int),
        filter.rating.accepts(video.rating as int),
        optional_condition(
            match filter.comments {
                Some(c) => Some(c.comp.holds(video.comments as int, c.number as int)),
                None => None,
            },
            filter.mode,
        ),
        optional_condition(
            match filter.release {
                Some(r) => Some(r.comp.holds(video.release as int, r.year as int)),
                None => None,
            },
            filter.mode,
        ),
        optional_condition(
            match filter.duration {
                Some(d) => Some(d.comp.holds(video.duration as int, d.secs as int)),
                None => None,
            },
            filter.mode,
        ),
    ]
}

/// Whether `video` passes `filter`: its conditions combined by its mode.
pub open spec fn passes(video: Video, filter: Filter) -> bool {
    filter.mode.spec_compare_many(conditions(video, filter))
}

/// Whether `video` passes the filter `rules`.
pub fn filter(video: &Video, rules: Filter) -> (passed: bool)
    ensures
        passed == passes(*video, rules),
{
    let absent = matches!(rules.mode, FilterMode::And);
    let progress = rules.progress.compare(video.progress);
    let rating = rules.rating.compare(video.rating);
    let comments = match rules.comments {
        Some(comments) => comments.compare(video.comments),
        None => absent,
    };
    let release = match rules.release {
        Some(release) => release.compare(video.release),
        None => absent,
    };
    let duration = match rules.duration {
        Some(duration) => duration.compare(video.duration),
        None => absent,
    };
    let all = [progress, rating, comments, release, duration];
    assert(all@ =~= conditions(*video, rules));
    rules.mode.compare_many(all.as_slice())
}

/// The preview of one video.
#[derive(Debug, Clone, Copy, PartialEq, Eq, Structural)]
pub struct Preview {
    pub view: View,
    pub id: VideoId,
}

impl Preview {
    pub fn new(id: VideoId) -> (preview: Preview)
        ensures
            preview == (Preview { view: View::Info, id }),
    {
        Preview { view: View::Info, id }
    }
}

/// How the video `x` stands to the video `y` by one property. Names are
/// ordered as in the dictionary, byte by byte of their UTF-8 encoding.
pub open spec fn key_order(x: Video, y: Video, kind: SortKind) -> Order {
    match kind {
        SortKind::Name => bytes_order(encode_utf8(x.name@), encode_utf8(y.name@)),
        SortKind::Duration => number_order(x.duration as int, y.duration as int),
        SortKind::Added => number_order(x.added as int, y.added as int),
        SortKind::Rating => number_order(x.rating as int, y.rating as int),
        SortKind::Recent => number_order(x.recent as int, y.recent as int),
        SortKind::Release => number_order(x.release as int, y.release as int),
        SortKind::Progress => number_order(x.progress as int, y.progress as int),
        SortKind::Comments => number_order(x.comments as int, y.comments as int),
    }
}

/// How the video `x` stands to the video `y` by the properties `kinds`:
/// the first property by which they differ decides.
pub open spec fn video_order(x: Video, y: Video, kinds: Seq<SortKind>) -> Order
    decreases kinds.len(),
{
    if kinds.len() == 0 {
        Order::Equal
    } else if key_order(x, y, kinds[0]) != Order::Equal {
        key_order(x, y, kinds[0])
    } else {
        video_order(x, y, kinds.subrange(1, kinds.len() as int))
    }
}

/// Seen from the other side, the order of two videos is the other way
/// round.
pub proof fn lemma_video_order_flips(x: Video, y: Video, kinds: Seq<SortKind>)
    ensures
        video_order(y, x, kinds) == video_order(x, y, kinds).flipped(),
    decreases kinds.len(),
{
    if kinds.len() > 0 {
        lemma_bytes_order_flips(encode_utf8(x.name@), encode_utf8(y.name@));
        lemma_video_order_flips(x, y, kinds.subrange(1, kinds.len() as int));
    }
}

/// The order of the videos carries over: with `x` no greater than `y` and
/// `y` no greater than `z`, `x` is no greater than `z`.
pub proof fn lemma_video_order_transitive(x: Video, y: Video, z: Video, kinds: Seq<SortKind>)
    requires
        video_order(x, y, kinds) != Order::Greater,
        video_order(y, z, kinds) != Order::Greater,
    ensures
        video_order(x, z, kinds) != Order::Greater,
        video_order(x, y, kinds) == Order::Less || video_order(y, z, kinds) == Order::Less
            ==> video_order(x, z, kinds) == Order::Less,
    decreases kinds.len(),
{
    if kinds.len() > 0 {
        let xs = encode_utf8(x.name@);
        let ys = encode_utf8(y.name@);
        let zs = encode_utf8(z.name@);
        if kinds[0] == SortKind::Name {
            if bytes_order(xs, ys) != Order::Greater && bytes_order(ys, zs) != Order::Greater {
                lemma_bytes_order_transitive(xs, ys, zs);
            }
        }
        if key_order(x, y, kinds[0]) == Order::Equal && key_order(y, z, kinds[0]) == Order::Equal {
            lemma_video_order_transitive(x, y, z, kinds.subrange(1, kinds.len() as int));
        }
    }
}

/// How the video `x` stands to the video `y` by the properties `sorts`.
pub fn sort(x: &Video, y: &Video, sorts: &[SortKind]) -> (order: Order)
    ensures
        order == video_order(*x, *y, sorts@),
{
    let mut i: usize = 0;
    assert(sorts@.subrange(0, sorts@.len() as int) =~= sorts@);
    while i < sorts.len()
        invariant
            i <= sorts@.len(),
            video_order(*x, *y, sorts@) == video_order(
                *x,
                *y,
                sorts@.subrange(i as int, sorts@.len() as int),
            ),
        decreases sorts@.len() - i,
    {
        let ghost rest = sorts@.subrange(i as int, sorts@.len() as int);
        assert(rest[0] == sorts@[i as int]);
        assert(rest.subrange(1, rest.len() as int) =~= sorts@.subrange(
            i + 1,
            sorts@.len() as int,
        ));
        let order = match sorts[i] {
            SortKind::Name => compare_bytes(x.name.as_str().as_bytes(), y.name.as_str().as_bytes()),
            SortKind::Duration => compare_numbers(x.duration, y.duration),
            SortKind::Added => compare_numbers(x.added, y.added),
            SortKind::Rating => compare_numbers(x.rating as u64, y.rating as u64),
            SortKind::Recent => compare_numbers(x.recent, y.recent),
            SortKind::Release => compare_numbers(x.release as u64, y.release as u64),
            SortKind::Progress => compare_numbers(x.progress as u64, y.progress as u64),
            SortKind::Comments => compare_numbers(x.comments as u64, y.comments as u64),
        };
        if !matches!(order, Order::Equal) {
            return order;
        }
        i = i + 1;
    }
    Order::Equal
}

/// What can happen on the movies page.
#[derive(Debug, Clone)]
pub enum MoviesMessage {
    /// The cursor came over the card of a video, or left it.
    Hovered(VideoId, bool),
    /// Videos were loaded.
    Thumbnails(Vec<Thumbnail>),
    Play(VideoId),
    AddCollection(VideoId),
    /// The preview of a video was asked for.
    Details(VideoId),
    /// A tab of the preview was chosen.
    View(View),
    Animate,
    /// Nothing happened.
    Nothing,
}

/// What the page has to do on a change of the toolbar.
#[derive(Debug, Clone, PartialEq, Eq)]
pub enum PageUpdate {
    Layout(ViewType),
    Sort(Sort),
    Filters(Filter),
}

/// What the movies page shows.
#[derive(Debug, Clone, Copy, PartialEq, Eq, Structural)]
pub enum Screen {
    /// The preview of one video.
    Preview(Preview),
    /// The videos as a grid of cards.
    Grid,
    /// The videos as a list.
    List,
}

/// `map` with each video of `batch` put under its id in turn: a later
/// video takes the place of an earlier one with the same id.
pub open spec fn inserted_all(
    map: Map<usize, Thumbnail>,
    batch: Seq<Thumbnail>,
) -> Map<usize, Thumbnail>
    decreases batch.len(),
{
    if batch.len() == 0 {
        map
    } else {
        inserted_all(map, batch.drop_last()).insert(batch.last().video.id@, batch.last())
    }
}

/// Every video of `map` stands under the number of its own id.
pub open spec fn keyed(map: Map<usize, Thumbnail>) -> bool {
    forall|k: usize| map.contains_key(k) ==> (#[trigger] map[k]).video.id@ == k
}

/// Every video of `order` is one of `map` that passes the filter `rules`.
pub open spec fn only_passing(map: Map<usize, Thumbnail>, rules: Filter, order: Seq<usize>) -> bool {
    forall|i: int|
        0 <= i < order.len() ==> map.contains_key(#[trigger] order[i]) && passes(
            map[order[i]].video,
            rules,
        )
}

/// No video stands twice in `order`.
pub open spec fn no_video_twice(order: Seq<usize>) -> bool {
    forall|i: int, j: int| 0 <= i < j < order.len() ==> order[i] != order[j]
}

/// Every video of `map` that passes the filter `rules` stands in `order`.
pub open spec fn all_passing(map: Map<usize, Thumbnail>, rules: Filter, order: Seq<usize>) -> bool {
    forall|k: usize|
        map.contains_key(k) && passes((#[trigger] map[k]).video, rules) ==> order.contains(k)
}

/// No video of `order` stands to a later one as `never` says, by the
/// properties `kinds`.
pub open spec fn in_order(
    map: Map<usize, Thumbnail>,
    kinds: Seq<SortKind>,
    order: Seq<usize>,
    never: Order,
) -> bool {
    forall|i: int, j: int|
        0 <= i < j < order.len() ==> video_order(
            map[order[i]].video,
            map[order[j]].video,
            kinds,
        ) != never
}

/// Whether `k` is among the first `n` of `keys`.
spec fn among_first(keys: Seq<usize>, n: int, k: usize) -> bool {
    exists|j: int| 0 <= j < n && keys[j] == k
}

/// A video that passes and is put behind the last video that is no greater
/// keeps the shown videos in order, and adds nothing but itself.
proof fn lemma_insert_keeps_order(
    map: Map<usize, Thumbnail>,
    rules: Filter,
    kinds: Seq<SortKind>,
    before: Seq<usize>,
    at: int,
    key: usize,
)
    requires
        0 <= at <= before.len(),
        map.contains_key(key),
        passes(map[key].video, rules),
        only_passing(map, rules, before),
        no_video_twice(before),
        !before.contains(key),
        in_order(map, kinds, before, Order::Greater),
        forall|m: int|
            at <= m < before.len() ==> video_order(
                map[key].video,
                map[#[trigger] before[m]].video,
                kinds,
            ) == Order::Less,
        at > 0 ==> video_order(map[key].video, map[before[at - 1]].video, kinds) != Order::Less,
    ensures
        only_passing(map, rules, before.insert(at, key)),
        no_video_twice(before.insert(at, key)),
        in_order(map, kinds, before.insert(at, key), Order::Greater),
        before.insert(at, key).contains(key),
        forall|k: usize| before.contains(k) ==> before.insert(at, key).contains(k),
        forall|k: usize| before.insert(at, key).contains(k) ==> before.contains(k) || k == key,
{
    let after = before.insert(at, key);
    let video = map[key].video;
    assert(after[at] == key);
    assert forall|i: int| 0 <= i < after.len() implies map.contains_key(#[trigger] after[i])
        && passes(map[after[i]].video, rules) by {
        if i < at {
            assert(after[i] == before[i]);
        } else if i > at {
            assert(after[i] == before[i - 1]);
        }
    }
    assert forall|i: int, j: int| 0 <= i < j < after.len() implies after[i] != after[j] by {
        let a = if i < at {
            i
        } else {
            i - 1
        };
        let b = if j < at {
            j
        } else {
            j - 1
        };
        if i != at && j != at {
            assert(after[i] == before[a] && after[j] == before[b]);
        } else if i == at {
            assert(after[j] == before[b]);
        } else {
            assert(after[i] == before[a]);
        }
    }
    assert forall|k: usize| before.contains(k) implies after.contains(k) by {
        let i = choose|i: int| 0 <= i < before.len() && before[i] == k;
        if i < at {
            assert(after[i] == k);
        } else {
            assert(after[i + 1] == k);
        }
    }
    assert forall|k: usize| after.contains(k) implies before.contains(k) || k == key by {
        let i = choose|i: int| 0 <= i < after.len() && after[i] == k;
        if i < at {
            assert(before[i] == k);
        } else if i > at {
            assert(before[i - 1] == k);
        }
    }
    assert forall|i: int, j: int| 0 <= i < j < after.len() implies video_order(
        map[after[i]].video,
        map[after[j]].video,
        kinds,
    ) != Order::Greater by {
        if i == at {
            // the new video is less than each one behind it
            assert(after[j] == before[j - 1]);
        } else if j == at {
            // the one before the new video is no greater, and those before
            // it are no greater than that one
            let last = map[before[at - 1]].video;
            lemma_video_order_flips(video, last, kinds);
            assert(after[i] == before[i]);
            if i < at - 1 {
                lemma_video_order_transitive(map[before[i]].video, last, video, kinds);
            }
        } else if i < at {
            if j < at {
                assert(after[i] == before[i] && after[j] == before[j]);
            } else {
                assert(after[i] == before[i] && after[j] == before[j - 1]);
            }
        } else {
            assert(after[i] == before[i - 1] && after[j] == before[j - 1]);
        }
    }
}

/// Turned round, the shown videos are the same videos, against the order.
proof fn lemma_turned_round(
    map: Map<usize, Thumbnail>,
    rules: Filter,
    kinds: Seq<SortKind>,
    sorted: Seq<usize>,
    turned: Seq<usize>,
)
    requires
        turned.len() == sorted.len(),
        forall|i: int|
            0 <= i < turned.len() ==> #[trigger] turned[i] == sorted[sorted.len() - 1 - i],
        only_passing(map, rules, sorted),
        no_video_twice(sorted),
        all_passing(map, rules, sorted),
        in_order(map, kinds, sorted, Order::Greater),
    ensures
        only_passing(map, rules, turned),
        no_video_twice(turned),
        all_passing(map, rules, turned),
        in_order(map, kinds, turned, Order::Less),
{
    let len = sorted.len() as int;
    assert forall|i: int| 0 <= i < turned.len() implies map.contains_key(#[trigger] turned[i])
        && passes(map[turned[i]].video, rules) by {
        assert(turned[i] == sorted[len - 1 - i]);
    }
    assert forall|i: int, j: int| 0 <= i < j < turned.len() implies turned[i] != turned[j] by {
        assert(turned[i] == sorted[len - 1 - i] && turned[j] == sorted[len - 1 - j]);
    }
    assert forall|k: usize|
        map.contains_key(k) && passes((#[trigger] map[k]).video, rules) implies turned.contains(
        k,
    ) by {
        assert(sorted.contains(k));
        let i = choose|i: int| 0 <= i < sorted.len() && sorted[i] == k;
        assert(turned[len - 1 - i] == k);
    }
    assert forall|i: int, j: int| 0 <= i < j < turned.len() implies video_order(
        map[turned[i]].video,
        map[turned[j]].video,
        kinds,
    ) != Order::Less by {
        assert(turned[i] == sorted[len - 1 - i] && turned[j] == sorted[len - 1 - j]);
        lemma_video_order_flips(map[turned[j]].video, map[turned[i]].video, kinds);
    }
}

/// The mathematical content of a [`Movies`] page.
pub struct MoviesModel {
    /// The videos, each under the number of its id.
    pub thumbnails: Map<usize, Thumbnail>,
    pub grid: bool,
    pub focused: Option<VideoId>,
    /// The properties by which the videos are ordered.
    pub kinds: Seq<SortKind>,
    /// Whether the order is turned round.
    pub reverse: bool,
    pub filter: Filter,
    pub preview: Option<Preview>,
    pub preview_back: Option<Preview>,
}

impl MoviesModel {
    /// Every video stands under the number of its own id.
    pub open spec fn wf(self) -> bool {
        keyed(self.thumbnails)
    }

    /// Whether the page holds a video with `id`.
    pub open spec fn holds(self, id: VideoId) -> bool {
        self.thumbnails.contains_key(id@)
    }

    /// What the page is called: the name of the previewed video where
    /// there is one, else `Movies`.
    pub open spec fn name(self) -> Seq<char> {
        match self.preview {
            Some(preview) if self.holds(preview.id) => self.thumbnails[preview.id@].video.name@,
            _ => "Movies"@,
        }
    }

    /// What the page shows: the open preview, else the videos in the
    /// chosen layout.
    pub open spec fn screen(self) -> Screen {
        match self.preview {
            Some(preview) => Screen::Preview(preview),
            None => if self.grid {
                Screen::Grid
            } else {
                Screen::List
            },
        }
    }

    /// The video whose card may be moving: the one that the cursor touched
    /// last, where it is still there.
    pub open spec fn animating(self) -> Option<VideoId> {
        match self.focused {
            Some(id) if self.holds(id) => Some(id),
            _ => None,
        }
    }

    /// The page after what happened on it. The hovered card is enlarged
    /// and remembered; loaded videos are put under their ids in turn; a
    /// preview that is asked for opens on its first tab and forgets the
    /// way forward; a chosen tab is shown where a preview is open. Nothing
    /// else changes.
    pub open spec fn updated(self, message: MoviesMessage) -> MoviesModel {
        match message {
            MoviesMessage::Hovered(id, is_hovered) => if self.holds(id) {
                MoviesModel {
                    focused: Some(id),
                    thumbnails: self.thumbnails.insert(
                        id@,
                        Thumbnail { zoom: is_hovered, video: self.thumbnails[id@].video },
                    ),
                    ..self
                }
            } else {
                self
            },
            MoviesMessage::Details(id) => MoviesModel {
                preview: Some(Preview { view: View::Info, id }),
                preview_back: None,
                focused: None,
                ..self
            },
            MoviesMessage::Thumbnails(batch) => MoviesModel {
                thumbnails: inserted_all(self.thumbnails, batch@),
                ..self
            },
            MoviesMessage::View(view) => MoviesModel {
                preview: match self.preview {
                    Some(preview) => Some(Preview { view, id: preview.id }),
                    None => None,
                },
                ..self
            },
            _ => self,
        }
    }

    /// The page after a change of the toolbar: the order, the layout or
    /// the filter is taken over, and nothing else changes.
    pub open spec fn page_updated(self, update: PageUpdate) -> MoviesModel {
        match update {
            PageUpdate::Sort(sort) => MoviesModel {
                kinds: sort.kinds@,
                reverse: sort.reverse,
                ..self
            },
            PageUpdate::Layout(kind) => MoviesModel { grid: kind == ViewType::Grid, ..self },
            PageUpdate::Filters(filters) => MoviesModel { filter: filters, ..self },
        }
    }

    /// Whether `order` lists the videos as the page shows them, each by
    /// the number of its id: each video that passes the filter once, and
    /// no other; in the order of the toolbar, or against it where the order
    /// is turned round. Which of two videos that the order does not tell
    /// apart comes first is left open.
    pub open spec fn shows(self, order: Seq<usize>) -> bool {
        &&& only_passing(self.thumbnails, self.filter, order)
        &&& no_video_twice(order)
        &&& all_passing(self.thumbnails, self.filter, order)
        &&& in_order(
            self.thumbnails,
            self.kinds,
            order,
            if self.reverse {
                Order::Less
            } else {
                Order::Greater
            },
        )
    }
}

/// The movies page.
#[derive(Debug, Clone)]
pub struct Movies {
    /// The videos, each under the number of its id.
    thumbnails: HashMap<usize, Thumbnail>,
    /// Whether the videos are laid out as a grid.
    grid: bool,
    /// The video whose card the cursor touched last.
    focused: Option<VideoId>,
    sort: Sort,
    filter: Filter,
    /// The preview that is open.
    preview: Option<Preview>,
    /// The preview that was left by going back.
    preview_back: Option<Preview>,
}

impl Movies {
    /// The mathematical content of the page.
    pub closed spec fn model(&self) -> MoviesModel {
        MoviesModel {
            thumbnails: self.thumbnails@,
            grid: self.grid,
            focused: self.focused,
            kinds: self.sort.kinds@,
            reverse: self.sort.reverse,
            filter: self.filter,
            preview: self.preview,
            preview_back: self.preview_back,
        }
    }

    /// Every video stands under the number of its own id.
    pub open spec fn wf(&self) -> bool {
        self.model().wf()
    }

    /// A page without videos.
    pub fn new(sort: Sort, grid: bool, filter: Filter) -> (movies: Movies)
        ensures
            movies.wf(),
            movies.model() == (MoviesModel {
                thumbnails: Map::empty(),
                grid,
                focused: None,
                kinds: sort.kinds@,
                reverse: sort.reverse,
                filter,
                preview: None,
                preview_back: None,
            }),
    {
        Movies {
            thumbnails: HashMap::new(),
            focused: None,
            grid,
            sort,
            filter,
            preview: None,
            preview_back: None,
        }
    }

    /// The videos of the page, each under the number of its id.
    pub fn thumbnails(&self) -> (map: &HashMap<usize, Thumbnail>)
        ensures
            map@ == self.model().thumbnails,
    {
        &self.thumbnails
    }

    /// Whether the videos are laid out as a grid.
    pub fn grid(&self) -> (grid: bool)
        ensures
            grid == self.model().grid,
    {
        self.grid
    }

    /// The video whose card the cursor touched last.
    pub fn focused(&self) -> (focused: Option<VideoId>)
        ensures
            focused == self.model().focused,
    {
        self.focused
    }

    /// The order in which the videos are shown.
    pub fn sort(&self) -> (sort: &Sort)
        ensures
            sort.kinds@ == self.model().kinds,
            sort.reverse == self.model().reverse,
    {
        &self.sort
    }

    /// The filter that the shown videos pass.
    pub fn filter(&self) -> (filter: Filter)
        ensures
            filter == self.model().filter,
    {
        self.filter
    }

    /// The preview that is open.
    pub fn preview(&self) -> (preview: Option<Preview>)
        ensures
            preview == self.model().preview,
    {
        self.preview
    }

    /// The preview that was left by going back.
    pub fn preview_back(&self) -> (preview: Option<Preview>)
        ensures
            preview == self.model().preview_back,
    {
        self.preview_back
    }

    /// The video with `id`, if the page holds it.
    pub fn find(&self, id: VideoId) -> (found: Option<&Thumbnail>)
        ensures
            found.is_some() == self.model().holds(id),
            found matches Some(thumbnail) ==> *thumbnail == self.model().thumbnails[id@],
    {
        let key = id.index();
        self.thumbnails.get(&key)
    }

    /// Puts `thumbnail` under its id, in the place of the video that was
    /// there, if one was.
    pub fn insert(&mut self, thumbnail: Thumbnail)
        requires
            old(self).wf(),
        ensures
            final(self).wf(),
            final(self).model() == (MoviesModel {
                thumbnails: old(self).model().thumbnails.insert(thumbnail.video.id@, thumbnail),
                ..old(self).model()
            }),
    {
        let key = thumbnail.video.id.index();
        self.thumbnails.insert(key, thumbnail);
    }

    /// Handles what happened on the page, as [`MoviesModel::updated`]
    /// says.
    pub fn update(&mut self, message: MoviesMessage)
        requires
            old(self).wf(),
        ensures
            final(self).wf(),
            final(self).model() == old(self).model().updated(message),
    {
        match message {
            MoviesMessage::Nothing => {},
            MoviesMessage::Animate => {},
            MoviesMessage::Hovered(id, is_hovered) => {
                let key = id.index();
                if let Some(mut thumbnail) = self.thumbnails.remove(&key) {
                    thumbnail.zoom = is_hovered;
                    self.thumbnails.insert(key, thumbnail);
                    self.focused = Some(id);
                    assert(self.thumbnails@ =~= old(self).thumbnails@.insert(
                        id@,
                        Thumbnail { zoom: is_hovered, video: old(self).thumbnails@[id@].video },
                    ));
                } else {
                    assert(self.thumbnails@ =~= old(self).thumbnails@);
                }
            },
            MoviesMessage::Play(_id) => {},
            MoviesMessage::Details(id) => {
                self.preview = Some(Preview { id, view: View::Info });
                self.preview_back = None;
                self.focused = None;
            },
            MoviesMessage::AddCollection(_id) => {},
            MoviesMessage::Thumbnails(thumbnails) => {
                let mut batch = thumbnails;
                let ghost all = batch@;
                let ghost start = self.model();
                let ghost mut done: int = 0;
                assert(all.subrange(0, 0) =~= Seq::<Thumbnail>::empty());
                while batch.len() > 0
                    invariant
                        self.wf(),
                        done + batch@.len() == all.len(),
                        0 <= done,
                        batch@ == all.subrange(done, all.len() as int),
                        self.model() == (MoviesModel {
                            thumbnails: inserted_all(start.thumbnails, all.subrange(0, done)),
                            ..start
                        }),
                    decreases batch@.len(),
                {
                    let thumbnail = batch.remove(0);
                    proof {
                        let next = all.subrange(0, done + 1);
                        assert(next.drop_last() =~= all.subrange(0, done));
                        assert(next.last() == thumbnail);
                        assert(batch@ =~= all.subrange(done + 1, all.len() as int));
                    }
                    self.insert(thumbnail);
                    proof {
                        done = done + 1;
                    }
                }
                assert(all.subrange(0, done) =~= all);
            },
            MoviesMessage::View(view) => {
                if let Some(preview) = self.preview {
                    self.preview = Some(Preview { view, id: preview.id });
                }
            },
        }
    }

    /// Takes over a change of the toolbar.
    pub fn page_update(&mut self, update: PageUpdate)
        ensures
            final(self).model() == old(self).model().page_updated(update),
            old(self).wf() ==> final(self).wf(),
    {
        match update {
            PageUpdate::Sort(sort) => {
                self.sort = sort;
            },
            PageUpdate::Layout(kind) => {
                self.grid = matches!(kind, ViewType::Grid);
            },
            PageUpdate::Filters(filters) => {
                self.filter = filters;
            },
        }
    }

    /// What the page is called.
    pub fn name(&self) -> (name: &str)
        ensures
            name@ == self.model().name(),
    {
        match self.preview {
            Some(preview) => match self.find(preview.id) {
                Some(thumbnail) => thumbnail.video.name.as_str(),
                None => "Movies",
            },
            None => "Movies",
        }
    }

    /// Whether a preview is open, from which one can go back to the videos.
    pub fn can_back(&self) -> (can: bool)
        ensures
            can == self.model().preview.is_some(),
    {
        self.preview.is_some()
    }

    /// Whether a preview was left, to which one can go forward again.
    pub fn can_forward(&self) -> (can: bool)
        ensures
            can == self.model().preview_back.is_some(),
    {
        self.preview_back.is_some()
    }

    /// Whether the toolbar is shown: not beside a preview.
    pub fn show_tools(&self) -> (show: bool)
        ensures
            show == self.model().preview.is_none(),
    {
        self.preview.is_none()
    }

    /// What the page shows: the open preview, else the videos in the
    /// chosen layout.
    pub fn view(&self) -> (screen: Screen)
        ensures
            screen == self.model().screen(),
    {
        match self.preview {
            Some(preview) => Screen::Preview(preview),
            None => if self.grid {
                Screen::Grid
            } else {
                Screen::List
            },
        }
    }

    /// The video whose card may be moving: the one that the cursor touched
    /// last, where it is still there.
    pub fn animating(&self) -> (moving: Option<VideoId>)
        ensures
            moving == self.model().animating(),
    {
        match self.focused {
            Some(id) => if self.find(id).is_some() {
                Some(id)
            } else {
                None
            },
            None => None,
        }
    }

    /// The numbers of the ids of all videos, each once, in the order in
    /// which the map hands them out.
    fn keys(&self) -> (keys: Vec<usize>)
        ensures
            keys@.to_set() == self.thumbnails@.dom(),
            keys@.no_duplicates(),
    {
        let mut keys: Vec<usize> = Vec::new();
        let stored = self.thumbnails.keys();
        let ghost all = vstd::std_specs::iter::IteratorSpec::remaining(&stored);
        for key in it: stored
            invariant
                keys@.len() == it.index(),
                forall|j: int| 0 <= j < keys@.len() ==> keys@[j] == *it.seq()[j],
                it.seq() == all,
                all.unref().to_set() == self.thumbnails@.dom(),
                all.no_duplicates(),
        {
            keys.push(*key);
        }
        assert(keys@ =~= all.unref());
        keys
    }

    /// The videos as the page shows them, each by the number of its id:
    /// those that pass the filter, in the order of the toolbar.
    pub fn visible(&self) -> (order: Vec<usize>)
        ensures
            self.model().shows(order@),
    {
        let ghost map = self.thumbnails@;
        let ghost kinds = self.sort.kinds@;
        let keys = self.keys();
        let mut sorted: Vec<usize> = Vec::new();
        let mut n: usize = 0;
        while n < keys.len()
            invariant
                n <= keys@.len(),
                map == self.thumbnails@,
                kinds == self.sort.kinds@,
                keys@.to_set() == map.dom(),
                keys@.no_duplicates(),
                only_passing(map, self.filter, sorted@),
                no_video_twice(sorted@),
                forall|k: usize| sorted@.contains(k) ==> among_first(keys@, n as int, k),
                forall|j: int|
                    0 <= j < n && passes(map[#[trigger] keys@[j]].video, self.filter)
                        ==> sorted@.contains(keys@[j]),
                in_order(map, kinds, sorted@, Order::Greater),
            decreases keys@.len() - n,
        {
            let key = keys[n];
            let ghost before = sorted@;
            proof {
                assert(keys@.to_set().contains(key));
                if sorted@.contains(key) {
                    let j = choose|j: int| 0 <= j < n && keys@[j] == key;
                    assert(keys@[j] == keys@[n as int]);
                }
            }
            if let Some(thumbnail) = self.thumbnails.get(&key) {
                if filter(&thumbnail.video, self.filter) {
                    let at = self.place_for(key, &sorted);
                    proof {
                        lemma_insert_keeps_order(map, self.filter, kinds, sorted@, at as int, key);
                    }
                    sorted.insert(at, key);
                }
            }
            proof {
                assert forall|k: usize| sorted@.contains(k) implies among_first(
                    keys@,
                    n + 1,
                    k,
                ) by {
                    if before.contains(k) {
                        let j = choose|j: int| 0 <= j < n && keys@[j] == k;
                        assert(0 <= j < n + 1 && keys@[j] == k);
                    } else {
                        assert(keys@[n as int] == k);
                    }
                }
            }
            n = n + 1;
        }
        proof {
            assert forall|k: usize|
                map.contains_key(k) && passes((#[trigger] map[k]).video, self.filter)
                    implies sorted@.contains(k) by {
                assert(keys@.to_set().contains(k));
                let j = choose|j: int| 0 <= j < keys@.len() && keys@[j] == k;
                assert(passes(map[keys@[j]].video, self.filter));
            }
        }
        if !self.sort.reverse {
            return sorted;
        }
        let mut turned: Vec<usize> = Vec::new();
        let len = sorted.len();
        let mut i: usize = 0;
        while i < len
            invariant
                i <= len,
                len == sorted@.len(),
                turned@.len() == i,
                forall|j: int| 0 <= j < i ==> #[trigger] turned@[j] == sorted@[len - 1 - j],
            decreases len - i,
        {
            turned.push(sorted[len - 1 - i]);
            i = i + 1;
        }
        proof {
            lemma_turned_round(map, self.filter, kinds, sorted@, turned@);
        }
        turned
    }

    /// Where the video `key` belongs among the videos `sorted`: behind the
    /// last video that is no greater than it.
    fn place_for(&self, key: usize, sorted: &Vec<usize>) -> (at: usize)
        requires
            self.thumbnails@.contains_key(key),
            forall|i: int|
                0 <= i < sorted@.len() ==> self.thumbnails@.contains_key(#[trigger] sorted@[i]),
        ensures
            at <= sorted@.len(),
            forall|m: int|
                at <= m < sorted@.len() ==> video_order(
                    self.thumbnails@[key].video,
                    self.thumbnails@[#[trigger] sorted@[m]].video,
                    self.sort.kinds@,
                ) == Order::Less,
            at > 0 ==> video_order(
                self.thumbnails@[key].video,
                self.thumbnails@[sorted@[at - 1]].video,
                self.sort.kinds@,
            ) != Order::Less,
    {
        let mut at: usize = sorted.len();
        while at > 0
            invariant
                at <= sorted@.len(),
                self.thumbnails@.contains_key(key),
                forall|i: int|
                    0 <= i < sorted@.len() ==> self.thumbnails@.contains_key(
                        #[trigger] sorted@[i],
                    ),
                forall|m: int|
                    at <= m < sorted@.len() ==> video_order(
                        self.thumbnails@[key].video,
                        self.thumbnails@[#[trigger] sorted@[m]].video,
                        self.sort.kinds@,
                    ) == Order::Less,
            decreases at,
        {
            let before = sorted[at - 1];
            let less = match (self.thumbnails.get(&key), self.thumbnails.get(&before)) {
                (Some(new), Some(old)) => matches!(
                    sort(&new.video, &old.video, self.sort.kinds.as_slice()),
                    Order::Less
                ),
                _ => false,
            };
            if !less {
                return at;
            }
            at = at - 1;
        }
        at
    }

    /// Closes the open preview and remembers it. Says whether there was
    /// one.
    pub fn back(&mut self) -> (went: bool)
        ensures
            went == old(self).model().preview.is_some(),
            final(self).model() == (MoviesModel {
                preview: None,
                preview_back: if went {
                    old(self).model().preview
                } else {
                    old(self).model().preview_back
                },
                ..old(self).model()
            }),
    {
        match self.preview {
            Some(preview) => {
                self.preview = None;
                self.preview_back = Some(preview);
                true
            },
            None => false,
        }
    }

    /// Opens the remembered preview again. Says whether there was none.
    pub fn forward(&mut self) -> (stayed: bool)
        ensures
            stayed == old(self).model().preview_back.is_none(),
            final(self).model() == (MoviesModel {
                preview_back: None,
                preview: if stayed {
                    old(self).model().preview
                } else {
                    old(self).model().preview_back
                },
                ..old(self).model()
            }),
    {
        match self.preview_back {
            Some(preview) => {
                self.preview_back = None;
                self.preview = Some(preview);
                false
            },
            None => true,
        }
    }
}

} // verus!
