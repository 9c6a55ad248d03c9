//! The videos of the catalogue.

use vstd::prelude::*;
use crate::text::{decimal, decimal_string, push_decimal};

verus! {

/// The number by which a video is told apart from the others.
#[derive(Debug, Clone, Copy, PartialEq, Eq, Hash, Structural)]
pub struct VideoId(usize);

impl View for VideoId {
    type V = usize;

    closed spec fn view(&self) -> usize {
        self.0
    }
}

impl VideoId {
    pub fn new(id: usize) -> (video: VideoId)
        ensures
            video@ == id,
    {
        VideoId(id)
    }

    /// The number itself.
    pub fn index(&self) -> (id: usize)
        ensures
            id == self@,
    {
        self.0
    }

    /// Whether two ids are the same.
    pub fn same(&self, other: &VideoId) -> (same: bool)
        ensures
            same == (self@ == other@),
            same == (*self == *other),
    {
        self.0 == other.0
    }
}

/// What the catalogue knows of one video.
#[derive(Debug, Clone)]
pub struct Video {
    pub id: VideoId,
    pub name: String,
    /// The length in seconds.
    pub duration: u64,
    /// The rating in stars.
    pub rating: u8,
    /// How far the video has been watched, in hundredths of a percent.
    pub progress: u16,
    pub poster: Option<String>,
    /// The year of the release.
    pub release: u16,
    /// When the video was added, in seconds since the epoch.
    pub added: u64,
    /// When the video was watched last, in seconds since the epoch.
    pub recent: u64,
    pub comments: u32,
    pub watch_count: u32,
    pub synapsis: String,
    pub tags: Vec<String>,
    pub backdrop: Option<String>,
}

/// A length of time written out in two parts with a space in between: the
/// whole hours and the whole minutes beyond them, each as its number and
/// the unit that follows it, and each left out where the number is zero.
pub open spec fn duration_text(
    seconds: nat,
    hours_unit: spec_fn(nat) -> Seq<char>,
    minutes_unit: spec_fn(nat) -> Seq<char>,
) -> Seq<char> {
    let hours = seconds / 3600;
    let minutes = seconds % 3600 / 60;
    (if hours > 0 {
        decimal(hours) + hours_unit(hours)
    } else {
        Seq::<char>::empty()
    }) + seq![' '] + (if minutes > 0 {
        decimal(minutes) + minutes_unit(minutes)
    } else {
        Seq::<char>::empty()
    })
}

/// `singular` for one, and with an `s` behind it for more.
pub open spec fn counted(singular: Seq<char>, n: nat) -> Seq<char> {
    if n > 1 {
        singular.push('s')
    } else {
        singular
    }
}

impl Video {
    /// The length in words, as in `2 hours 1 min`.
    pub open spec fn spec_duration_full(self) -> Seq<char> {
        duration_text(
            self.duration as nat,
            |n: nat| counted(" hour"@, n),
            |n: nat| counted(" min"@, n),
        )
    }

    /// The length in letters, as in `2h 1m`.
    pub open spec fn spec_duration_short(self) -> Seq<char> {
        duration_text(self.duration as nat, |n: nat| "h"@, |n: nat| "m"@)
    }

    /// A first kind of sample video. `rand` is a random number, by which
    /// the length of the video varies.
    pub fn testing(id: usize, rand: u32) -> (video: Video)
        requires
            id * rand <= usize::MAX,
        ensures
            video.id@ == id,
            video.name@ == "Fantastic Beasts And Where To Find Them "@ + decimal(id as nat),
            video.duration == id * rand,
            video.rating == 3,
            video.progress == 3500,
            video.poster matches Some(path) && path@ == "assets/test.png"@,
            video.release == 2016,
            video.added == 1671316859,
            video.recent == 1766011259,
            video.comments == 69,
            video.watch_count == 57,
            video.synapsis@
                == "In 1926, Newt Scamander arrives at the Magical Congress of the United States of America with a magically expanded briefcase, which houses a number of dangerous creatures and their habitats. When the creatures escape from the briefcase, it sends the American wizarding authorities after Newt, and threatens to strain even further the state of magical and non-magical relations."@,
            video.tags@.len() == 3,
            video.tags@[0]@ == "tag-1"@,
            video.tags@[1]@ == "tag-2"@,
            video.tags@[2]@ == "tag-team"@,
            video.backdrop matches Some(path) && path@ == "assets/player1.jpg"@,
    {
        let duration = (id * rand as usize) as u64;
        let mut name = String::from_str("Fantastic Beasts And Where To Find Them ");
        push_decimal(&mut name, id as u64);
        let mut tags: Vec<String> = Vec::new();
        tags.push(String::from_str("tag-1"));
        tags.push(String::from_str("tag-2"));
        tags.push(String::from_str("tag-team"));
        Video {
            id: VideoId(id),
            name,
            duration,
            rating: 3,
            progress: 3500,
            poster: Some(String::from_str("assets/test.png")),
            release: 2016,
            added: 1671316859,
            recent: 1766011259,
            comments: 69,
            watch_count: 57,
            synapsis: String::from_str(
                "In 1926, Newt Scamander arrives at the Magical Congress of the United States of America with a magically expanded briefcase, which houses a number of dangerous creatures and their habitats. When the creatures escape from the briefcase, it sends the American wizarding authorities after Newt, and threatens to strain even further the state of magical and non-magical relations.",
            ),
            tags,
            backdrop: Some(String::from_str("assets/player1.jpg")),
        }
    }

    /// A second kind of sample video. `rand` is a random number, by which
    /// the length of the video varies.
    pub fn testing2(id: usize, rand: u32) -> (video: Video)
        requires
            (id / 2) * rand <= usize::MAX,
        ensures
            video.id@ == id,
            video.name@ == "Ready Player One "@ + decimal(id as nat),
            video.duration == (id / 2) * rand,
            video.rating == 1,
            video.progress == 9500,
            video.poster matches Some(path) && path@ == "assets/test.png"@,
            video.release == 2016,
            video.added == 1671316859,
            video.recent == 1766011259,
            video.comments == 420,
            video.watch_count == 1,
            video.synapsis@
                == "When the creator of a popular video game system dies, a virtual contest is created to compete for his fortune."@,
            video.tags@.len() == 3,
            video.tags@[0]@ == "Adventure"@,
            video.tags@[1]@ == "Action"@,
            video.tags@[2]@ == "Science Fiction"@,
            video.backdrop matches Some(path) && path@ == "assets/test.jpg"@,
    {
        let duration = ((id / 2) * rand as usize) as u64;
        let mut name = String::from_str("Ready Player One ");
        push_decimal(&mut name, id as u64);
        let mut tags: Vec<String> = Vec::new();
        tags.push(String::from_str("Adventure"));
        tags.push(String::from_str("Action"));
        tags.push(String::from_str("Science Fiction"));
        Video {
            id: VideoId(id),
            name,
            duration,
            rating: 1,
            progress: 9500,
            poster: Some(String::from_str("assets/test.png")),
            release: 2016,
            added: 1671316859,
            recent: 1766011259,
            comments: 420,
            watch_count: 1,
            synapsis: String::from_str(
                "When the creator of a popular video game system dies, a virtual contest is created to compete for his fortune.",
            ),
            tags,
            backdrop: Some(String::from_str("assets/test.jpg")),
        }
    }

    pub fn added_short(&self) -> (text: String)
        ensures
            text@ == decimal(self.added as nat),
    {
        decimal_string(self.added)
    }

    pub fn added_full(&self) -> (text: String)
        ensures
            text@ == decimal(self.added as nat),
    {
        decimal_string(self.added)
    }

    /// Just the year
    pub fn release_short(&self) -> (text: String)
        ensures
            text@ == decimal(self.release as nat),
    {
        decimal_string(self.release as u64)
    }

    pub fn release_full(&self) -> (text: String)
        ensures
            text@ == decimal(self.release as nat),
    {
        decimal_string(self.release as u64)
    }

    pub fn duration_full(&self) -> (text: String)
        ensures
            text@ == self.spec_duration_full(),
    {
        let hrs = self.duration / 3600;
        let mins = (self.duration % 3600) / 60;
        let mut text = String::new();
        if hrs > 0 {
            push_decimal(&mut text, hrs);
            text.append(" hour");
            if hrs > 1 {
                text.append("s");
            }
        }
        text.append(" ");
        if mins > 0 {
            push_decimal(&mut text, mins);
            text.append(" min");
            if mins > 1 {
                text.append("s");
            }
        }
        proof {
            reveal_strlit("s");
            reveal_strlit(" ");
            assert("s"@ =~= seq!['s']);
            assert(" "@ =~= seq![' ']);
            assert(text@ =~= self.spec_duration_full());
        }
        text
    }

    pub fn duration_short(&self) -> (text: String)
        ensures
            text@ == self.spec_duration_short(),
    {
        let hrs = self.duration / 3600;
        let mins = (self.duration % 3600) / 60;
        let mut text = String::new();
        if hrs > 0 {
            push_decimal(&mut text, hrs);
            text.append("h");
        }
        text.append(" ");
        if mins > 0 {
            push_decimal(&mut text, mins);
            text.append("m");
        }
        proof {
            reveal_strlit(" ");
            assert(" "@ =~= seq![' ']);
            assert(text@ =~= self.spec_duration_short());
        }
        text
    }

    pub fn recent_short(&self) -> (text: String)
        ensures
            text@ == decimal(self.recent as nat),
    {
        decimal_string(self.recent)
    }

    pub fn recent_long(&self) -> (text: String)
        ensures
            text@ == decimal(self.recent as nat),
    {
        decimal_string(self.recent)
    }
}

} // verus!
