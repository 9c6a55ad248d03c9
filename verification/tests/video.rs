use kino::video::{Video, VideoId};

fn of_length(duration: u64) -> Video {
    let mut video = Video::testing(1, 0);
    video.duration = duration;
    video
}

#[test]
fn ids_are_compared_by_their_number() {
    let a = VideoId::new(3);
    assert_eq!(a.index(), 3);
    assert!(a.same(&VideoId::new(3)));
    assert!(!a.same(&VideoId::new(4)));
    assert_eq!(a, VideoId::new(3));
    assert_ne!(a, VideoId::new(4));
}

#[test]
fn first_sample_video() {
    let video = Video::testing(4, 1000);
    assert_eq!(video.id, VideoId::new(4));
    assert_eq!(video.name, "Fantastic Beasts And Where To Find Them 4");
    assert_eq!(video.duration, 4000);
    assert_eq!(video.rating, 3);
    assert_eq!(video.progress, 3500);
    assert_eq!(video.poster.as_deref(), Some("assets/test.png"));
    assert_eq!(video.release, 2016);
    assert_eq!(video.added, 1671316859);
    assert_eq!(video.recent, 1766011259);
    assert_eq!(video.comments, 69);
    assert_eq!(video.watch_count, 57);
    assert!(video.synapsis.starts_with("In 1926, Newt Scamander"));
    assert!(video.synapsis.ends_with("magical and non-magical relations."));
    assert_eq!(video.tags, ["tag-1", "tag-2", "tag-team"]);
    assert_eq!(video.backdrop.as_deref(), Some("assets/player1.jpg"));
    assert_eq!(Video::testing(0, u32::MAX).duration, 0);
}

#[test]
fn second_sample_video() {
    let video = Video::testing2(7, 1000);
    assert_eq!(video.id, VideoId::new(7));
    assert_eq!(video.name, "Ready Player One 7");
    assert_eq!(video.duration, 3000);
    assert_eq!(video.rating, 1);
    assert_eq!(video.progress, 9500);
    assert_eq!(video.poster.as_deref(), Some("assets/test.png"));
    assert_eq!(video.release, 2016);
    assert_eq!(video.comments, 420);
    assert_eq!(video.watch_count, 1);
    assert!(video.synapsis.starts_with("When the creator"));
    assert_eq!(video.tags, ["Adventure", "Action", "Science Fiction"]);
    assert_eq!(video.backdrop.as_deref(), Some("assets/test.jpg"));
}

#[test]
fn dates_are_written_as_numbers() {
    let video = Video::testing(1, 1);
    assert_eq!(video.added_short(), "1671316859");
    assert_eq!(video.added_full(), "1671316859");
    assert_eq!(video.release_short(), "2016");
    assert_eq!(video.release_full(), "2016");
    assert_eq!(video.recent_short(), "1766011259");
    assert_eq!(video.recent_long(), "1766011259");
}

#[test]
fn duration_in_words() {
    assert_eq!(of_length(0).duration_full(), " ");
    assert_eq!(of_length(59).duration_full(), " ");
    assert_eq!(of_length(60).duration_full(), " 1 min");
    assert_eq!(of_length(120).duration_full(), " 2 mins");
    assert_eq!(of_length(3600).duration_full(), "1 hour ");
    assert_eq!(of_length(3660).duration_full(), "1 hour 1 min");
    assert_eq!(of_length(7325).duration_full(), "2 hours 2 mins");
    assert_eq!(of_length(360_000).duration_full(), "100 hours ");
}

#[test]
fn duration_in_letters() {
    assert_eq!(of_length(0).duration_short(), " ");
    assert_eq!(of_length(60).duration_short(), " 1m");
    assert_eq!(of_length(3600).duration_short(), "1h ");
    assert_eq!(of_length(7325).duration_short(), "2h 2m");
    assert_eq!(of_length(u64::MAX).duration_short(), "5124095576030431h 0m".replace(" 0m", " "));
}
