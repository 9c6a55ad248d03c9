//! A plain player: one video, a path field, and a scrubber.
//!
//! As with the player screen, the playback is the caller's: it tells the
//! application how the video stands and carries out what the application
//! asks for.

use vstd::prelude::*;

verus! {

/// What can happen in the plain player.
#[derive(Clone, Debug)]
pub enum Message {
    TogglePause,
    /// The text of the path field changed.
    Input(String),
    /// The path field was submitted.
    InputSubmit,
    ToggleLoop,
    /// The scrubber was moved to a position, in milliseconds.
    Seek(u64),
    SeekRelease,
    EndOfStream,
    NewFrame,
}

/// How the video stands, where one is loaded.
#[derive(Clone, Copy, Debug, PartialEq, Eq, Structural)]
pub struct Playback {
    pub position: u64,
    pub paused: bool,
    pub looping: bool,
}

/// What the caller has to do.
#[derive(Clone, Copy, Debug, PartialEq, Eq, Structural)]
pub enum Request {
    Nothing,
    /// Load the video at the path of the application, paused, together
    /// with its previews.
    Load,
    SetPaused(bool),
    SetLooping(bool),
    /// Seek to the position and resume.
    SeekAndPlay(u64),
}

/// The plain player.
#[derive(Debug)]
pub struct App {
    /// The path of the video.
    pub path: String,
    /// The text of the path field while it is edited.
    pub input: Option<String>,
    /// The position of the scrubber, in milliseconds.
    pub position: u64,
    pub dragging: bool,
}

impl Default for App {
    fn default() -> (app: App)
        ensures
            app.path@ == ".media/test1.mp4"@,
            app.input.is_none(),
            app.position == 0,
            !app.dragging,
    {
        App {
            path: ".media/test1.mp4".to_owned(),
            input: None,
            position: 0,
            dragging: false,
        }
    }
}

impl App {
    /// How `post` and `request` come from `pre` by `message`, with `video`
    /// telling how the video stands, if one is loaded.
    ///
    /// The path field is edited in `input` and becomes the path when it is
    /// submitted; the video is then loaded and the scrubber starts anew.
    /// Without a video the playback controls do nothing. Moving the
    /// scrubber begins a drag and pauses; releasing it seeks and resumes;
    /// a new frame moves the scrubber along unless a drag is under way.
    pub open spec fn updated(
        pre: App,
        post: App,
        message: Message,
        video: Option<Playback>,
        request: Request,
    ) -> bool {
        match message {
            Message::Input(text) => {
                &&& post.input == Some(text)
                &&& post.path == pre.path
                &&& post.position == pre.position
                &&& post.dragging == pre.dragging
                &&& request == Request::Nothing
            },
            Message::InputSubmit => match pre.input {
                Some(text) => {
                    &&& post.input.is_none()
                    &&& post.path == text
                    &&& post.position == 0
                    &&& post.dragging == pre.dragging
                    &&& request == Request::Load
                },
                None => post == pre && request == Request::Nothing,
            },
            Message::TogglePause => {
                &&& post == pre
                &&& request == match video {
                    Some(playback) => Request::SetPaused(!playback.paused),
                    None => Request::Nothing,
                }
            },
            Message::ToggleLoop => {
                &&& post == pre
                &&& request == match video {
                    Some(playback) => Request::SetLooping(!playback.looping),
                    None => Request::Nothing,
                }
            },
            Message::Seek(position) => match video {
                Some(_) => {
                    &&& post.dragging
                    &&& post.position == position
                    &&& post.path == pre.path
                    &&& post.input == pre.input
                    &&& request == Request::SetPaused(true)
                },
                None => post == pre && request == Request::Nothing,
            },
            Message::SeekRelease => match video {
                Some(_) => {
                    &&& !post.dragging
                    &&& post.position == pre.position
                    &&& post.path == pre.path
                    &&& post.input == pre.input
                    &&& request == Request::SeekAndPlay(pre.position)
                },
                None => post == pre && request == Request::Nothing,
            },
            Message::EndOfStream => post == pre && request == Request::Nothing,
            Message::NewFrame => {
                &&& request == Request::Nothing
                &&& post.dragging == pre.dragging
                &&& post.path == pre.path
                &&& post.input == pre.input
                &&& post.position == match video {
                    Some(playback) if !pre.dragging => playback.position,
                    _ => pre.position,
                }
            },
        }
    }

    /// Handles what happened, as [`App::updated`] says.
    pub fn update(&mut self, message: Message, video: Option<Playback>) -> (request: Request)
        ensures
            App::updated(*old(self), *final(self), message, video, request),
    {
        match message {
            Message::Input(input) => {
                self.input = Some(input);
                Request::Nothing
            },
            Message::InputSubmit => {
                if self.input.is_none() {
                    return Request::Nothing;
                }
                let mut input: Option<String> = None;
                std::mem::swap(&mut input, &mut self.input);
                self.path = input.unwrap();
                self.position = 0;
                Request::Load
            },
            Message::TogglePause => match video {
                Some(playback) => Request::SetPaused(!playback.paused),
                None => Request::Nothing,
            },
            Message::ToggleLoop => match video {
                Some(playback) => Request::SetLooping(!playback.looping),
                None => Request::Nothing,
            },
            Message::Seek(position) => {
                if video.is_none() {
                    return Request::Nothing;
                }
                self.dragging = true;
                self.position = position;
                Request::SetPaused(true)
            },
            Message::SeekRelease => {
                if video.is_none() {
                    return Request::Nothing;
                }
                self.dragging = false;
                Request::SeekAndPlay(self.position)
            },
            Message::EndOfStream => Request::Nothing,
            Message::NewFrame => {
                if let Some(playback) = video {
                    if !self.dragging {
                        self.position = playback.position;
                    }
                }
                Request::Nothing
            },
        }
    }

    /// The path as the path field shows it: the text that is being edited,
    /// else the path of the video.
    pub fn view(&self) -> (shown: &str)
        ensures
            shown@ == match self.input {
                Some(text) => text@,
                None => self.path@,
            },
    {
        match &self.input {
            Some(input) => input.as_str(),
            None => self.path.as_str(),
        }
    }
}

} // verus!
