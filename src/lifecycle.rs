use vstd::prelude::*;

use crate::preferences::DownloadType;

verus! {

/// Why a download attempt did not complete, or why a chunk gave no progress.
#[derive(Debug, Clone, Copy, PartialEq, Eq, Structural)]
pub enum FetchError {
    /// The URL text names no video.
    IdentifierResolutionFailure,
    /// No stream matches the requested download type.
    StreamSelectionFailure,
    /// The total size is not known at a chunk boundary.
    ProgressUnavailable,
    /// The network or the file system failed during the transfer.
    TransferFailure,
}

/// The lifecycle of the download shown to the user.
#[derive(Debug, Clone, Copy, PartialEq, Eq, Structural)]
pub enum AppState {
    /// No attempt in progress; inputs and the download action are enabled.
    Initial,
    /// An attempt is running; inputs and the download action are disabled.
    Downloading,
    /// The last attempt completed.
    Done,
    /// The last attempt failed for the given reason.
    Failed(FetchError),
}

impl Default for AppState {
    fn default() -> (r: Self)
        ensures
            r == AppState::Initial,
    {
        AppState::Initial
    }
}

/// The video id that `raw` names, if any.
pub uninterp spec fn video_id_of(raw: Seq<char>) -> Option<Seq<char>>;

/// Relies on rustube::Id::from_raw: finds the video id in a watch, shorts,
/// embed or share URL, or in a bare id. The result depends on the text alone.
#[verifier::external_body]
fn parse_video_id(raw: &str) -> (r: Option<String>)
    ensures
        match r {
            Some(id) => video_id_of(raw@) == Some(id@),
            None => video_id_of(raw@) is None,
        },
{
    match rustube::Id::from_raw(raw) {
        Ok(id) => Some(id.as_str().to_owned()),
        Err(_) => None,
    }
}

/// One download attempt, built when the user triggers the download and handed
/// once to the fetch task.
#[derive(Debug, Clone, PartialEq, Eq)]
pub struct DownloadRequest {
    /// The video id resolved from the URL text.
    pub id: String,
    /// Where the media is written.
    pub destination: String,
    pub mode: DownloadType,
    /// The attempt that this request starts.
    pub attempt: u64,
}

/// The attempt number that follows `a`.
pub open spec fn next_attempt(a: u64) -> u64 {
    if a == u64::MAX {
        0
    } else {
        (a + 1) as u64
    }
}

/// The download state, with the number of the latest attempt.
#[derive(Debug, Clone, Copy, PartialEq, Eq, Structural)]
pub struct Lifecycle {
    pub state: AppState,
    pub attempt: u64,
}

impl Lifecycle {
    pub open spec fn downloading(self) -> bool {
        self.state == AppState::Downloading
    }

    /// The lifecycle after the URL text was edited.
    pub open spec fn edited(self) -> Lifecycle {
        if self.downloading() {
            self
        } else {
            Lifecycle { state: AppState::Initial, attempt: self.attempt }
        }
    }

    /// The lifecycle after the download was triggered with the resolved `id`
    /// and whether a destination was chosen.
    pub open spec fn triggered(self, id: Option<Seq<char>>, has_destination: bool) -> Lifecycle {
        if self.downloading() || !has_destination {
            self
        } else if id is None {
            Lifecycle { state: AppState::Failed(FetchError::IdentifierResolutionFailure), attempt: self.attempt }
        } else {
            Lifecycle { state: AppState::Downloading, attempt: next_attempt(self.attempt) }
        }
    }

    /// The lifecycle after the fetch task of `attempt` ended with `outcome`.
    pub open spec fn finished(self, attempt: u64, outcome: Result<(), FetchError>) -> Lifecycle {
        if self.downloading() && attempt == self.attempt {
            Lifecycle {
                state: match outcome {
                    Ok(()) => AppState::Done,
                    Err(e) => AppState::Failed(e),
                },
                attempt,
            }
        } else {
            self
        }
    }

    /// The state on startup: `Initial`, before any attempt.
    pub fn new() -> (r: Lifecycle)
        ensures
            r == (Lifecycle { state: AppState::Initial, attempt: 0 }),
    {
        Lifecycle { state: AppState::Initial, attempt: 0 }
    }

    /// The state shown.
    pub fn state(&self) -> (r: AppState)
        ensures
            r == self.state,
    {
        self.state
    }

    /// Whether the URL input and the download action are enabled: they are,
    /// except while downloading.
    pub fn controls_enabled(&self) -> (r: bool)
        ensures
            r == !self.downloading(),
    {
        !matches!(self.state, AppState::Downloading)
    }

    /// The user edited the URL text: outside a download this returns to
    /// `Initial`, clearing a `Done` or `Failed` display. No attempt starts and
    /// the attempt number stays.
    pub fn edit_url(&mut self)
        ensures
            *final(self) == old(self).edited(),
            final(self).attempt == old(self).attempt,
            old(self).state == AppState::Done ==> final(self).state == AppState::Initial,
    {
        if !matches!(self.state, AppState::Downloading) {
            self.state = AppState::Initial;
        }
    }

    /// The user triggered the download of the URL text `url` into `destination`
    /// (`None` when the save dialog was dismissed). See [`Self::start_with_id`].
    pub fn start(&mut self, url: &str, destination: Option<String>, mode: DownloadType) -> (r: Option<DownloadRequest>)
        ensures
            *final(self) == old(self).triggered(video_id_of(url@), destination is Some),
            r is Some <==> (!old(self).downloading() && destination is Some && video_id_of(url@) is Some),
            r matches Some(req) ==> {
                &&& Some(req.id@) == video_id_of(url@)
                &&& Some(req.destination) == destination
                &&& req.mode == mode
                &&& req.attempt == final(self).attempt
            },
    {
        let id = parse_video_id(url);
        self.start_with_id(id, destination, mode)
    }

    /// The user triggered the download of the video `id` (`None` when the URL
    /// text names none) into `destination` (`None` when no destination was
    /// chosen). While downloading, or without a destination, nothing changes and
    /// no attempt starts. Without an id the state becomes
    /// `Failed(IdentifierResolutionFailure)`. Otherwise a new attempt starts in
    /// `Downloading`, and its request is returned.
    pub fn start_with_id(&mut self, id: Option<String>, destination: Option<String>, mode: DownloadType) -> (r: Option<DownloadRequest>)
        ensures
            *final(self) == old(self).triggered(
                match id {
                    Some(s) => Some(s@),
                    None => None,
                },
                destination is Some,
            ),
            r is Some <==> (!old(self).downloading() && destination is Some && id is Some),
            r matches Some(req) ==> {
                &&& Some(req.id) == id
                &&& Some(req.destination) == destination
                &&& req.mode == mode
                &&& req.attempt == final(self).attempt
            },
    {
        if matches!(self.state, AppState::Downloading) {
            return None;
        }
        match destination {
            None => None,
            Some(path) => match id {
                None => {
                    self.state = AppState::Failed(FetchError::IdentifierResolutionFailure);
                    None
                },
                Some(video) => {
                    let attempt: u64 = if self.attempt == u64::MAX {
                        0
                    } else {
                        self.attempt + 1
                    };
                    self.state = AppState::Downloading;
                    self.attempt = attempt;
                    Some(DownloadRequest { id: video, destination: path, mode, attempt })
                },
            },
        }
    }

    /// The fetch task of `attempt` ended with `outcome`. If that is the running
    /// attempt, the state becomes `Done` on success and `Failed` with the error
    /// otherwise; a report of any other attempt changes nothing.
    pub fn finish(&mut self, attempt: u64, outcome: Result<(), FetchError>)
        ensures
            *final(self) == old(self).finished(attempt, outcome),
    {
        if matches!(self.state, AppState::Downloading) && attempt == self.attempt {
            self.state = match outcome {
                Ok(()) => AppState::Done,
                Err(e) => AppState::Failed(e),
            };
        }
    }
}

/// Triggering the download while downloading changes nothing, whatever the
/// id and destination; so once an attempt has started, triggering again, any
/// number of times, leaves the lifecycle as the first trigger left it.
pub proof fn lemma_trigger_while_downloading_is_noop(
    l: Lifecycle,
    id: Option<Seq<char>>,
    has_destination: bool,
    id2: Option<Seq<char>>,
    has_destination2: bool,
)
    ensures
        l.downloading() ==> l.triggered(id, has_destination) == l,
        l.triggered(id, has_destination).downloading() ==> l.triggered(id, has_destination).triggered(id2, has_destination2)
            == l.triggered(id, has_destination),
{
}

/// Editing the URL text after a completed download returns to `Initial`
/// with the same attempt number, so no attempt is started or restarted.
pub proof fn lemma_edit_after_done(l: Lifecycle)
    requires
        l.state == AppState::Done,
    ensures
        l.edited() == (Lifecycle { state: AppState::Initial, attempt: l.attempt }),
        !l.edited().downloading(),
{
}

} // verus!
