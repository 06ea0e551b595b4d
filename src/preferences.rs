use vstd::prelude::*;

verus! {

/// What a download fetches: the audio track alone, or video with audio.
#[derive(Debug, Clone, Copy, PartialEq, Eq, Structural)]
pub enum DownloadType {
    AudioOnly,
    VideoAudio,
}

/// The label shown for a download type.
pub open spec fn download_type_label(t: DownloadType) -> Seq<char> {
    match t {
        DownloadType::AudioOnly => "Audio Only"@,
        DownloadType::VideoAudio => "Video + Audio"@,
    }
}

impl Default for DownloadType {
    fn default() -> (r: Self)
        ensures
            r == DownloadType::AudioOnly,
    {
        DownloadType::AudioOnly
    }
}

impl DownloadType {
    /// Human-readable label of this download type.
    pub fn to_string(&self) -> (r: String)
        ensures
            r@ == download_type_label(*self),
    {
        match self {
            DownloadType::AudioOnly => "Audio Only".to_owned(),
            DownloadType::VideoAudio => "Video + Audio".to_owned(),
        }
    }
}

/// What the application keeps across restarts: the last URL text and the
/// chosen download type.
#[derive(Debug, Clone, PartialEq, Eq)]
pub struct Preferences {
    pub url: String,
    pub download_type: DownloadType,
}

impl Default for Preferences {
    /// The value used on first start, and for every field that a stored blob
    /// lacks: an empty URL and `AudioOnly`.
    fn default() -> (r: Self)
        ensures
            r.url@ == Seq::<char>::empty(),
            r.download_type == DownloadType::AudioOnly,
    {
        Preferences { url: String::new(), download_type: DownloadType::AudioOnly }
    }
}

} // verus!
