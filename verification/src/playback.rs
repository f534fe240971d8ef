//! From the provider's playback report to a display-ready snapshot.

use vstd::prelude::*;
use vstd::string::*;

verus! {

/// How the player repeats.
#[derive(Clone, Copy, PartialEq, Eq, Debug, Structural)]
pub enum RepeatMode {
    /// Nothing is repeated.
    Off,
    /// The current track is repeated.
    Track,
    /// The current album or playlist is repeated.
    Context,
}

/// A playable item as the provider reports it. All spans are in whole seconds
/// and `images` holds the artwork addresses in the provider's order.
#[derive(Clone, Debug, PartialEq, Eq)]
pub enum RawItem {
    /// A music track with its credited artists.
    Track { name: String, artists: Vec<String>, duration_secs: u64, images: Vec<String> },
    /// An episode of a show.
    Episode { name: String, show: String, duration_secs: u64, images: Vec<String> },
}

/// A [`RawItem`] as a mathematical value.
pub enum RawItemView {
    Track { name: Seq<char>, artists: Seq<Seq<char>>, duration_secs: u64, images: Seq<Seq<char>> },
    Episode { name: Seq<char>, show: Seq<char>, duration_secs: u64, images: Seq<Seq<char>> },
}

impl View for RawItem {
    type V = RawItemView;

    open spec fn view(&self) -> RawItemView {
        match *self {
            RawItem::Track { name, artists, duration_secs, images } => RawItemView::Track {
                name: name@,
                artists: artists.deep_view(),
                duration_secs,
                images: images.deep_view(),
            },
            RawItem::Episode { name, show, duration_secs, images } => RawItemView::Episode {
                name: name@,
                show: show@,
                duration_secs,
                images: images.deep_view(),
            },
        }
    }
}

/// The one shape in which every playable item is shown.
#[derive(Clone, Debug, PartialEq, Eq)]
pub struct NormalizedPlaybackItem {
    /// The title of the track or episode.
    pub name: String,
    /// Who is credited, in the provider's order.
    pub artists: Vec<String>,
    /// The full length in seconds.
    pub duration_secs: u64,
    /// Where the artwork is, if the item has any.
    pub artwork_url: Option<String>,
}

/// A [`NormalizedPlaybackItem`] as a mathematical value.
pub struct ItemView {
    pub name: Seq<char>,
    pub artists: Seq<Seq<char>>,
    pub duration_secs: u64,
    pub artwork_url: Option<Seq<char>>,
}

impl View for NormalizedPlaybackItem {
    type V = ItemView;

    open spec fn view(&self) -> ItemView {
        ItemView {
            name: self.name@,
            artists: self.artists.deep_view(),
            duration_secs: self.duration_secs,
            artwork_url: self.artwork_url.deep_view(),
        }
    }
}

/// The provider's report of what the player is doing.
#[derive(Clone, Debug, PartialEq, Eq)]
pub struct RawPlayback {
    /// What is playing; `None` where the slot holds nothing concrete, such as
    /// an advertisement.
    pub item: Option<RawItem>,
    /// How far into the item the player is, in seconds, where it is known.
    pub progress_secs: Option<u64>,
    /// Whether shuffle is on.
    pub shuffle: bool,
    /// How the player repeats.
    pub repeat: RepeatMode,
}

/// A [`RawPlayback`] as a mathematical value.
pub struct RawPlaybackView {
    pub item: Option<RawItemView>,
    pub progress_secs: Option<u64>,
    pub shuffle: bool,
    pub repeat: RepeatMode,
}

impl View for RawPlayback {
    type V = RawPlaybackView;

    open spec fn view(&self) -> RawPlaybackView {
        RawPlaybackView {
            item: match self.item {
                Some(item) => Some(item@),
                None => None,
            },
            progress_secs: self.progress_secs,
            shuffle: self.shuffle,
            repeat: self.repeat,
        }
    }
}

/// One moment of playback, ready to be shown.
#[derive(Clone, Debug, PartialEq, Eq)]
pub struct PlaybackSnapshot {
    /// What is playing.
    pub item: NormalizedPlaybackItem,
    /// How far into the item the player is, in seconds.
    pub elapsed_secs: u64,
    /// Whether shuffle is on.
    pub shuffle: bool,
    /// How the player repeats.
    pub repeat: RepeatMode,
}

/// A [`PlaybackSnapshot`] as a mathematical value.
pub struct SnapshotView {
    pub item: ItemView,
    pub elapsed_secs: u64,
    pub shuffle: bool,
    pub repeat: RepeatMode,
}

impl View for PlaybackSnapshot {
    type V = SnapshotView;

    open spec fn view(&self) -> SnapshotView {
        SnapshotView {
            item: self.item@,
            elapsed_secs: self.elapsed_secs,
            shuffle: self.shuffle,
            repeat: self.repeat,
        }
    }
}

/// The playback query failed at the network or at the provider.
#[derive(Clone, Debug, PartialEq, Eq)]
pub struct QueryError {
    /// What the client reported.
    pub reason: String,
}

/// The first of `images`, if there is one.
pub open spec fn first_image(images: Seq<Seq<char>>) -> Option<Seq<char>> {
    if images.len() > 0 {
        Some(images[0])
    } else {
        None
    }
}

/// The display shape of a raw item.
///
/// A track keeps its credited artists. An episode gets exactly one artist, the
/// name of its show. Either way the artwork is the first image.
pub open spec fn normalized(item: RawItemView) -> ItemView {
    match item {
        RawItemView::Track { name, artists, duration_secs, images } => ItemView {
            name,
            artists,
            duration_secs,
            artwork_url: first_image(images),
        },
        RawItemView::Episode { name, show, duration_secs, images } => ItemView {
            name,
            artists: seq![show],
            duration_secs,
            artwork_url: first_image(images),
        },
    }
}

/// The snapshot that a report gives. There is none when the report names no
/// item, and none when it does not say how far the player is.
pub open spec fn snapshot_of(raw: RawPlaybackView) -> Option<SnapshotView> {
    match (raw.item, raw.progress_secs) {
        (Some(item), Some(elapsed)) => Some(
            SnapshotView {
                item: normalized(item),
                elapsed_secs: elapsed,
                shuffle: raw.shuffle,
                repeat: raw.repeat,
            },
        ),
        _ => None,
    }
}

/// The snapshot, if any, that the provider's answer gives, for an answer that
/// is not a failure.
pub open spec fn fetched(answer: Option<RawPlayback>) -> Option<SnapshotView> {
    match answer {
        Some(raw) => snapshot_of(raw@),
        None => None,
    }
}

/// The whole seconds of a reported span; a span reported below zero counts
/// as none.
pub open spec fn span_of(reported: i64) -> u64 {
    if reported < 0 {
        0
    } else {
        reported as u64
    }
}

/// Brings a reported number of seconds into the range of a span.
pub fn span_secs(reported: i64) -> (secs: u64)
    ensures
        secs == span_of(reported),
        reported >= 0 ==> secs == reported,
{
    if reported < 0 {
        0
    } else {
        reported as u64
    }
}

/// Picks the artwork: the first image, or none.
fn pick_artwork(images: &Vec<String>) -> (url: Option<String>)
    ensures
        url.deep_view() == first_image(images.deep_view()),
{
    if images.len() > 0 {
        Some(images[0].clone())
    } else {
        None
    }
}

/// Brings a raw item into the one display shape.
pub fn normalize(item: RawItem) -> (out: NormalizedPlaybackItem)
    ensures
        out@ == normalized(item@),
{
    match item {
        RawItem::Track { name, artists, duration_secs, images } => {
            let artwork_url = pick_artwork(&images);
            NormalizedPlaybackItem { name, artists, duration_secs, artwork_url }
        },
        RawItem::Episode { name, show, duration_secs, images } => {
            let artwork_url = pick_artwork(&images);
            let ghost shown = show@;
            let mut artists: Vec<String> = Vec::new();
            artists.push(show);
            proof {
                assert(artists.deep_view() =~= seq![shown]);
            }
            NormalizedPlaybackItem { name, artists, duration_secs, artwork_url }
        },
    }
}

/// Builds the snapshot of a report.
///
/// Elapsed time, shuffle and repeat are taken over as they are; the item is
/// normalized. The result is `None` exactly when the report names no item or
/// gives no progress.
pub fn snapshot(raw: RawPlayback) -> (out: Option<PlaybackSnapshot>)
    ensures
        match out {
            Some(s) => snapshot_of(raw@) == Some(s@),
            None => snapshot_of(raw@) is None,
        },
{
    let RawPlayback { item, progress_secs, shuffle, repeat } = raw;
    match item {
        Some(item) => match progress_secs {
            Some(elapsed_secs) => Some(
                PlaybackSnapshot { item: normalize(item), elapsed_secs, shuffle, repeat },
            ),
            None => None,
        },
        None => None,
    }
}

/// Turns the provider's answer into the result of the playback query.
///
/// A failure is passed on once, with its reason, and nothing is tried again.
/// An answer without active playback, without an item or without progress
/// gives `Ok(None)`. Every other answer gives its snapshot.
pub fn fetch(answer: Result<Option<RawPlayback>, String>) -> (out: Result<
    Option<PlaybackSnapshot>,
    QueryError,
>)
    ensures
        match answer {
            Ok(report) => match out {
                Ok(Some(s)) => fetched(report) == Some(s@),
                Ok(None) => fetched(report) is None,
                Err(_) => false,
            },
            Err(reason) => out matches Err(e) && e.reason@ == reason@,
        },
{
    match answer {
        Ok(Some(raw)) => Ok(snapshot(raw)),
        Ok(None) => Ok(None),
        Err(reason) => Err(QueryError { reason }),
    }
}

/// An episode is shown with exactly one artist, the name of its show; a track
/// keeps the artists it came with. Name and length pass through unchanged.
pub proof fn lemma_episode_has_one_artist(item: RawItemView)
    ensures
        item is Episode ==> normalized(item).artists == seq![item->Episode_show],
        item is Episode ==> normalized(item).artists.len() == 1,
        item is Track ==> normalized(item).artists == item->Track_artists,
{
}

/// Elapsed time, shuffle and repeat go from the report into the snapshot
/// untouched, and a snapshot exists exactly when the report has both an item
/// and a progress.
pub proof fn lemma_snapshot_copies_state(raw: RawPlaybackView)
    ensures
        snapshot_of(raw) is Some <==> raw.item is Some && raw.progress_secs is Some,
        snapshot_of(raw) matches Some(s) ==> s.elapsed_secs == raw.progress_secs->0 && s.shuffle
            == raw.shuffle && s.repeat == raw.repeat && s.item == normalized(raw.item->0),
{
}

} // verus!
