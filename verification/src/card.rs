//! What the user gets to see: a plain notice or a structured card.

use crate::delta::{delta_text, format_delta};
use crate::playback::{ItemView, NormalizedPlaybackItem, PlaybackSnapshot, RepeatMode, SnapshotView};
use crate::text::{join, joined, lemma_joined_pair, lemma_joined_single};
use vstd::prelude::*;
use vstd::string::*;

verus! {

/// The colour that marks a card.
#[derive(Clone, Copy, PartialEq, Eq, Debug, Structural)]
pub enum Accent {
    /// Marks the authentication prompt.
    Blue,
    /// Marks the now-playing card.
    DarkGreen,
}

/// One labelled line of a card.
#[derive(Clone, Debug, PartialEq, Eq)]
pub struct CardField {
    /// The label.
    pub name: String,
    /// The text under the label.
    pub value: String,
    /// Whether the field may share a row with its neighbours.
    pub inline: bool,
}

/// A [`CardField`] as a mathematical value.
pub struct CardFieldView {
    pub name: Seq<char>,
    pub value: Seq<char>,
    pub inline: bool,
}

impl View for CardField {
    type V = CardFieldView;

    open spec fn view(&self) -> CardFieldView {
        CardFieldView { name: self.name@, value: self.value@, inline: self.inline }
    }
}

impl DeepView for CardField {
    type V = CardFieldView;

    open spec fn deep_view(&self) -> CardFieldView {
        self@
    }
}

/// A card with a title, fields and decoration.
#[derive(Clone, Debug, PartialEq, Eq)]
pub struct StructuredCard {
    /// The heading.
    pub title: String,
    /// Where the small picture is, if the card has one.
    pub thumbnail: Option<String>,
    /// The labelled lines, in the order in which they are shown.
    pub fields: Vec<CardField>,
    /// The line at the bottom.
    pub footer: String,
    /// The colour of the card.
    pub accent: Accent,
    /// When the card was made, in seconds since the Unix epoch.
    pub timestamp: u64,
}

/// A [`StructuredCard`] as a mathematical value.
pub struct StructuredCardView {
    pub title: Seq<char>,
    pub thumbnail: Option<Seq<char>>,
    pub fields: Seq<CardFieldView>,
    pub footer: Seq<char>,
    pub accent: Accent,
    pub timestamp: u64,
}

impl View for StructuredCard {
    type V = StructuredCardView;

    open spec fn view(&self) -> StructuredCardView {
        StructuredCardView {
            title: self.title@,
            thumbnail: self.thumbnail.deep_view(),
            fields: self.fields.deep_view(),
            footer: self.footer@,
            accent: self.accent,
            timestamp: self.timestamp,
        }
    }
}

/// What is sent to the user.
#[derive(Clone, Debug, PartialEq, Eq)]
pub enum Card {
    /// A plain line of text, with no structure.
    Text(String),
    /// A structured card.
    Structured(StructuredCard),
}

/// A [`Card`] as a mathematical value.
pub enum CardView {
    Text(Seq<char>),
    Structured(StructuredCardView),
}

impl View for Card {
    type V = CardView;

    open spec fn view(&self) -> CardView {
        match *self {
            Card::Text(text) => CardView::Text(text@),
            Card::Structured(card) => CardView::Structured(card@),
        }
    }
}

/// What a playback query came to.
#[derive(Clone, Debug, PartialEq, Eq)]
pub enum PlaybackOutcome {
    /// No session has been installed yet.
    Unauthenticated,
    /// The player is idle, or plays nothing that can be shown.
    NothingPlaying,
    /// The player plays this.
    Snapshot(PlaybackSnapshot),
}

/// A [`PlaybackOutcome`] as a mathematical value.
pub enum OutcomeView {
    Unauthenticated,
    NothingPlaying,
    Snapshot(SnapshotView),
}

impl View for PlaybackOutcome {
    type V = OutcomeView;

    open spec fn view(&self) -> OutcomeView {
        match *self {
            PlaybackOutcome::Unauthenticated => OutcomeView::Unauthenticated,
            PlaybackOutcome::NothingPlaying => OutcomeView::NothingPlaying,
            PlaybackOutcome::Snapshot(s) => OutcomeView::Snapshot(s@),
        }
    }
}

/// The notice for a user who has not authenticated yet.
pub open spec fn unauthenticated_text() -> Seq<char> {
    "The application isn't authenticated.\nrun '/authenticate' to connect."@
}

/// The notice for an idle player.
pub open spec fn nothing_playing_text() -> Seq<char> {
    "Nothing Playing"@
}

/// The line at the bottom of every structured card.
pub open spec fn footer_text() -> Seq<char> {
    "Delegatify"@
}

/// The heading of a now-playing card: the name, then the artists separated by
/// commas.
pub open spec fn title_text(item: ItemView) -> Seq<char> {
    item.name + " - "@ + joined(item.artists, ", "@)
}

/// Elapsed and full time as clock texts, separated by a slash.
pub open spec fn duration_text(elapsed_secs: u64, total_secs: u64) -> Seq<char> {
    delta_text(elapsed_secs as nat) + " / "@ + delta_text(total_secs as nat)
}

/// How the shuffle flag is written.
pub open spec fn shuffle_text(on: bool) -> Seq<char> {
    if on {
        "On"@
    } else {
        "Off"@
    }
}

/// How the repeat mode is written.
pub open spec fn repeat_text(mode: RepeatMode) -> Seq<char> {
    match mode {
        RepeatMode::Off => "Off"@,
        RepeatMode::Track => "Track"@,
        RepeatMode::Context => "Context"@,
    }
}

/// The three fields of a now-playing card, in order.
pub open spec fn playback_fields(s: SnapshotView) -> Seq<CardFieldView> {
    seq![
        CardFieldView {
            name: "Duration"@,
            value: duration_text(s.elapsed_secs, s.item.duration_secs),
            inline: false,
        },
        CardFieldView { name: "Shuffle"@, value: shuffle_text(s.shuffle), inline: false },
        CardFieldView { name: "Repeat"@, value: repeat_text(s.repeat), inline: true },
    ]
}

/// The now-playing card of a snapshot, made at `rendered_at`.
pub open spec fn playback_card(s: SnapshotView, rendered_at: u64) -> StructuredCardView {
    StructuredCardView {
        title: title_text(s.item),
        thumbnail: s.item.artwork_url,
        fields: playback_fields(s),
        footer: footer_text(),
        accent: Accent::DarkGreen,
        timestamp: rendered_at,
    }
}

/// What is shown for an outcome, when rendered at `rendered_at`.
pub open spec fn rendered(outcome: OutcomeView, rendered_at: u64) -> CardView {
    match outcome {
        OutcomeView::Unauthenticated => CardView::Text(unauthenticated_text()),
        OutcomeView::NothingPlaying => CardView::Text(nothing_playing_text()),
        OutcomeView::Snapshot(s) => CardView::Structured(playback_card(s, rendered_at)),
    }
}

/// The outcome of a query that did not fail and that had a session to ask.
pub open spec fn outcome_view(found: Option<SnapshotView>) -> OutcomeView {
    match found {
        Some(s) => OutcomeView::Snapshot(s),
        None => OutcomeView::NothingPlaying,
    }
}

/// Writes the heading of a now-playing card.
pub fn title(item: &NormalizedPlaybackItem) -> (text: String)
    ensures
        text@ == title_text(item@),
{
    let mut text = item.name.clone();
    text.append(" - ");
    let artists = join(&item.artists, ", ");
    text.append(artists.as_str());
    text
}

/// Writes elapsed and full time as `elapsed / total`.
pub fn duration_field(elapsed_secs: u64, total_secs: u64) -> (text: String)
    ensures
        text@ == duration_text(elapsed_secs, total_secs),
{
    let mut text = format_delta(elapsed_secs);
    text.append(" / ");
    let total = format_delta(total_secs);
    text.append(total.as_str());
    text
}

/// Writes the shuffle flag as `On` or `Off`.
pub fn shuffle_label(on: bool) -> (text: &'static str)
    ensures
        text@ == shuffle_text(on),
{
    if on {
        "On"
    } else {
        "Off"
    }
}

/// Writes the repeat mode as `Off`, `Track` or `Context`.
pub fn repeat_label(mode: RepeatMode) -> (text: &'static str)
    ensures
        text@ == repeat_text(mode),
{
    match mode {
        RepeatMode::Off => "Off",
        RepeatMode::Track => "Track",
        RepeatMode::Context => "Context",
    }
}

/// One field of a card.
fn field(name: &str, value: String, inline: bool) -> (f: CardField)
    ensures
        f@ == (CardFieldView { name: name@, value: value@, inline }),
{
    CardField { name: String::from_str(name), value, inline }
}

/// Makes the now-playing card of a snapshot.
///
/// The card carries the heading, the artwork where the item has one, the
/// fields for duration, shuffle and repeat in that order, the footer, the
/// now-playing accent and `rendered_at` as its time of making.
pub fn current_playback(snapshot: PlaybackSnapshot, rendered_at: u64) -> (card: StructuredCard)
    ensures
        card@ == playback_card(snapshot@, rendered_at),
{
    let heading = title(&snapshot.item);
    let duration = duration_field(snapshot.elapsed_secs, snapshot.item.duration_secs);
    let mut fields: Vec<CardField> = Vec::new();
    fields.push(field("Duration", duration, false));
    fields.push(field("Shuffle", String::from_str(shuffle_label(snapshot.shuffle)), false));
    fields.push(field("Repeat", String::from_str(repeat_label(snapshot.repeat)), true));
    proof {
        assert(fields.deep_view() =~= playback_fields(snapshot@));
    }
    StructuredCard {
        title: heading,
        thumbnail: snapshot.item.artwork_url,
        fields,
        footer: String::from_str("Delegatify"),
        accent: Accent::DarkGreen,
        timestamp: rendered_at,
    }
}

/// Names the outcome of a query that had a session to ask and did not fail:
/// a snapshot is shown, its absence means that nothing is playing.
pub fn outcome_of(found: Option<PlaybackSnapshot>) -> (outcome: PlaybackOutcome)
    ensures
        match found {
            Some(s) => outcome@ == OutcomeView::Snapshot(s@),
            None => outcome@ == OutcomeView::NothingPlaying,
        },
{
    match found {
        Some(s) => PlaybackOutcome::Snapshot(s),
        None => PlaybackOutcome::NothingPlaying,
    }
}

/// Renders an outcome.
///
/// Without a session, and with nothing playing, the result is a plain notice
/// and never a structured card. A snapshot gives its now-playing card. The
/// result depends on nothing but the two arguments.
pub fn render(outcome: PlaybackOutcome, rendered_at: u64) -> (card: Card)
    ensures
        card@ == rendered(outcome@, rendered_at),
{
    match outcome {
        PlaybackOutcome::Unauthenticated => Card::Text(
            String::from_str(
                "The application isn't authenticated.\nrun '/authenticate' to connect.",
            ),
        ),
        PlaybackOutcome::NothingPlaying => Card::Text(String::from_str("Nothing Playing")),
        PlaybackOutcome::Snapshot(s) => Card::Structured(current_playback(s, rendered_at)),
    }
}

/// Without a session the result is the plain notice, whatever the time of
/// rendering, and with nothing playing it is a plain notice too: neither is
/// ever a structured card.
pub proof fn lemma_fallbacks_are_plain_text(rendered_at: u64)
    ensures
        rendered(OutcomeView::Unauthenticated, rendered_at) == CardView::Text(
            unauthenticated_text(),
        ),
        rendered(OutcomeView::NothingPlaying, rendered_at) == CardView::Text(
            nothing_playing_text(),
        ),
        rendered(outcome_view(None), rendered_at) == CardView::Text(nothing_playing_text()),
{
}

/// A snapshot always gives a structured card, and the card's content is the
/// same whenever it is rendered: two renderings differ in the timestamp alone.
pub proof fn lemma_card_depends_on_snapshot_only(s: SnapshotView, first: u64, second: u64)
    ensures
        rendered(OutcomeView::Snapshot(s), first) is Structured,
        rendered(OutcomeView::Snapshot(s), first)->Structured_0 == (StructuredCardView {
            timestamp: first,
            ..rendered(OutcomeView::Snapshot(s), second)->Structured_0
        }),
        rendered(OutcomeView::Snapshot(s), first)->Structured_0.timestamp == first,
{
}

/// The now-playing card never carries the accent of the authentication
/// prompt.
pub proof fn lemma_card_accent_differs_from_prompt(s: SnapshotView, rendered_at: u64, url: Seq<char>)
    ensures
        playback_card(s, rendered_at).accent != crate::request::prompt_for(url, rendered_at).accent,
{
}

/// The card shows the artwork exactly when the item has one.
pub proof fn lemma_thumbnail_is_the_artwork(s: SnapshotView, rendered_at: u64)
    ensures
        playback_card(s, rendered_at).thumbnail == s.item.artwork_url,
        playback_card(s, rendered_at).fields.len() == 3,
{
}

/// The heading of an item with two artists names them with a comma and a
/// space between; with one artist no comma appears.
pub proof fn lemma_title_of_few_artists(name: Seq<char>, first: Seq<char>, second: Seq<char>)
    ensures
        title_text(
            ItemView { name, artists: seq![first, second], duration_secs: 0, artwork_url: None },
        ) == name + " - "@ + (first + ", "@ + second),
        title_text(ItemView { name, artists: seq![first], duration_secs: 0, artwork_url: None })
            == name + " - "@ + first,
{
    lemma_joined_pair(first, second, ", "@);
    lemma_joined_single(first, ", "@);
}

} // verus!
