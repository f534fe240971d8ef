use delegatify::card::{
    current_playback, duration_field, outcome_of, render, repeat_label, shuffle_label, title,
    Accent, Card, CardField, PlaybackOutcome, StructuredCard,
};
use delegatify::playback::{NormalizedPlaybackItem, PlaybackSnapshot, RepeatMode};
use delegatify::text::join;

fn song() -> NormalizedPlaybackItem {
    NormalizedPlaybackItem {
        name: "Song".to_string(),
        artists: vec!["A".to_string(), "B".to_string()],
        duration_secs: 180,
        artwork_url: Some("https://img/cover".to_string()),
    }
}

fn snap() -> PlaybackSnapshot {
    PlaybackSnapshot { item: song(), elapsed_secs: 75, shuffle: true, repeat: RepeatMode::Track }
}

#[test]
fn join_puts_the_separator_between_parts_only() {
    assert_eq!(join(&vec![], ", "), "");
    assert_eq!(join(&vec!["A".to_string()], ", "), "A");
    assert_eq!(join(&vec!["A".to_string(), "B".to_string()], ", "), "A, B");
    assert_eq!(
        join(&vec!["A".to_string(), "".to_string(), "C".to_string()], "-"),
        "A--C"
    );
    assert_eq!(join(&vec!["x".to_string(), "y".to_string()], ""), "xy");
}

#[test]
fn the_title_is_name_dash_artists() {
    assert_eq!(title(&song()), "Song - A, B");
}

#[test]
fn the_title_of_an_item_with_one_artist_has_no_comma() {
    let item = NormalizedPlaybackItem {
        name: "Morning Edition".to_string(),
        artists: vec!["Daily News".to_string()],
        duration_secs: 1,
        artwork_url: None,
    };
    assert_eq!(title(&item), "Morning Edition - Daily News");
}

#[test]
fn the_title_of_an_item_without_artists_ends_after_the_dash() {
    let item = NormalizedPlaybackItem {
        name: "Solo".to_string(),
        artists: vec![],
        duration_secs: 1,
        artwork_url: None,
    };
    assert_eq!(title(&item), "Solo - ");
}

#[test]
fn the_duration_field_shows_elapsed_and_total() {
    assert_eq!(duration_field(75, 180), "01:15 / 03:00");
    assert_eq!(duration_field(0, 0), "00:00 / 00:00");
    assert_eq!(duration_field(3599, 3600), "59:59 / 1:00:00");
    assert_eq!(duration_field(3700, 7322), "1:01:40 / 2:02:02");
}

#[test]
fn shuffle_is_on_or_off() {
    assert_eq!(shuffle_label(true), "On");
    assert_eq!(shuffle_label(false), "Off");
}

#[test]
fn repeat_is_off_track_or_context() {
    assert_eq!(repeat_label(RepeatMode::Off), "Off");
    assert_eq!(repeat_label(RepeatMode::Track), "Track");
    assert_eq!(repeat_label(RepeatMode::Context), "Context");
}

#[test]
fn unauthenticated_renders_the_plain_notice() {
    let expected = Card::Text(
        "The application isn't authenticated.\nrun '/authenticate' to connect.".to_string(),
    );
    assert_eq!(render(PlaybackOutcome::Unauthenticated, 0), expected);
    assert_eq!(render(PlaybackOutcome::Unauthenticated, 1_700_000_000), expected);
    assert_eq!(render(PlaybackOutcome::Unauthenticated, u64::MAX), expected);
}

#[test]
fn nothing_playing_renders_plain_text_and_no_card() {
    let card = render(PlaybackOutcome::NothingPlaying, 123);
    assert_eq!(card, Card::Text("Nothing Playing".to_string()));
    assert!(matches!(card, Card::Text(_)));
}

#[test]
fn no_snapshot_means_nothing_playing() {
    assert_eq!(outcome_of(None), PlaybackOutcome::NothingPlaying);
    assert_eq!(outcome_of(Some(snap())), PlaybackOutcome::Snapshot(snap()));
}

#[test]
fn a_snapshot_renders_the_whole_card() {
    let card = render(PlaybackOutcome::Snapshot(snap()), 1_700_000_000);
    let expected = StructuredCard {
        title: "Song - A, B".to_string(),
        thumbnail: Some("https://img/cover".to_string()),
        fields: vec![
            CardField {
                name: "Duration".to_string(),
                value: "01:15 / 03:00".to_string(),
                inline: false,
            },
            CardField { name: "Shuffle".to_string(), value: "On".to_string(), inline: false },
            CardField { name: "Repeat".to_string(), value: "Track".to_string(), inline: true },
        ],
        footer: "Delegatify".to_string(),
        accent: Accent::DarkGreen,
        timestamp: 1_700_000_000,
    };
    assert_eq!(card, Card::Structured(expected));
}

#[test]
fn the_same_snapshot_gives_the_same_card_but_for_the_timestamp() {
    let first = current_playback(snap(), 10);
    let second = current_playback(snap(), 20);
    assert_eq!(first.timestamp, 10);
    assert_eq!(second.timestamp, 20);
    assert_eq!(first, StructuredCard { timestamp: 10, ..second });
}

#[test]
fn a_card_without_artwork_has_no_thumbnail() {
    let mut s = snap();
    s.item.artwork_url = None;
    s.shuffle = false;
    s.repeat = RepeatMode::Context;
    let card = current_playback(s, 0);
    assert_eq!(card.thumbnail, None);
    assert_eq!(card.fields[1].value, "Off");
    assert_eq!(card.fields[2].value, "Context");
    assert_eq!(card.accent, Accent::DarkGreen);
    assert_ne!(card.accent, Accent::Blue);
}
