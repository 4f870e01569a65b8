use now_playing::model::{
    MetadataPayload,
    SystemMediaEventType,
};
use now_playing::platform::macos::{
    MacCommand,
    command_event,
    join_strings,
    now_playing_plan,
};

fn song(track_id: Option<i64>, genre: Vec<String>, duration: Option<i64>) -> MetadataPayload {
    MetadataPayload {
        song_name: "s".to_string(),
        author_name: "a".to_string(),
        album_name: "b".to_string(),
        original_cover_url: None,
        cover_data: None,
        duration,
        track_id,
        genre,
        discord_buttons: None,
    }
}

#[test]
fn remote_commands_map_to_events() {
    assert_eq!(command_event(MacCommand::Play, true), SystemMediaEventType::Play);
    assert_eq!(command_event(MacCommand::Pause, false), SystemMediaEventType::Pause);
    assert_eq!(command_event(MacCommand::PreviousTrack, false), SystemMediaEventType::PreviousSong);
    assert_eq!(command_event(MacCommand::NextTrack, false), SystemMediaEventType::NextSong);
    assert_eq!(command_event(MacCommand::Stop, false), SystemMediaEventType::Stop);
    assert_eq!(command_event(MacCommand::TogglePlayPause, true), SystemMediaEventType::Pause);
    assert_eq!(command_event(MacCommand::TogglePlayPause, false), SystemMediaEventType::Play);
    assert_eq!(
        command_event(MacCommand::ChangeShuffleMode, false),
        SystemMediaEventType::ToggleShuffle
    );
    assert_eq!(
        command_event(MacCommand::ChangeRepeatMode, true),
        SystemMediaEventType::ToggleRepeat
    );
}

#[test]
fn genres_are_joined() {
    let v = vec!["Pop".to_string(), "Rock".to_string(), "Jazz".to_string()];
    assert_eq!(join_strings(&v, ", "), "Pop, Rock, Jazz");
    assert_eq!(join_strings(&vec!["One".to_string()], ", "), "One");
    assert_eq!(join_strings(&Vec::new(), ", "), "");
}

#[test]
fn now_playing_plan_of_a_song() {
    let p = now_playing_plan(&song(Some(9), vec!["Pop".to_string(), "Rock".to_string()], Some(1)), 5);
    assert_eq!(p.genre.as_deref(), Some("Pop, Rock"));
    assert_eq!(p.persistent_id, 9);
    assert_eq!(p.duration_ms, Some(1));
    let p = now_playing_plan(&song(None, vec![], None), 1_700_000_000_000);
    assert_eq!(p.genre, None);
    assert_eq!(p.persistent_id, 1_700_000_000_000);
    assert_eq!(p.duration_ms, None);
}
