use pokemon_raycaster::playlist::{
    audio_command, get_melody_for_track, get_track_name, song_tagline, track_path,
    victory_melody, AudioCommand, Playlist, TRACK_COUNT,
};

#[test]
fn starts_on_first_track_with_sound() {
    let p = Playlist::new();
    assert!(p.audio_enabled());
    assert_eq!(p.current_track(), 0);
    assert_eq!(p.get_current_track_info(), "Taylor Swift - Shake It Off (1/5)");
}

#[test]
fn next_track_wraps_around() {
    let mut p = Playlist::new();
    let mut seen = vec![];
    for _ in 0..TRACK_COUNT {
        p.next_track();
        seen.push(p.current_track());
    }
    assert_eq!(seen, vec![1, 2, 3, 4, 0]);
}

#[test]
fn previous_track_wraps_around() {
    let mut p = Playlist::new();
    p.previous_track();
    assert_eq!(p.current_track(), 4);
    assert_eq!(
        p.get_current_track_info(),
        "Taylor Swift - We Are Never Getting Back Together (5/5)"
    );
    p.previous_track();
    assert_eq!(p.current_track(), 3);
    p.next_track();
    assert_eq!(p.current_track(), 4);
}

#[test]
fn toggle_flips_sound() {
    let mut p = Playlist::new();
    assert!(!p.toggle_audio());
    assert!(!p.audio_enabled());
    assert!(p.toggle_audio());
    assert!(p.audio_enabled());
    assert_eq!(p.current_track(), 0);
}

#[test]
fn track_names_and_paths() {
    assert_eq!(get_track_name(1), "Blank Space");
    assert_eq!(get_track_name(2), "Anti-Hero");
    assert_eq!(get_track_name(5), "Unknown Track");
    assert_eq!(track_path(0), "assets/music/shake_it_off.mp3");
    assert_eq!(track_path(4), "assets/music/we_are_never_getting_back_together.mp3");
    assert_eq!(song_tagline(3), "Historia de amor atemporal");
    assert_eq!(song_tagline(8), "Taylor Swift cantando para ti...");
}

#[test]
fn melodies() {
    assert_eq!(get_melody_for_track(2), vec![
        (349, 800),
        (392, 400),
        (440, 400),
        (523, 600),
        (440, 600),
        (392, 400),
        (349, 1200)
    ]);
    assert_eq!(get_melody_for_track(0).len(), 8);
    assert_eq!(get_melody_for_track(0)[4], (784, 800));
    assert_eq!(get_melody_for_track(17), vec![(440, 500), (523, 500), (659, 500), (523, 1000)]);
    assert_eq!(victory_melody(), vec![(523, 300), (659, 300), (783, 300), (1046, 600)]);
}

#[test]
fn gamepad_audio_commands() {
    assert_eq!(audio_command(true, true, true, true), Some(AudioCommand::NextTrack));
    assert_eq!(audio_command(false, true, true, false), Some(AudioCommand::PreviousTrack));
    assert_eq!(audio_command(false, false, true, true), Some(AudioCommand::ToggleAudio));
    assert_eq!(audio_command(false, false, false, true), Some(AudioCommand::HalfVolume));
    assert_eq!(audio_command(false, false, false, false), None);
}
