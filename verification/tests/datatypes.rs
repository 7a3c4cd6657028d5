use sonor::datatypes::{
    parse_playback_mode, playback_mode_name, ParseRepeatModeError, RepeatMode,
};

#[test]
fn test_repeat_mode_from_str() {
    assert_eq!(RepeatMode::from_str("NONE"), Ok(RepeatMode::Off));
    assert_eq!(RepeatMode::from_str("One"), Ok(RepeatMode::One));
    assert_eq!(RepeatMode::from_str("all"), Ok(RepeatMode::All));
}

#[test]
fn test_repeat_mode_from_str_rejects_unknown() {
    assert_eq!(RepeatMode::from_str("loop"), Err(ParseRepeatModeError));
    assert_eq!(RepeatMode::from_str(""), Err(ParseRepeatModeError));
}

#[test]
fn test_playback_mode_names() {
    assert_eq!(playback_mode_name(RepeatMode::Off, false), "NORMAL");
    assert_eq!(playback_mode_name(RepeatMode::One, false), "REPEAT_ONE");
    assert_eq!(playback_mode_name(RepeatMode::All, false), "REPEAT_ALL");
    assert_eq!(playback_mode_name(RepeatMode::Off, true), "SHUFFLE_NOREPEAT");
    assert_eq!(playback_mode_name(RepeatMode::One, true), "SHUFFLE_REPEAT_ONE");
    assert_eq!(playback_mode_name(RepeatMode::All, true), "SHUFFLE");
}

#[test]
fn test_playback_mode_round_trip() {
    let modes = [RepeatMode::Off, RepeatMode::One, RepeatMode::All];
    let flags = [false, true];
    for &mode in &modes {
        for &shuffle in &flags {
            let name = playback_mode_name(mode, shuffle);
            assert_eq!(parse_playback_mode(name), Some((mode, shuffle)));
        }
    }
}

#[test]
fn test_parse_playback_mode_ignores_case() {
    assert_eq!(parse_playback_mode("shuffle"), Some((RepeatMode::All, true)));
    assert_eq!(parse_playback_mode("normal"), Some((RepeatMode::Off, false)));
}

#[test]
fn test_parse_playback_mode_rejects_unknown() {
    assert_eq!(parse_playback_mode("SIDEWAYS"), None);
}
