//! Playback-mode data types and their wire encodings.

use vstd::prelude::*;

verus! {

use crate::utils::{str_ieq, fold_case, eq_ignore_ascii_case};

/// How the current playlist is repeated.
#[derive(Clone, Copy, Debug, Default, PartialEq, Eq, Structural)]
pub enum RepeatMode {
    /// The playlist doesn't get repeated.
    #[default]
    Off,
    /// Only one song gets played on and on.
    One,
    /// The whole playlist is repeated.
    All,
}

/// The provided string named no repeat mode.
#[derive(Clone, Copy, Debug, PartialEq, Eq, Structural)]
pub struct ParseRepeatModeError;

impl RepeatMode {
    /// Reads a repeat mode from its name, ignoring ASCII letter case:
    /// `"none"`, `"one"` or `"all"`.
    pub fn from_str(s: &str) -> (r: Result<RepeatMode, ParseRepeatModeError>)
        ensures
            str_ieq(s@, "none"@) ==> r == Ok::<RepeatMode, ParseRepeatModeError>(RepeatMode::Off),
            str_ieq(s@, "one"@) ==> r == Ok::<RepeatMode, ParseRepeatModeError>(RepeatMode::One),
            str_ieq(s@, "all"@) ==> r == Ok::<RepeatMode, ParseRepeatModeError>(RepeatMode::All),
            !str_ieq(s@, "none"@) && !str_ieq(s@, "one"@) && !str_ieq(s@, "all"@) ==> r == Err::<
                RepeatMode,
                ParseRepeatModeError,
            >(ParseRepeatModeError),
    {
        proof {
            reveal_strlit("none");
            reveal_strlit("one");
            reveal_strlit("all");
            assert(fold_case("none"@).len() == 4);
            assert(fold_case("one"@).len() == 3);
            assert(fold_case("all"@).len() == 3);
            assert(fold_case("one"@)[0] != fold_case("all"@)[0]);
        }
        if eq_ignore_ascii_case(s, "none") {
            Ok(RepeatMode::Off)
        } else if eq_ignore_ascii_case(s, "one") {
            Ok(RepeatMode::One)
        } else if eq_ignore_ascii_case(s, "all") {
            Ok(RepeatMode::All)
        } else {
            Err(ParseRepeatModeError)
        }
    }
}

/// The transport-settings name of a playback mode: repeat mode plus shuffle
/// flag.
pub open spec fn playback_mode_seq(mode: RepeatMode, shuffle: bool) -> Seq<char> {
    match (mode, shuffle) {
        (RepeatMode::Off, false) => "NORMAL"@,
        (RepeatMode::One, false) => "REPEAT_ONE"@,
        (RepeatMode::All, false) => "REPEAT_ALL"@,
        (RepeatMode::Off, true) => "SHUFFLE_NOREPEAT"@,
        (RepeatMode::One, true) => "SHUFFLE_REPEAT_ONE"@,
        (RepeatMode::All, true) => "SHUFFLE"@,
    }
}

/// Encodes a playback mode as the name the transport service expects.
pub fn playback_mode_name(mode: RepeatMode, shuffle: bool) -> (r: &'static str)
    ensures
        r@ == playback_mode_seq(mode, shuffle),
{
    match (mode, shuffle) {
        (RepeatMode::Off, false) => "NORMAL",
        (RepeatMode::One, false) => "REPEAT_ONE",
        (RepeatMode::All, false) => "REPEAT_ALL",
        (RepeatMode::Off, true) => "SHUFFLE_NOREPEAT",
        (RepeatMode::One, true) => "SHUFFLE_REPEAT_ONE",
        (RepeatMode::All, true) => "SHUFFLE",
    }
}

/// Decodes a transport-settings playback-mode name, ignoring ASCII letter
/// case.  Returns the repeat mode and the shuffle flag, or nothing for an
/// unknown name.
pub fn parse_playback_mode(s: &str) -> (r: Option<(RepeatMode, bool)>)
    ensures
        r matches Some(p) ==> str_ieq(s@, playback_mode_seq(p.0, p.1)),
        r is None ==> forall|mode: RepeatMode, shuffle: bool|
            !str_ieq(s@, #[trigger] playback_mode_seq(mode, shuffle)),
{
    if eq_ignore_ascii_case(s, "NORMAL") {
        Some((RepeatMode::Off, false))
    } else if eq_ignore_ascii_case(s, "REPEAT_ALL") {
        Some((RepeatMode::All, false))
    } else if eq_ignore_ascii_case(s, "REPEAT_ONE") {
        Some((RepeatMode::One, false))
    } else if eq_ignore_ascii_case(s, "SHUFFLE_NOREPEAT") {
        Some((RepeatMode::Off, true))
    } else if eq_ignore_ascii_case(s, "SHUFFLE") {
        Some((RepeatMode::All, true))
    } else if eq_ignore_ascii_case(s, "SHUFFLE_REPEAT_ONE") {
        Some((RepeatMode::One, true))
    } else {
        None
    }
}

} // verus!
