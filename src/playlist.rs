use vstd::prelude::*;

verus! {

/// How many tracks the playlist holds.
pub const TRACK_COUNT: usize = 5;

/// The file of track `i`, for `i < TRACK_COUNT`.
pub open spec fn track_path_spec(i: int) -> Seq<char> {
    if i == 0 {
        "assets/music/shake_it_off.mp3"@
    } else if i == 1 {
        "assets/music/blank_space.mp3"@
    } else if i == 2 {
        "assets/music/anti_hero.mp3"@
    } else if i == 3 {
        "assets/music/love_story.mp3"@
    } else {
        "assets/music/we_are_never_getting_back_together.mp3"@
    }
}

/// The file of track `i`.
pub fn track_path(i: usize) -> (p: &'static str)
    requires
        i < TRACK_COUNT,
    ensures
        p@ == track_path_spec(i as int),
{
    match i {
        0 => "assets/music/shake_it_off.mp3",
        1 => "assets/music/blank_space.mp3",
        2 => "assets/music/anti_hero.mp3",
        3 => "assets/music/love_story.mp3",
        _ => "assets/music/we_are_never_getting_back_together.mp3",
    }
}

/// The title of track `i`; past the last track, `"Unknown Track"`.
pub open spec fn track_name_spec(i: int) -> Seq<char> {
    if i == 0 {
        "Shake It Off"@
    } else if i == 1 {
        "Blank Space"@
    } else if i == 2 {
        "Anti-Hero"@
    } else if i == 3 {
        "Love Story"@
    } else if i == 4 {
        "We Are Never Getting Back Together"@
    } else {
        "Unknown Track"@
    }
}

/// The title of track `i`.
pub fn get_track_name(i: usize) -> (n: &'static str)
    ensures
        n@ == track_name_spec(i as int),
{
    match i {
        0 => "Shake It Off",
        1 => "Blank Space",
        2 => "Anti-Hero",
        3 => "Love Story",
        4 => "We Are Never Getting Back Together",
        _ => "Unknown Track",
    }
}

/// The line of praise printed when track `i` starts.
pub open spec fn tagline_spec(i: int) -> Seq<char> {
    if i == 0 {
        "Energía positiva y ritmo contagioso"@
    } else if i == 1 {
        "Melodía misteriosa y cautivadora"@
    } else if i == 2 {
        "Introspección y honestidad emocional"@
    } else if i == 3 {
        "Historia de amor atemporal"@
    } else if i == 4 {
        "Determinación y empoderamiento"@
    } else {
        "Taylor Swift cantando para ti..."@
    }
}

/// The line of praise printed when track `i` starts.
pub fn song_tagline(i: usize) -> (t: &'static str)
    ensures
        t@ == tagline_spec(i as int),
{
    match i {
        0 => "Energía positiva y ritmo contagioso",
        1 => "Melodía misteriosa y cautivadora",
        2 => "Introspección y honestidad emocional",
        3 => "Historia de amor atemporal",
        4 => "Determinación y empoderamiento",
        _ => "Taylor Swift cantando para ti...",
    }
}

/// The tune played for track `i`, as (frequency in Hz, duration in ms)
/// notes; past the last track, a default tune.
pub open spec fn melody_spec(i: int) -> Seq<(u32, u64)> {
    if i == 0 {
        seq![(523u32, 400u64), (587u32, 400u64), (659u32, 400u64), (698u32, 400u64), (784u32, 800u64), (698u32, 400u64), (659u32, 400u64), (587u32, 800u64)]
    } else if i == 1 {
        seq![(440u32, 600u64), (466u32, 600u64), (523u32, 400u64), (466u32, 400u64), (440u32, 800u64), (392u32, 600u64), (440u32, 600u64), (523u32, 800u64)]
    } else if i == 2 {
        seq![(349u32, 800u64), (392u32, 400u64), (440u32, 400u64), (523u32, 600u64), (440u32, 600u64), (392u32, 400u64), (349u32, 1200u64)]
    } else if i == 3 {
        seq![(659u32, 400u64), (698u32, 400u64), (784u32, 600u64), (659u32, 400u64), (587u32, 400u64), (523u32, 600u64), (587u32, 400u64), (659u32, 800u64)]
    } else if i == 4 {
        seq![(523u32, 300u64), (587u32, 300u64), (659u32, 300u64), (784u32, 500u64), (659u32, 300u64), (587u32, 300u64), (523u32, 300u64), (587u32, 600u64)]
    } else {
        seq![(440u32, 500u64), (523u32, 500u64), (659u32, 500u64), (523u32, 1000u64)]
    }
}

/// The tune played for track `i`.
pub fn get_melody_for_track(i: usize) -> (m: Vec<(u32, u64)>)
    ensures
        m@ == melody_spec(i as int),
{
    let mut v: Vec<(u32, u64)> = Vec::new();
    match i {
        0 => {
            v.push((523, 400));
            v.push((587, 400));
            v.push((659, 400));
            v.push((698, 400));
            v.push((784, 800));
            v.push((698, 400));
            v.push((659, 400));
            v.push((587, 800));
        },
        1 => {
            v.push((440, 600));
            v.push((466, 600));
            v.push((523, 400));
            v.push((466, 400));
            v.push((440, 800));
            v.push((392, 600));
            v.push((440, 600));
            v.push((523, 800));
        },
        2 => {
            v.push((349, 800));
            v.push((392, 400));
            v.push((440, 400));
            v.push((523, 600));
            v.push((440, 600));
            v.push((392, 400));
            v.push((349, 1200));
        },
        3 => {
            v.push((659, 400));
            v.push((698, 400));
            v.push((784, 600));
            v.push((659, 400));
            v.push((587, 400));
            v.push((523, 600));
            v.push((587, 400));
            v.push((659, 800));
        },
        4 => {
            v.push((523, 300));
            v.push((587, 300));
            v.push((659, 300));
            v.push((784, 500));
            v.push((659, 300));
            v.push((587, 300));
            v.push((523, 300));
            v.push((587, 600));
        },
        _ => {
            v.push((440, 500));
            v.push((523, 500));
            v.push((659, 500));
            v.push((523, 1000));
        },
    }
    assert(v@ =~= melody_spec(i as int));
    v
}

/// The fanfare played on reaching the goal.
pub open spec fn victory_melody_spec() -> Seq<(u32, u64)> {
    seq![(523u32, 300u64), (659u32, 300u64), (783u32, 300u64), (1046u32, 600u64)]
}

/// The fanfare played on reaching the goal.
pub fn victory_melody() -> (m: Vec<(u32, u64)>)
    ensures
        m@ == victory_melody_spec(),
{
    let mut v: Vec<(u32, u64)> = Vec::new();
    v.push((523, 300));
    v.push((659, 300));
    v.push((783, 300));
    v.push((1046, 600));
    assert(v@ =~= victory_melody_spec());
    v
}

/// The decimal digit character of `d < 10`.
pub open spec fn digit_char(d: nat) -> char {
    if d == 0 {
        '0'
    } else if d == 1 {
        '1'
    } else if d == 2 {
        '2'
    } else if d == 3 {
        '3'
    } else if d == 4 {
        '4'
    } else if d == 5 {
        '5'
    } else if d == 6 {
        '6'
    } else if d == 7 {
        '7'
    } else if d == 8 {
        '8'
    } else {
        '9'
    }
}

/// `n` written in decimal, without leading zeros.
pub open spec fn decimal(n: nat) -> Seq<char>
    decreases n,
{
    if n < 10 {
        seq![digit_char(n)]
    } else {
        decimal(n / 10).push(digit_char(n % 10))
    }
}

fn digit_str(d: usize) -> (s: &'static str)
    requires
        d < 10,
    ensures
        s@ == seq![digit_char(d as nat)],
{
    proof {
        reveal_strlit("0");
        reveal_strlit("1");
        reveal_strlit("2");
        reveal_strlit("3");
        reveal_strlit("4");
        reveal_strlit("5");
        reveal_strlit("6");
        reveal_strlit("7");
        reveal_strlit("8");
        reveal_strlit("9");
    }
    let s = match d {
        0 => "0",
        1 => "1",
        2 => "2",
        3 => "3",
        4 => "4",
        5 => "5",
        6 => "6",
        7 => "7",
        8 => "8",
        _ => "9",
    };
    assert(s@ =~= seq![digit_char(d as nat)]);
    s
}

/// Appends `n` in decimal to `out`.
fn append_decimal(out: &mut String, n: usize)
    ensures
        final(out)@ == old(out)@ + decimal(n as nat),
    decreases n,
{
    if n < 10 {
        out.append(digit_str(n));
    } else {
        append_decimal(out, n / 10);
        out.append(digit_str(n % 10));
        assert(final(out)@ =~= old(out)@ + decimal(n as nat));
    }
}

/// The line that shows which track plays: `"Taylor Swift - <title>
/// (<number>/<count>)"`, numbering tracks from 1.
pub open spec fn track_info_spec(i: int) -> Seq<char> {
    "Taylor Swift - "@ + track_name_spec(i) + " ("@ + decimal((i + 1) as nat) + "/"@ + decimal(
        TRACK_COUNT as nat,
    ) + ")"@
}

/// Which track plays and whether sound is on.
pub struct Playlist {
    audio_enabled: bool,
    current_track: usize,
}

impl Playlist {
    #[verifier::type_invariant]
    spec fn inv(&self) -> bool {
        self.current_track < TRACK_COUNT
    }

    pub closed spec fn track(&self) -> int {
        self.current_track as int
    }

    pub closed spec fn enabled(&self) -> bool {
        self.audio_enabled
    }

    /// Whether sound is on.
    pub fn audio_enabled(&self) -> (on: bool)
        ensures
            on == self.enabled(),
    {
        self.audio_enabled
    }

    /// The first track, with sound on.
    pub fn new() -> (p: Playlist)
        ensures
            p.enabled(),
            p.track() == 0,
    {
        Playlist { audio_enabled: true, current_track: 0 }
    }

    /// The number of the track that plays, from 0; always below
    /// `TRACK_COUNT`.
    pub fn current_track(&self) -> (i: usize)
        ensures
            i == self.track(),
            i < TRACK_COUNT,
    {
        proof {
            use_type_invariant(self);
        }
        self.current_track
    }

    /// Moves on to the next track, from the last back to the first.
    pub fn next_track(&mut self)
        ensures
            final(self).track() == (old(self).track() + 1) % (TRACK_COUNT as int),
            final(self).enabled() == old(self).enabled(),
    {
        proof {
            use_type_invariant(&*self);
        }
        self.current_track = (self.current_track + 1) % TRACK_COUNT;
    }

    /// Moves back to the previous track, from the first to the last.
    pub fn previous_track(&mut self)
        ensures
            final(self).track() == if old(self).track() == 0 {
                TRACK_COUNT - 1
            } else {
                old(self).track() - 1
            },
            final(self).enabled() == old(self).enabled(),
    {
        proof {
            use_type_invariant(&*self);
        }
        self.current_track = if self.current_track == 0 {
            TRACK_COUNT - 1
        } else {
            self.current_track - 1
        };
    }

    /// Turns sound off where it is on and on where it is off; returns
    /// whether it is now on.
    pub fn toggle_audio(&mut self) -> (on: bool)
        ensures
            final(self).enabled() == !old(self).enabled(),
            on == final(self).enabled(),
            final(self).track() == old(self).track(),
    {
        proof {
            use_type_invariant(&*self);
        }
        self.audio_enabled = !self.audio_enabled;
        self.audio_enabled
    }

    /// The line that shows which track plays.
    pub fn get_current_track_info(&self) -> (s: String)
        ensures
            s@ == track_info_spec(self.track()),
    {
        proof {
            use_type_invariant(self);
        }
        let mut s = String::from_str("Taylor Swift - ");
        s.append(get_track_name(self.current_track));
        s.append(" (");
        append_decimal(&mut s, self.current_track + 1);
        s.append("/");
        append_decimal(&mut s, TRACK_COUNT);
        s.append(")");
        s
    }
}

/// What the gamepad asks of the music.
#[derive(Clone, Copy, Debug, PartialEq, Eq, Structural)]
pub enum AudioCommand {
    NextTrack,
    PreviousTrack,
    ToggleAudio,
    /// Sets the volume to half.
    HalfVolume,
}

/// What a gamepad asks of the music, by the buttons held on it: the right
/// lower trigger first, then the left lower trigger, then start, then
/// select.
pub open spec fn audio_command_spec(
    right_trigger2: bool,
    left_trigger2: bool,
    start: bool,
    select: bool,
) -> Option<AudioCommand> {
    if right_trigger2 {
        Some(AudioCommand::NextTrack)
    } else if left_trigger2 {
        Some(AudioCommand::PreviousTrack)
    } else if start {
        Some(AudioCommand::ToggleAudio)
    } else if select {
        Some(AudioCommand::HalfVolume)
    } else {
        None
    }
}

pub fn audio_command(right_trigger2: bool, left_trigger2: bool, start: bool, select: bool) -> (c:
    Option<AudioCommand>)
    ensures
        c == audio_command_spec(right_trigger2, left_trigger2, start, select),
{
    if right_trigger2 {
        Some(AudioCommand::NextTrack)
    } else if left_trigger2 {
        Some(AudioCommand::PreviousTrack)
    } else if start {
        Some(AudioCommand::ToggleAudio)
    } else if select {
        Some(AudioCommand::HalfVolume)
    } else {
        None
    }
}

} // verus!
