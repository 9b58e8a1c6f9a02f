//! What the Sound panel says about a sound's sync mode.
//!
//! A sound sits on a keyframe and plays from there; its sync mode is the one
//! setting whose choice changes what is heard, so each mode carries a line of
//! explanation rather than a bare word, and no two modes share one.

use vstd::prelude::*;

verus! {

/// How a sound on a keyframe plays against the timeline, in Animate's terms.
#[derive(Debug, Clone, Copy, PartialEq, Eq, Hash, Structural)]
pub enum SoundSync {
    Event,
    Start,
    Stop,
    Stream,
}

impl SoundSync {
    /// The four modes, in the order the picker offers them.
    pub const ALL: [SoundSync; 4] = [SoundSync::Event, SoundSync::Start, SoundSync::Stop, SoundSync::Stream];
}

pub open spec fn sync_help_spec(sync: SoundSync) -> Seq<char> {
    match sync {
        SoundSync::Event => "Starts when the playhead reaches it, then plays out on its own — it does not stop when the film does."@,
        SoundSync::Start => "Like Event, but will not start a second copy while one is already sounding."@,
        SoundSync::Stop => "Silences this sound from this frame on."@,
        SoundSync::Stream => "Tied to the timeline: scrubbing moves it, and it cannot drift from the picture. Dialogue."@,
    }
}

/// One line on what each sync mode actually does.
pub fn sync_help(sync: SoundSync) -> (r: &'static str)
    ensures
        r@ == sync_help_spec(sync),
{
    match sync {
        SoundSync::Event => "Starts when the playhead reaches it, then plays out on its own — it does not stop when the film does.",
        SoundSync::Start => "Like Event, but will not start a second copy while one is already sounding.",
        SoundSync::Stop => "Silences this sound from this frame on.",
        SoundSync::Stream => "Tied to the timeline: scrubbing moves it, and it cannot drift from the picture. Dialogue.",
    }
}

/// **Every sync mode explains itself, in its own words**: no explanation is
/// empty, and no two modes share one.
pub proof fn every_sync_mode_explains_itself(a: SoundSync, b: SoundSync)
    ensures
        sync_help_spec(a).len() > 0,
        a != b ==> sync_help_spec(a) != sync_help_spec(b),
{
    reveal_strlit("Starts when the playhead reaches it, then plays out on its own — it does not stop when the film does.");
    reveal_strlit("Like Event, but will not start a second copy while one is already sounding.");
    reveal_strlit("Silences this sound from this frame on.");
    reveal_strlit("Tied to the timeline: scrubbing moves it, and it cannot drift from the picture. Dialogue.");
    if a != b {
        let x = sync_help_spec(a);
        let y = sync_help_spec(b);
        if x.len() == y.len() {
            assert(x[0] != y[0] || x[1] != y[1] || x[2] != y[2]);
        }
    }
}

} // verus!
