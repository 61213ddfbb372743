//! The feedback sounds played when recording starts, stops or succeeds.

use vstd::prelude::*;
use crate::text::same_text;

verus! {

/// One of the bundled sound clips.
#[derive(Clone, Copy, Debug, PartialEq, Eq, Structural)]
pub enum Sound {
    Start,
    Stop,
    Success,
}

/// The clip that a sound name selects: the system names "Tink" and "Pop"
/// are accepted beside "Start" and "Stop"; an unknown name plays the start clip.
pub open spec fn sound_for_name_spec(name: Seq<char>) -> Sound {
    if name == "Tink"@ || name == "Start"@ {
        Sound::Start
    } else if name == "Pop"@ || name == "Stop"@ {
        Sound::Stop
    } else if name == "Success"@ {
        Sound::Success
    } else {
        Sound::Start
    }
}

/// The clip that a sound name selects.
pub fn sound_for_name(name: &str) -> (res: Sound)
    ensures
        res == sound_for_name_spec(name@),
{
    if same_text(name, "Tink") || same_text(name, "Start") {
        Sound::Start
    } else if same_text(name, "Pop") || same_text(name, "Stop") {
        Sound::Stop
    } else if same_text(name, "Success") {
        Sound::Success
    } else {
        Sound::Start
    }
}

impl Sound {
    pub open spec fn name_spec(self) -> Seq<char> {
        match self {
            Sound::Start => "Start"@,
            Sound::Stop => "Stop"@,
            Sound::Success => "Success"@,
        }
    }

    /// The name under which the clip is requested.
    pub fn name(&self) -> (res: &'static str)
        ensures
            res@ == self.name_spec(),
    {
        match self {
            Sound::Start => "Start",
            Sound::Stop => "Stop",
            Sound::Success => "Success",
        }
    }
}

/// Requesting a clip by its own name plays that clip.
pub proof fn lemma_sound_name_round_trip(s: Sound)
    ensures
        sound_for_name_spec(s.name_spec()) == s,
{
    reveal_strlit("Start");
    reveal_strlit("Stop");
    reveal_strlit("Success");
    reveal_strlit("Tink");
    reveal_strlit("Pop");
    assert("Stop"@[0] != "Tink"@[0]);
    assert("Stop"@.len() != "Start"@.len());
    assert("Success"@.len() != "Tink"@.len());
    assert("Success"@.len() != "Start"@.len());
    assert("Success"@.len() != "Pop"@.len());
    assert("Success"@.len() != "Stop"@.len());
}

/// The system clip names are aliases: "Tink" plays the start clip and
/// "Pop" the stop clip; a name that is none of the known ones plays the
/// start clip.
pub proof fn lemma_sound_aliases(name: Seq<char>)
    ensures
        sound_for_name_spec("Tink"@) == Sound::Start,
        sound_for_name_spec("Pop"@) == Sound::Stop,
        (name != "Tink"@ && name != "Start"@ && name != "Pop"@ && name != "Stop"@ && name
            != "Success"@) ==> sound_for_name_spec(name) == Sound::Start,
{
    reveal_strlit("Tink");
    reveal_strlit("Start");
    reveal_strlit("Pop");
    assert("Pop"@.len() != "Tink"@.len());
    assert("Pop"@.len() != "Start"@.len());
}

} // verus!
