//! Core of a terminal audio playback controller.
//!
//! The crate verifies the logic that drives playback: a metadata cache with a
//! composable filter engine, a circular playlist navigator, and the player
//! state machine that interprets transport actions against playback state and
//! repeat policy. Decoding, device output, terminal handling and configuration
//! files are collaborators outside this crate; the player reaches the decoder
//! through a caller-supplied open function and never performs I/O itself.

use vstd::prelude::*;

pub mod cache;
pub mod navigator;
pub mod player;
pub mod track;

verus! {

/// Failures surfaced by the playback core to its caller.
///
/// `Decoder` stands for any failure of the external decode collaborator;
/// the surrounding program keeps the collaborator's own error value.
#[derive(Clone, Copy, Debug, PartialEq, Eq, Structural)]
pub enum Error {
    /// No audio output device was available at construction time.
    NoSoundDevice,
    /// A playback primitive needed a loaded sink and none was present.
    SinkState,
    /// The decode collaborator could not open or decode the track.
    Decoder,
    /// A load was attempted while the navigator had no current track.
    TrackSelect,
}

/// The whole action vocabulary: either leave the program, or hand a
/// transport action to the player.
#[derive(Clone, Copy, Debug, PartialEq, Eq, Structural)]
pub enum Action {
    Exit,
    Player(player::Action),
}

/// The first action bound to `key`, scanning the bindings front to back.
pub open spec fn spec_binding(bs: Seq<(char, Action)>, key: char) -> Option<Action>
    decreases bs.len(),
{
    if bs.len() == 0 {
        Option::None
    } else if bs.first().0 == key {
        Option::Some(bs.first().1)
    } else {
        spec_binding(bs.drop_first(), key)
    }
}

/// The first key bound to `action`, scanning the bindings front to back;
/// with keys kept in ascending order this is the smallest such key.
pub open spec fn spec_key(bs: Seq<(char, Action)>, action: Action) -> Option<char>
    decreases bs.len(),
{
    if bs.len() == 0 {
        Option::None
    } else if bs.first().1 == action {
        Option::Some(bs.first().0)
    } else {
        spec_key(bs.drop_first(), action)
    }
}

/// Keys are strictly ascending, so each key occurs once.
pub open spec fn keys_ascending(bs: Seq<(char, Action)>) -> bool {
    forall|i: int, j: int|
        0 <= i < j < bs.len() ==> ((#[trigger] bs[i]).0 as u32) < ((#[trigger] bs[j]).0 as u32)
}

/// Key bindings: which key triggers which action. Kept sorted by key, as
/// the configuration file's map hands them over.
pub struct Config {
    bindings: Vec<(char, Action)>,
}

impl Config {
    /// The bindings as a sequence of key/action pairs, ascending by key.
    pub closed spec fn bindings_seq(&self) -> Seq<(char, Action)> {
        self.bindings@
    }

    /// The keys are strictly ascending.
    pub open spec fn inv(&self) -> bool {
        keys_ascending(self.bindings_seq())
    }

    /// The built-in bindings used when no configuration file exists.
    pub fn default() -> (r: Config)
        ensures
            r.inv(),
            r.bindings_seq() == seq![
                (' ', Action::Player(player::Action::PlaybackToggle)),
                ('<', Action::Player(player::Action::TrackPrevious)),
                ('>', Action::Player(player::Action::TrackNext)),
                ('a', Action::Player(player::Action::RepeatModeCycle)),
                ('q', Action::Exit),
                ('r', Action::Player(player::Action::TrackRewind)),
                ('s', Action::Player(player::Action::PlaybackStop)),
            ],
    {
        let mut bindings: Vec<(char, Action)> = Vec::new();
        bindings.push((' ', Action::Player(player::Action::PlaybackToggle)));
        bindings.push(('<', Action::Player(player::Action::TrackPrevious)));
        bindings.push(('>', Action::Player(player::Action::TrackNext)));
        bindings.push(('a', Action::Player(player::Action::RepeatModeCycle)));
        bindings.push(('q', Action::Exit));
        bindings.push(('r', Action::Player(player::Action::TrackRewind)));
        bindings.push(('s', Action::Player(player::Action::PlaybackStop)));
        proof {
            assert(bindings@ =~= seq![
                (' ', Action::Player(player::Action::PlaybackToggle)),
                ('<', Action::Player(player::Action::TrackPrevious)),
                ('>', Action::Player(player::Action::TrackNext)),
                ('a', Action::Player(player::Action::RepeatModeCycle)),
                ('q', Action::Exit),
                ('r', Action::Player(player::Action::TrackRewind)),
                ('s', Action::Player(player::Action::PlaybackStop)),
            ]);
        }
        Config { bindings }
    }

    /// Take over bindings handed in ascending key order, for instance read
    /// out of a configuration file's ordered map; bindings out of order are
    /// rejected.
    pub fn from_pairs(pairs: Vec<(char, Action)>) -> (r: Option<Config>)
        ensures
            (r is Some) == keys_ascending(pairs@),
            r matches Some(c) ==> c.inv() && c.bindings_seq() == pairs@,
    {
        let n = pairs.len();
        let mut i: usize = 1;
        if n > 0 {
            while i < n
                invariant
                    1 <= i <= n == pairs@.len(),
                    forall|p: int, q: int|
                        0 <= p < q < i ==> ((#[trigger] pairs@[p]).0 as u32) < ((
                        #[trigger] pairs@[q]).0 as u32),
                decreases n - i,
            {
                if pairs[i - 1].0 as u32 >= pairs[i].0 as u32 {
                    return None;
                }
                i = i + 1;
            }
        }
        Some(Config { bindings: pairs })
    }

    /// The action bound to `key`, if any.
    pub fn get_binding(&self, key: char) -> (r: Option<Action>)
        ensures
            r == spec_binding(self.bindings_seq(), key),
    {
        let ghost bs = self.bindings_seq();
        proof {
            assert(bs.skip(0) =~= bs);
        }
        let mut i: usize = 0;
        while i < self.bindings.len()
            invariant
                i <= bs.len(),
                bs == self.bindings_seq(),
                self.bindings_seq().len() == bs.len(),
                spec_binding(bs, key) == spec_binding(bs.skip(i as int), key),
            decreases bs.len() - i,
        {
            proof {
                assert(bs.skip(i as int).drop_first() =~= bs.skip(i + 1));
                assert(bs.skip(i as int).first() == bs[i as int]);
            }
            if self.bindings[i].0 == key {
                return Some(self.bindings[i].1);
            }
            i = i + 1;
        }
        None
    }

    /// The smallest key bound to `action`, if any.
    pub fn get_key(&self, binding: &Action) -> (r: Option<char>)
        ensures
            r == spec_key(self.bindings_seq(), *binding),
    {
        let ghost bs = self.bindings_seq();
        proof {
            assert(bs.skip(0) =~= bs);
        }
        let mut i: usize = 0;
        while i < self.bindings.len()
            invariant
                i <= bs.len(),
                bs == self.bindings_seq(),
                self.bindings_seq().len() == bs.len(),
                spec_key(bs, *binding) == spec_key(bs.skip(i as int), *binding),
            decreases bs.len() - i,
        {
            proof {
                assert(bs.skip(i as int).drop_first() =~= bs.skip(i + 1));
                assert(bs.skip(i as int).first() == bs[i as int]);
            }
            if self.bindings[i].1 == *binding {
                return Some(self.bindings[i].0);
            }
            i = i + 1;
        }
        None
    }
}

} // verus!
