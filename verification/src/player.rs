//! Player state machine: transport actions interpreted against playback
//! state, playlist position and repeat policy.
//!
//! The player owns the playlist navigator, an optional live sink of the
//! decode collaborator, and the accumulated playback time. It is generic in
//! the sink type `S` and reaches the collaborator through a caller-supplied
//! `open` function that turns a track path into a sink; the player itself
//! performs no I/O. Every transition is stated over [`PlayerView`], the ghost
//! image of the player.

use vstd::prelude::*;

use crate::Error;
use crate::navigator::Navigator;
use crate::navigator::next_current;
use crate::navigator::prev_current;

verus! {

/// Transport actions the player interprets.
#[derive(Clone, Copy, Debug, PartialEq, Eq, Structural)]
pub enum Action {
    PlaybackToggle,
    PlaybackStop,
    RepeatModeCycle,
    TrackRewind,
    TrackNext,
    TrackPrevious,
    VolumeDecrease,
    VolumeIncrease,
}

/// Playback state of the player.
#[derive(Clone, Copy, Debug, PartialEq, Eq, Structural)]
pub enum State {
    Playing,
    Paused,
    Stopped,
}

/// Policy governing the transition taken when the loaded track runs out.
#[derive(Clone, Copy, Debug, PartialEq, Eq, Structural)]
pub enum Repeate {
    All,
    Single,
    Once,
    Off,
}

impl Repeate {
    /// The fixed cycling order: All, Single, Once, Off, and back to All.
    pub open spec fn spec_cycle(self) -> Repeate {
        match self {
            Repeate::All => Repeate::Single,
            Repeate::Single => Repeate::Once,
            Repeate::Once => Repeate::Off,
            Repeate::Off => Repeate::All,
        }
    }

    /// Advance the repeat mode one step along the fixed cycle.
    pub fn cycle(&self) -> (r: Repeate)
        ensures
            r == self.spec_cycle(),
    {
        match self {
            Repeate::All => Repeate::Single,
            Repeate::Single => Repeate::Once,
            Repeate::Once => Repeate::Off,
            Repeate::Off => Repeate::All,
        }
    }
}

/// Ghost image of a player: playback state, repeat policy, whether a sink is
/// live, the playlist with its two cursors, and the accumulated playback
/// time in milliseconds.
#[verifier::ext_equal]
pub struct PlayerView {
    pub state: State,
    pub repeat: Repeate,
    pub sink_loaded: bool,
    pub tracks: Seq<String>,
    pub current: int,
    pub last: int,
    pub playback_time: u64,
}

/// Addition on playback time that sticks at the largest representable value.
pub open spec fn sat_add(a: u64, b: u64) -> u64 {
    if a + b > u64::MAX {
        u64::MAX
    } else {
        (a + b) as u64
    }
}

/// Outcome of `stop`: a live sink is destroyed, the state becomes `Stopped`
/// and the playback time is reset; without a sink nothing changes.
pub open spec fn stop_step(v: PlayerView) -> PlayerView {
    if v.sink_loaded {
        PlayerView { state: State::Stopped, sink_loaded: false, playback_time: 0, ..v }
    } else {
        v
    }
}

/// Outcome of pausing the live sink.
pub open spec fn pause_step(v: PlayerView) -> PlayerView {
    PlayerView { state: State::Paused, ..v }
}

/// Outcome of resuming the live sink without a reload.
pub open spec fn resume_step(v: PlayerView) -> PlayerView {
    PlayerView { state: State::Playing, ..v }
}

/// Outcome of a successful load of the current track followed by play: a
/// sink is live, `last` records the loaded position, and the player plays.
pub open spec fn play_reload(v: PlayerView) -> PlayerView {
    PlayerView { state: State::Playing, sink_loaded: true, last: v.current, ..v }
}

/// Outcome of `stop` followed by a forward cursor move.
pub open spec fn advanced_next(v: PlayerView) -> PlayerView {
    let s = stop_step(v);
    if s.tracks.len() == 0 {
        s
    } else {
        PlayerView { last: s.current, current: next_current(s.current, s.tracks.len() as int), ..s }
    }
}

/// Outcome of `stop` followed by a backward cursor move.
pub open spec fn advanced_prev(v: PlayerView) -> PlayerView {
    let s = stop_step(v);
    if s.tracks.len() == 0 {
        s
    } else {
        PlayerView { last: s.current, current: prev_current(s.current, s.tracks.len() as int), ..s }
    }
}

/// Outcome of the periodic time accounting: while playing, the elapsed
/// interval is added to the playback time.
pub open spec fn tick_step(v: PlayerView, elapsed: u64) -> PlayerView {
    if v.state == State::Playing {
        PlayerView { playback_time: sat_add(v.playback_time, elapsed), ..v }
    } else {
        v
    }
}

/// The decode collaborator, handed `path`, can answer `Err(e)`. An error
/// surfaced out of a load is the collaborator's own answer for the current
/// track, never one the player invents.
pub open spec fn open_failed<S, F: Fn(String) -> Result<S, Error>>(
    open: F,
    path: String,
    e: Error,
) -> bool {
    call_ensures(open, (path,), Result::<S, Error>::Err(e))
}

/// Contract of `PlaybackToggle`, relating the old view `o`, the new view `n`
/// and the result `r`.
pub open spec fn toggle_post<S, F: Fn(String) -> Result<S, Error>>(
    open: F,
    o: PlayerView,
    n: PlayerView,
    r: Result<(), Error>,
) -> bool {
    &&& (o.state == State::Playing ==> r is Ok && n == pause_step(o))
    &&& (o.state == State::Paused && o.current == o.last ==> r is Ok && n == resume_step(o))
    &&& (o.state == State::Paused && o.current != o.last ==> match r {
        Ok(_) => n == play_reload(o),
        Err(e) => n == o && open_failed::<S, F>(open, o.tracks[o.current], e),
    })
    &&& (o.state == State::Stopped && o.tracks.len() == 0 ==> r == Result::<(), Error>::Err(
        Error::TrackSelect,
    ) && n == o)
    &&& (o.state == State::Stopped && o.tracks.len() > 0 ==> match r {
        Ok(_) => n == play_reload(o),
        Err(e) => n == o && open_failed::<S, F>(open, o.tracks[o.current], e),
    })
}

/// Contract of `TrackRewind`: stop, reload the current track, play.
pub open spec fn rewind_post<S, F: Fn(String) -> Result<S, Error>>(
    open: F,
    o: PlayerView,
    n: PlayerView,
    r: Result<(), Error>,
) -> bool {
    &&& (o.tracks.len() == 0 ==> r == Result::<(), Error>::Err(Error::TrackSelect) && n
        == stop_step(o))
    &&& (o.tracks.len() > 0 ==> match r {
        Ok(_) => n == play_reload(stop_step(o)),
        Err(e) => n == stop_step(o) && open_failed::<S, F>(open, o.tracks[o.current], e),
    })
}

/// Contract of `TrackNext`: stop, advance, and reload only if the player was
/// playing before.
pub open spec fn next_post<S, F: Fn(String) -> Result<S, Error>>(
    open: F,
    o: PlayerView,
    n: PlayerView,
    r: Result<(), Error>,
) -> bool {
    &&& (o.state != State::Playing ==> r is Ok && n == advanced_next(o))
    &&& (o.state == State::Playing ==> match r {
        Ok(_) => n == play_reload(advanced_next(o)),
        Err(e) => n == advanced_next(o) && open_failed::<S, F>(
            open,
            advanced_next(o).tracks[advanced_next(o).current],
            e,
        ),
    })
}

/// Contract of `TrackPrevious`, symmetric to `TrackNext`.
pub open spec fn prev_post<S, F: Fn(String) -> Result<S, Error>>(
    open: F,
    o: PlayerView,
    n: PlayerView,
    r: Result<(), Error>,
) -> bool {
    &&& (o.state != State::Playing ==> r is Ok && n == advanced_prev(o))
    &&& (o.state == State::Playing ==> match r {
        Ok(_) => n == play_reload(advanced_prev(o)),
        Err(e) => n == advanced_prev(o) && open_failed::<S, F>(
            open,
            advanced_prev(o).tracks[advanced_prev(o).current],
            e,
        ),
    })
}

/// The player: playback state, repeat policy, the optional live sink, the
/// playlist navigator, and accumulated playback time.
pub struct Player<S> {
    state: State,
    repeat: Repeate,
    sink: Option<S>,
    nav: Navigator,
    playback_time: u64,
}

impl<S> View for Player<S> {
    type V = PlayerView;

    closed spec fn view(&self) -> PlayerView {
        PlayerView {
            state: self.state,
            repeat: self.repeat,
            sink_loaded: self.sink is Some,
            tracks: self.nav@.tracks,
            current: self.nav@.current,
            last: self.nav@.last,
            playback_time: self.playback_time,
        }
    }
}

impl<S> Player<S> {
    /// The player's invariant: the state is `Stopped` exactly while no sink
    /// is live, a live sink implies a non-empty playlist, and the cursors
    /// are valid positions.
    pub open spec fn inv(&self) -> bool {
        &&& (self@.state == State::Stopped <==> !self@.sink_loaded)
        &&& (self@.sink_loaded ==> self@.tracks.len() > 0)
        &&& (if self@.tracks.len() == 0 {
            self@.current == 0 && self@.last == 0
        } else {
            0 <= self@.current < self@.tracks.len() && 0 <= self@.last < self@.tracks.len()
        })
    }

    /// A stopped player with an empty queue, no sink, and repeat off.
    pub fn new() -> (r: Self)
        ensures
            r.inv(),
            r@ == (PlayerView {
                state: State::Stopped,
                repeat: Repeate::Off,
                sink_loaded: false,
                tracks: Seq::<String>::empty(),
                current: 0,
                last: 0,
                playback_time: 0,
            }),
    {
        Self {
            state: State::Stopped,
            repeat: Repeate::Off,
            sink: None,
            nav: Navigator::new(),
            playback_time: 0,
        }
    }

    /// Append a track to the end of the queue; nothing else moves.
    pub fn enqueue(&mut self, track: String)
        requires
            old(self).inv(),
        ensures
            final(self).inv(),
            final(self)@ == (PlayerView { tracks: old(self)@.tracks.push(track), ..old(self)@ }),
    {
        self.nav.enqueue(track);
    }

    /// The current playback state.
    pub fn state(&self) -> (r: State)
        ensures
            r == self@.state,
    {
        self.state
    }

    /// The current repeat policy.
    pub fn repeat(&self) -> (r: Repeate)
        ensures
            r == self@.repeat,
    {
        self.repeat
    }

    /// The accumulated playback time in milliseconds.
    pub fn playback_time(&self) -> (r: u64)
        ensures
            r == self@.playback_time,
    {
        self.playback_time
    }

    /// The track at the current position, or nothing on an empty queue.
    pub fn now_playing(&self) -> (r: Option<&String>)
        requires
            self.inv(),
        ensures
            self@.tracks.len() == 0 ==> r is None,
            self@.tracks.len() > 0 ==> (r matches Some(t) && *t == self@.tracks[self@.current]),
    {
        self.nav.track()
    }

    /// The live sink, for the surrounding program to drive the device with.
    pub fn sink_ref(&self) -> (r: Option<&S>)
        ensures
            (r is Some) == self@.sink_loaded,
    {
        match &self.sink {
            Some(s) => Some(s),
            None => None,
        }
    }

    /// Resume or start device output. Needs a live sink.
    fn play(&mut self) -> (r: Result<(), Error>)
        ensures
            old(self).sink is None ==> r == Result::<(), Error>::Err(Error::SinkState)
                && *final(self) == *old(self),
            old(self).sink is Some ==> r is Ok && final(self).state == State::Playing
                && final(self).sink == old(self).sink && final(self).nav == old(self).nav
                && final(self).repeat == old(self).repeat
                && final(self).playback_time == old(self).playback_time,
    {
        match &self.sink {
            None => Err(Error::SinkState),
            Some(_) => {
                self.state = State::Playing;
                Ok(())
            },
        }
    }

    /// Suspend device output. Needs a live sink.
    fn pause(&mut self) -> (r: Result<(), Error>)
        ensures
            old(self).sink is None ==> r == Result::<(), Error>::Err(Error::SinkState)
                && *final(self) == *old(self),
            old(self).sink is Some ==> r is Ok && final(self).state == State::Paused
                && final(self).sink == old(self).sink && final(self).nav == old(self).nav
                && final(self).repeat == old(self).repeat
                && final(self).playback_time == old(self).playback_time,
    {
        match &self.sink {
            None => Err(Error::SinkState),
            Some(_) => {
                self.state = State::Paused;
                Ok(())
            },
        }
    }

    /// Destroy the live sink, if any, entering `Stopped` and resetting the
    /// playback time; without a sink this is a no-op success.
    fn stop(&mut self) -> (r: Result<(), Error>)
        ensures
            r is Ok,
            final(self)@ == stop_step(old(self)@),
            final(self).nav == old(self).nav,
            old(self).sink is None ==> *final(self) == *old(self),
    {
        if self.sink.is_some() {
            self.sink = None;
            self.state = State::Stopped;
            self.playback_time = 0;
        }
        Ok(())
    }

    /// Resolve the current track and open it through the collaborator; on
    /// success the new sink replaces any old one and `last` records the
    /// loaded position. The collaborator's sink starts paused; the state is
    /// untouched here.
    fn load<F: Fn(String) -> Result<S, Error>>(&mut self, open: F) -> (r: Result<(), Error>)
        requires
            old(self).nav.inv(),
            forall|p: String| #[trigger] call_requires(open, (p,)),
        ensures
            final(self).nav.inv(),
            old(self).nav@.tracks.len() == 0 ==> r == Result::<(), Error>::Err(Error::TrackSelect)
                && *final(self) == *old(self),
            old(self).nav@.tracks.len() > 0 ==> match r {
                Ok(_) => final(self).sink is Some
                    && final(self).nav@.tracks == old(self).nav@.tracks
                    && final(self).nav@.current == old(self).nav@.current
                    && final(self).nav@.last == old(self).nav@.current
                    && final(self).state == old(self).state
                    && final(self).repeat == old(self).repeat
                    && final(self).playback_time == old(self).playback_time,
                Err(e) => *final(self) == *old(self) && call_ensures(
                    open,
                    (old(self).nav@.tracks[old(self).nav@.current],),
                    Result::<S, Error>::Err(e),
                ),
            },
    {
        let track: String = match self.nav.track() {
            None => {
                return Err(Error::TrackSelect);
            },
            Some(t) => t.clone(),
        };
        match open(track) {
            Ok(s) => {
                self.sink = Some(s);
                self.nav.mark_loaded();
                Ok(())
            },
            Err(e) => Err(e),
        }
    }

    /// The `PlaybackToggle` transition: pause while playing; resume while
    /// paused, reloading first only if the track changed since the last
    /// load; load and play from stopped.
    fn toggle<F: Fn(String) -> Result<S, Error>>(&mut self, open: F) -> (r: Result<(), Error>)
        requires
            old(self).inv(),
            forall|p: String| #[trigger] call_requires(open, (p,)),
        ensures
            final(self).inv(),
            toggle_post::<S, F>(open, old(self)@, final(self)@, r),
    {
        match self.state {
            State::Playing => self.pause(),
            State::Paused => {
                let (last, current, _len) = self.nav.position();
                if current != last {
                    match self.load(open) {
                        Err(e) => {
                            return Err(e);
                        },
                        Ok(_) => {},
                    }
                }
                self.play()
            },
            State::Stopped => {
                match self.load(open) {
                    Err(e) => {
                        return Err(e);
                    },
                    Ok(_) => {},
                }
                self.play()
            },
        }
    }

    /// Interpret one transport action against the current state, per the
    /// transition table: see the `*_post` relations for what each action
    /// does and when it fails.
    pub fn execute<F: Fn(String) -> Result<S, Error>>(&mut self, action: Action, open: F) -> (r:
        Result<(), Error>)
        requires
            old(self).inv(),
            forall|p: String| #[trigger] call_requires(open, (p,)),
        ensures
            final(self).inv(),
            action == Action::PlaybackToggle ==> toggle_post::<S, F>(
                open,
                old(self)@,
                final(self)@,
                r,
            ),
            action == Action::PlaybackStop ==> r is Ok && final(self)@ == stop_step(old(self)@),
            action == Action::TrackRewind ==> rewind_post::<S, F>(
                open,
                old(self)@,
                final(self)@,
                r,
            ),
            action == Action::TrackNext ==> next_post::<S, F>(open, old(self)@, final(self)@, r),
            action == Action::TrackPrevious ==> prev_post::<S, F>(
                open,
                old(self)@,
                final(self)@,
                r,
            ),
            action == Action::RepeatModeCycle ==> r is Ok && final(self)@ == (PlayerView {
                repeat: old(self)@.repeat.spec_cycle(),
                ..old(self)@
            }),
            (action == Action::VolumeDecrease || action == Action::VolumeIncrease) ==> r is Ok
                && final(self)@ == old(self)@,
    {
        match action {
            Action::PlaybackToggle => self.toggle(open),
            Action::PlaybackStop => self.stop(),
            Action::TrackRewind => {
                match self.stop() {
                    Err(e) => {
                        return Err(e);
                    },
                    Ok(_) => {},
                }
                match self.load(open) {
                    Err(e) => {
                        return Err(e);
                    },
                    Ok(_) => {},
                }
                self.play()
            },
            Action::TrackNext => {
                let was_playing = self.state == State::Playing;
                match self.stop() {
                    Err(e) => {
                        return Err(e);
                    },
                    Ok(_) => {},
                }
                self.nav.next();
                if was_playing {
                    self.toggle(open)
                } else {
                    Ok(())
                }
            },
            Action::TrackPrevious => {
                let was_playing = self.state == State::Playing;
                match self.stop() {
                    Err(e) => {
                        return Err(e);
                    },
                    Ok(_) => {},
                }
                self.nav.prev();
                if was_playing {
                    self.toggle(open)
                } else {
                    Ok(())
                }
            },
            Action::RepeatModeCycle => {
                self.repeat = self.repeat.cycle();
                Ok(())
            },
            Action::VolumeDecrease | Action::VolumeIncrease => Ok(()),
        }
    }

    /// Periodic update for one tick: while playing, account the elapsed
    /// milliseconds; then, if a sink is live and reports its queued audio
    /// exhausted, dispatch exactly the one transition the repeat policy
    /// selects, and otherwise dispatch nothing.
    pub fn update<F: Fn(String) -> Result<S, Error>>(
        &mut self,
        elapsed: u64,
        exhausted: bool,
        open: F,
    ) -> (r: Result<(), Error>)
        requires
            old(self).inv(),
            forall|p: String| #[trigger] call_requires(open, (p,)),
        ensures
            final(self).inv(),
            !(old(self)@.sink_loaded && exhausted) ==> r is Ok && final(self)@ == tick_step(
                old(self)@,
                elapsed,
            ),
            old(self)@.sink_loaded && exhausted ==> ({
                let t = tick_step(old(self)@, elapsed);
                match old(self)@.repeat {
                    Repeate::Off => r is Ok && final(self)@ == stop_step(t),
                    Repeate::All => next_post::<S, F>(open, t, final(self)@, r),
                    Repeate::Single => rewind_post::<S, F>(open, t, final(self)@, r),
                    Repeate::Once => if t.current != t.tracks.len() - 1 {
                        next_post::<S, F>(open, t, final(self)@, r)
                    } else {
                        r is Ok && final(self)@ == stop_step(t)
                    },
                }
            }),
    {
        if self.state == State::Playing {
            self.playback_time = self.playback_time.saturating_add(elapsed);
        }
        if self.sink.is_some() && exhausted {
            match self.repeat {
                Repeate::Off => self.execute(Action::PlaybackStop, open),
                Repeate::All => self.execute(Action::TrackNext, open),
                Repeate::Single => self.execute(Action::TrackRewind, open),
                Repeate::Once => {
                    let at_end = self.nav_at_end();
                    let action = if !at_end {
                        Action::TrackNext
                    } else {
                        Action::PlaybackStop
                    };
                    self.execute(action, open)
                },
            }
        } else {
            Ok(())
        }
    }

    /// Whether the current position is the final one.
    fn nav_at_end(&self) -> (r: bool)
        requires
            self.nav.inv(),
        ensures
            r == (self@.current == self@.tracks.len() - 1),
    {
        self.nav.at_end()
    }
}

/// The digit character for a value below ten.
pub open spec fn digit_char(d: int) -> char {
    ((48 + d) as u8) as char
}

/// A number rendered in decimal, most significant digit first.
pub open spec fn dec_str(n: nat) -> Seq<char>
    decreases n,
{
    if n < 10 {
        seq![digit_char(n as int)]
    } else {
        dec_str((n / 10) as nat).push(digit_char((n % 10) as int))
    }
}

/// The one-character mark the status line uses for a playback state.
pub open spec fn state_mark(s: State) -> Seq<char> {
    match s {
        State::Playing => ">"@,
        State::Paused => "="@,
        State::Stopped => "x"@,
    }
}

/// The four-character mark the status line uses for a repeat policy.
pub open spec fn repeat_mark(r: Repeate) -> Seq<char> {
    match r {
        Repeate::All => "@all"@,
        Repeate::Single => "@1  "@,
        Repeate::Once => "--> "@,
        Repeate::Off => "    "@,
    }
}

/// The whole status line: position and queue length, the state and repeat
/// marks, and the current track's path.
pub open spec fn info_spec(v: PlayerView) -> Seq<char> {
    "["@ + dec_str((v.current + 1) as nat) + "/"@ + dec_str(v.tracks.len()) + "] "@ + state_mark(
        v.state,
    ) + " "@ + repeat_mark(v.repeat) + ": "@ + (if v.tracks.len() > 0 {
        v.tracks[v.current]@
    } else {
        "No track in queue..."@
    })
}

/// Append one decimal digit character.
fn push_digit(s: &mut String, d: u8)
    requires
        d < 10,
    ensures
        final(s)@ == old(s)@.push(digit_char(d as int)),
{
    let piece: &str = match d {
        0 => "0",
        1 => "1",
        2 => "2",
        3 => "3",
        4 => "4",
        5 => "5",
        6 => "6",
        7 => "7",
        8 => "8",
        _ => "9",
    };
    proof {
        reveal_strlit("0");
        reveal_strlit("1");
        reveal_strlit("2");
        reveal_strlit("3");
        reveal_strlit("4");
        reveal_strlit("5");
        reveal_strlit("6");
        reveal_strlit("7");
        reveal_strlit("8");
        reveal_strlit("9");
    }
    s.append(piece);
    proof {
        assert(old(s)@ + piece@ =~= old(s)@.push(digit_char(d as int)));
    }
}

/// Render a number in decimal.
fn u64_dec(n: u64) -> (r: String)
    ensures
        r@ == dec_str(n as nat),
    decreases n,
{
    let mut s = if n >= 10 {
        u64_dec(n / 10)
    } else {
        String::new()
    };
    push_digit(&mut s, (n % 10) as u8);
    proof {
        if n < 10 {
            assert(Seq::<char>::empty().push(digit_char(n as int)) =~= dec_str(n as nat));
        }
    }
    s
}

impl<S> Player<S> {
    /// One status line: `[position/length] state repeat: track`, with the
    /// position counted from one and a fixed phrase standing in for the
    /// track of an empty queue.
    pub fn info(&self) -> (r: String)
        requires
            self.inv(),
        ensures
            r@ == info_spec(self@),
    {
        let (_last, current, len) = self.nav.position();
        let mut s = String::from_str("[");
        let shown = u64_dec(current as u64 + 1);
        s.append(shown.as_str());
        s.append("/");
        let total = u64_dec(len as u64);
        s.append(total.as_str());
        s.append("] ");
        s.append(
            match self.state {
                State::Playing => ">",
                State::Paused => "=",
                State::Stopped => "x",
            },
        );
        s.append(" ");
        s.append(
            match self.repeat {
                Repeate::All => "@all",
                Repeate::Single => "@1  ",
                Repeate::Once => "--> ",
                Repeate::Off => "    ",
            },
        );
        s.append(": ");
        match self.nav.track() {
            Some(t) => s.append(t.as_str()),
            None => s.append("No track in queue..."),
        }
        proof {
            assert(s@ =~= info_spec(self@));
        }
        s
    }
}

/// Stopping is idempotent. For a view whose state agrees with whether a sink
/// is live, one stop ends in `Stopped` with no sink, and a second stop
/// changes nothing; the `PlaybackStop` action reports success from every
/// state.
pub proof fn lemma_stop_idempotent(v: PlayerView)
    requires
        v.state == State::Stopped <==> !v.sink_loaded,
    ensures
        stop_step(v).state == State::Stopped,
        !stop_step(v).sink_loaded,
        stop_step(stop_step(v)) == stop_step(v),
{
}

} // verus!

