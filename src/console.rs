//! The per-frame decisions of the console: which keys changed, when the
//! input line asks for focus, and when the typed line is submitted.
use vstd::prelude::*;
use crate::keys::{KeyDelta, KeyTracker, released_of};
use crate::prefs::{Preferences, PrefsView};
use crate::session::{Game, SessionView, empty_session, after_submit, acknowledgement};

verus! {

/// The console's state as plain values.
pub struct ConsoleView {
    pub prefs: PrefsView,
    pub session: SessionView,
    /// The keys down at the last snapshot.
    pub keys_down: Set<u64>,
    /// The keys that came up at the last snapshot.
    pub released: Set<u64>,
}

/// The state of the console between frames: the preferences, which are
/// persisted, and the session and key state, which are not.
pub struct Console {
    prefs: Preferences,
    game: Game,
    keys: KeyTracker,
    delta: KeyDelta,
}

impl View for Console {
    type V = ConsoleView;

    closed spec fn view(&self) -> ConsoleView {
        ConsoleView {
            prefs: self.prefs@,
            session: self.game@,
            keys_down: self.keys@,
            released: self.delta.released@.to_set(),
        }
    }
}

impl Console {
    /// Both logs of the session hold the same number of entries.
    pub open spec fn wf(&self) -> bool {
        self@.session.commands.len() == self@.session.responses.len()
    }

    /// A console that starts with `prefs`, an empty session and no key down.
    pub fn new(prefs: Preferences) -> (r: Console)
        ensures
            r.wf(),
            r@.prefs == prefs@,
            r@.session == empty_session(),
            r@.keys_down == Set::<u64>::empty(),
            r@.released == Set::<u64>::empty(),
    {
        let r = Console { prefs, game: Game::new(), keys: KeyTracker::new(), delta: KeyDelta::empty() };
        assert(r.delta.released@.to_set() =~= Set::<u64>::empty());
        r
    }

    /// The preferences as they stand, for saving.
    pub fn preferences(&self) -> (r: &Preferences)
        ensures
            r@ == self@.prefs,
    {
        &self.prefs
    }

    /// The session, for drawing the scrollback.
    pub fn game(&self) -> (r: &Game)
        ensures
            r@ == self@.session,
            self.wf() ==> r.wf(),
    {
        &self.game
    }

    /// Replaces the text of the input line with what the user edited.
    pub fn set_user_input(&mut self, text: String)
        ensures
            final(self)@ == (ConsoleView {
                prefs: PrefsView { user_input: text@, ..old(self)@.prefs },
                ..old(self)@
            }),
    {
        self.prefs.user_input = text;
    }

    /// Takes the keys down in this frame and returns what changed since the
    /// last frame.
    pub fn begin_frame(&mut self, keys_down: Vec<u64>) -> (r: &KeyDelta)
        ensures
            final(self)@.keys_down == keys_down@.to_set(),
            final(self)@.released == released_of(old(self)@.keys_down, keys_down@.to_set()),
            r.released@.to_set() == final(self)@.released,
            final(self)@.prefs == old(self)@.prefs,
            final(self)@.session == old(self)@.session,
    {
        self.delta = self.keys.update(keys_down);
        &self.delta
    }

    /// Whether the input line is to take the focus in this frame; a request
    /// is answered once.
    pub fn take_focus_request(&mut self) -> (r: bool)
        ensures
            r == old(self)@.prefs.refocus_input,
            final(self)@ == (ConsoleView {
                prefs: PrefsView { refocus_input: false, ..old(self)@.prefs },
                ..old(self)@
            }),
    {
        let r = self.prefs.refocus_input;
        self.prefs.refocus_input = false;
        r
    }

    /// Ends the frame's input: where the send button was clicked or the key
    /// `enter` came up in this frame, submits the typed line, empties the
    /// input line and asks for the focus again. An empty line is submitted
    /// like any other. Returns whether it submitted.
    pub fn end_frame(&mut self, send_clicked: bool, enter: u64) -> (r: bool)
        requires
            old(self).wf(),
        ensures
            final(self).wf(),
            r == (send_clicked || old(self)@.released.contains(enter)),
            r ==> final(self)@ == (ConsoleView {
                prefs: PrefsView {
                    user_input: Seq::empty(),
                    refocus_input: true,
                    ..old(self)@.prefs
                },
                session: after_submit(
                    old(self)@.session,
                    old(self)@.prefs.user_input,
                    Some(acknowledgement()),
                ),
                ..old(self)@
            }),
            !r ==> final(self)@ == old(self)@,
    {
        let released = self.delta.is_released(enter);
        proof {
            if self.delta.released@.contains(enter) {
                assert(self.delta.released@.to_set().contains(enter));
            }
        }
        if send_clicked || released {
            let mut line = String::new();
            std::mem::swap(&mut self.prefs.user_input, &mut line);
            self.game.send_command(line);
            self.prefs.refocus_input = true;
            true
        } else {
            false
        }
    }
}

} // verus!
