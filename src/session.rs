//! The session log: the submitted commands and their responses, appended in
//! pairs.
use vstd::prelude::*;

verus! {

/// The two logs as sequences of text, oldest first.
pub struct SessionView {
    pub commands: Seq<Seq<char>>,
    pub responses: Seq<Seq<char>>,
}

/// The logs of a session in which nothing was submitted yet.
pub open spec fn empty_session() -> SessionView {
    SessionView { commands: Seq::empty(), responses: Seq::empty() }
}

/// The answer of the built-in responder, whatever the command.
pub open spec fn acknowledgement() -> Seq<char> {
    "Did a thing!"@
}

/// What stands in the response log for a command whose processing failed.
pub open spec fn failure_placeholder() -> Seq<char> {
    "(no response: the command could not be processed)"@
}

/// The response logged for an outcome of processing: the response itself,
/// or the failure placeholder.
pub open spec fn logged_response(outcome: Option<Seq<char>>) -> Seq<char> {
    match outcome {
        Some(text) => text,
        None => failure_placeholder(),
    }
}

/// The logs after one submission of `command` whose processing had `outcome`.
pub open spec fn after_submit(v: SessionView, command: Seq<char>, outcome: Option<Seq<char>>) -> SessionView {
    SessionView {
        commands: v.commands.push(command),
        responses: v.responses.push(logged_response(outcome)),
    }
}

/// The logs after submitting `commands` in order, from an empty session, the
/// i-th with outcome `outcomes[i]`.
pub open spec fn replay(commands: Seq<Seq<char>>, outcomes: Seq<Option<Seq<char>>>) -> SessionView
    decreases commands.len(),
{
    if commands.len() == 0 || outcomes.len() == 0 {
        empty_session()
    } else {
        after_submit(
            replay(commands.drop_last(), outcomes.drop_last()),
            commands.last(),
            outcomes.last(),
        )
    }
}

/// After `n` submissions, whatever their outcomes, each log holds `n` entries:
/// the commands in order, and for each its response or the failure placeholder.
pub proof fn lemma_replay_logs(commands: Seq<Seq<char>>, outcomes: Seq<Option<Seq<char>>>)
    requires
        commands.len() == outcomes.len(),
    ensures
        replay(commands, outcomes).commands.len() == commands.len(),
        replay(commands, outcomes).responses.len() == commands.len(),
        replay(commands, outcomes).commands == commands,
        replay(commands, outcomes).responses == outcomes.map_values(
            |o: Option<Seq<char>>| logged_response(o),
        ),
    decreases commands.len(),
{
    if commands.len() > 0 {
        lemma_replay_logs(commands.drop_last(), outcomes.drop_last());
        assert(commands.drop_last().push(commands.last()) =~= commands);
        assert(outcomes.drop_last().map_values(|o: Option<Seq<char>>| logged_response(o)).push(
            logged_response(outcomes.last()),
        ) =~= outcomes.map_values(|o: Option<Seq<char>>| logged_response(o)));
    } else {
        assert(outcomes.map_values(|o: Option<Seq<char>>| logged_response(o)) =~= Seq::<
            Seq<char>,
        >::empty());
        assert(commands =~= Seq::<Seq<char>>::empty());
    }
}

/// The text of each entry of a log.
pub open spec fn texts(log: Seq<String>) -> Seq<Seq<char>> {
    log.map_values(|s: String| s@)
}

/// The commands submitted in a session and the responses to them. Both logs
/// only grow, and always by one entry each.
pub struct Game {
    response_history: Vec<String>,
    command_history: Vec<String>,
}

impl View for Game {
    type V = SessionView;

    closed spec fn view(&self) -> SessionView {
        SessionView { commands: texts(self.command_history@), responses: texts(self.response_history@) }
    }
}

impl Game {
    /// Both logs hold the same number of entries.
    pub open spec fn wf(&self) -> bool {
        self@.commands.len() == self@.responses.len()
    }

    /// A session with empty logs.
    pub fn new() -> (r: Game)
        ensures
            r@ == empty_session(),
            r.wf(),
    {
        let r = Game { response_history: Vec::new(), command_history: Vec::new() };
        assert(r@.commands =~= Seq::<Seq<char>>::empty());
        assert(r@.responses =~= Seq::<Seq<char>>::empty());
        r
    }

    /// The response log, oldest first.
    pub fn get_history(&self) -> (r: &Vec<String>)
        ensures
            texts(r@) == self@.responses,
    {
        &self.response_history
    }

    /// The command log, oldest first.
    pub fn get_user_inputs(&self) -> (r: &Vec<String>)
        ensures
            texts(r@) == self@.commands,
    {
        &self.command_history
    }

    /// Appends `command` and the response that its processing gave, or the
    /// failure placeholder where `response` is `None`, as one step. Every
    /// command is accepted, the empty one included: the log keeps what was
    /// submitted.
    pub fn submit(&mut self, command: String, response: Option<String>)
        requires
            old(self).wf(),
        ensures
            final(self).wf(),
            final(self)@ == after_submit(
                old(self)@,
                command@,
                match response {
                    Some(t) => Some(t@),
                    None => None,
                },
            ),
    {
        let text = match response {
            Some(t) => t,
            None => "(no response: the command could not be processed)".to_owned(),
        };
        let ghost c = command@;
        let ghost t = text@;
        let ghost before = *self;
        self.command_history.push(command);
        self.response_history.push(text);
        proof {
            reveal_strlit("(no response: the command could not be processed)");
            assert(texts(self.command_history@) =~= texts(before.command_history@).push(c));
            assert(texts(self.response_history@) =~= texts(before.response_history@).push(t));
        }
    }

    /// Submits `command` to the built-in responder, which acknowledges every
    /// command, and logs both.
    pub fn send_command(&mut self, command: String)
        requires
            old(self).wf(),
        ensures
            final(self).wf(),
            final(self)@ == after_submit(old(self)@, command@, Some(acknowledgement())),
    {
        let ack = "Did a thing!".to_owned();
        proof {
            reveal_strlit("Did a thing!");
        }
        self.submit(command, Some(ack));
    }
}

impl Default for Game {
    fn default() -> (r: Game)
        ensures
            r@ == empty_session(),
            r.wf(),
    {
        Game::new()
    }
}

} // verus!
