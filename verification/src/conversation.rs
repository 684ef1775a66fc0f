//! The ordered, mutable log of turns: the single source of truth that the
//! transport layer reads and the agent loop mutates.

use vstd::prelude::*;

use crate::turn::{Turn, TurnView, user_turn};

verus! {

/// What a stream-mode toggle does to the current mode.
pub open spec fn toggled(mode: bool) -> bool {
    !mode
}

/// The conversation log plus the user-selected response-delivery mode.
///
/// The log is append-only during normal operation, except for two explicit
/// mutations: `clear`, and `remove_last_message` (used only to undo a user
/// turn whose request failed before any reply was recorded).
pub struct Conversation {
    turns: Vec<Turn>,
    stream_mode: bool,
}

impl View for Conversation {
    type V = Seq<TurnView>;

    closed spec fn view(&self) -> Seq<TurnView> {
        self.turns@.map_values(|t: Turn| t@)
    }
}

impl Conversation {
    /// Whether the user has selected streamed response delivery.
    pub closed spec fn stream_mode_spec(&self) -> bool {
        self.stream_mode
    }

    /// A fresh, empty conversation in buffered mode.
    pub fn new() -> (c: Conversation)
        ensures
            c@ == Seq::<TurnView>::empty(),
            !c.stream_mode_spec(),
    {
        let c = Conversation { turns: Vec::new(), stream_mode: false };
        proof {
            assert(c@ =~= Seq::<TurnView>::empty());
        }
        c
    }

    /// Number of turns in the log.
    pub fn len(&self) -> (n: usize)
        ensures
            n == self@.len(),
    {
        self.turns.len()
    }

    /// Read one turn of the log.
    pub fn get(&self, i: usize) -> (t: &Turn)
        requires
            i < self@.len(),
        ensures
            t@ == self@[i as int],
    {
        &self.turns[i]
    }

    /// The whole log, for the transport layer to serialize.
    pub fn get_messages(&self) -> (r: &Vec<Turn>)
        ensures
            r@.map_values(|t: Turn| t@) == self@,
    {
        &self.turns
    }

    /// Append one turn to the log.
    pub fn push_turn(&mut self, t: Turn)
        ensures
            final(self)@ == old(self)@.push(t@),
            final(self).stream_mode_spec() == old(self).stream_mode_spec(),
    {
        self.turns.push(t);
        proof {
            assert(self@ =~= old(self)@.push(t@));
        }
    }

    /// Append one user turn holding `content`.
    pub fn add_user_message(&mut self, content: &str)
        ensures
            final(self)@ == old(self)@.push(user_turn(content@)),
            final(self).stream_mode_spec() == old(self).stream_mode_spec(),
    {
        self.push_turn(Turn::user(content));
    }

    /// Remove the most recent turn, if any; used only to roll back a user
    /// turn whose request failed before any reply was recorded.
    pub fn remove_last_message(&mut self)
        ensures
            old(self)@.len() > 0 ==> final(self)@ == old(self)@.drop_last(),
            old(self)@.len() == 0 ==> final(self)@ == old(self)@,
            final(self).stream_mode_spec() == old(self).stream_mode_spec(),
    {
        let _ = self.turns.pop();
        proof {
            if old(self)@.len() > 0 {
                assert(self@ =~= old(self)@.drop_last());
            } else {
                assert(self@ =~= old(self)@);
            }
        }
    }

    /// Truncate the log to empty; the delivery mode is kept.
    pub fn clear(&mut self)
        ensures
            final(self)@ == Seq::<TurnView>::empty(),
            final(self).stream_mode_spec() == old(self).stream_mode_spec(),
    {
        self.turns.clear();
        proof {
            assert(self@ =~= Seq::<TurnView>::empty());
        }
    }

    /// Flip between buffered and streamed response delivery; the log is kept.
    pub fn toggle_stream_mode(&mut self)
        ensures
            final(self).stream_mode_spec() == toggled(old(self).stream_mode_spec()),
            final(self)@ == old(self)@,
    {
        self.stream_mode = !self.stream_mode;
    }

    /// Whether the user has selected streamed response delivery.
    pub fn is_stream_mode(&self) -> (m: bool)
        ensures
            m == self.stream_mode_spec(),
    {
        self.stream_mode
    }
}

/// Law: flipping the delivery mode twice returns to the original mode.
pub proof fn lemma_toggle_twice(mode: bool)
    ensures
        toggled(toggled(mode)) == mode,
{
}

/// Law: appending a turn and then removing the last turn is a no-op on the
/// log, so a failed model call that rolls back its just-appended user turn
/// leaves the conversation exactly as it was before.
pub proof fn lemma_append_then_rollback(log: Seq<TurnView>, t: TurnView)
    ensures
        log.push(t).drop_last() == log,
{
    assert(log.push(t).drop_last() =~= log);
}

/// Law: clearing an empty log is idempotent; the result is the same empty log.
pub proof fn lemma_clear_empty_log(log: Seq<TurnView>)
    requires
        log.len() == 0,
    ensures
        Seq::<TurnView>::empty() == log,
{
    assert(Seq::<TurnView>::empty() =~= log);
}

} // verus!
