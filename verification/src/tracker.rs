//! Tracking of the work that the previous frame left on the device.

use vstd::prelude::*;

verus! {

/// How far the work behind a token has come.
#[derive(Clone, Copy, Debug, PartialEq, Eq, Structural)]
pub enum TokenState {
    /// The device has not signalled completion yet.
    Pending,
    /// The device has signalled completion; what the work used is still held.
    Completed,
    /// Completion was observed and what the work used has been released.
    Released,
}

/// Stands for "the device has signalled completion of one submission".
#[derive(Clone, Copy, Debug, PartialEq, Eq, Structural)]
pub struct Token {
    /// Names the submission. Chosen by whoever submits.
    pub id: u64,
    pub state: TokenState,
}

impl Token {
    /// The token of work that finished before it began: nothing waits on it.
    pub open spec fn placeholder() -> Token {
        Token { id: 0, state: TokenState::Completed }
    }

    pub open spec fn finished(self) -> bool {
        self.state != TokenState::Pending
    }

    /// The token after the tracker has released what it can.
    pub open spec fn retired(self) -> Token {
        if self.state == TokenState::Completed {
            Token { id: self.id, state: TokenState::Released }
        } else {
            self
        }
    }

    /// The token after the device has signalled the submission `id`.
    pub open spec fn signalled(self, id: u64) -> Token {
        if self.id == id && self.state == TokenState::Pending {
            Token { id: self.id, state: TokenState::Completed }
        } else {
            self
        }
    }

    /// A token that is complete from the start.
    pub fn completed() -> (t: Token)
        ensures
            t == Token::placeholder(),
    {
        Token { id: 0, state: TokenState::Completed }
    }

    /// The token of a submission that the device has just accepted.
    pub fn submitted(id: u64) -> (t: Token)
        ensures
            t == (Token { id, state: TokenState::Pending }),
    {
        Token { id, state: TokenState::Pending }
    }

    pub fn is_finished(&self) -> (r: bool)
        ensures
            r == self.finished(),
    {
        match self.state {
            TokenState::Pending => false,
            _ => true,
        }
    }
}

/// Holds the token of the frame submitted last. Between two frames it holds
/// exactly one; while a frame is being submitted, none.
#[derive(Clone, Copy, Debug, PartialEq, Eq, Structural)]
pub struct FrameTracker {
    pub outstanding: Option<Token>,
}

impl FrameTracker {
    /// How many tokens are tracked: none or one, never more.
    pub open spec fn count(&self) -> nat {
        if self.outstanding.is_some() {
            1
        } else {
            0
        }
    }

    /// The tracker after `retire_completed`.
    pub open spec fn after_retire(self) -> FrameTracker {
        match self.outstanding {
            Some(token) => FrameTracker { outstanding: Some(token.retired()) },
            None => self,
        }
    }

    /// Whether `retire_completed` has anything to release.
    pub open spec fn can_release(self) -> bool {
        self.outstanding matches Some(token) && token.state == TokenState::Completed
    }

    /// The tracker after `take_outstanding`.
    pub open spec fn after_take(self) -> FrameTracker {
        FrameTracker { outstanding: None }
    }

    /// The tracker after `track`.
    pub open spec fn after_track(self, token: Token) -> FrameTracker {
        FrameTracker { outstanding: Some(token) }
    }

    /// The tracker after the device has signalled the submission `id`.
    pub open spec fn after_signal(self, id: u64) -> FrameTracker {
        match self.outstanding {
            Some(token) => FrameTracker { outstanding: Some(token.signalled(id)) },
            None => self,
        }
    }

    /// A tracker that holds an already completed token, so that the first
    /// frame has something to wait on.
    pub fn new() -> (t: FrameTracker)
        ensures
            t.outstanding == Some(Token::placeholder()),
            t.count() == 1,
    {
        FrameTracker { outstanding: Some(Token::completed()) }
    }

    /// Releases what the tracked work used, if that work has finished and
    /// it has not been released before. Says whether anything was released.
    pub fn retire_completed(&mut self) -> (released: bool)
        ensures
            *final(self) == old(self).after_retire(),
            released == old(self).can_release(),
            final(self).count() == old(self).count(),
    {
        match self.outstanding {
            Some(token) => {
                match token.state {
                    TokenState::Completed => {
                        self.outstanding = Some(Token { id: token.id, state: TokenState::Released });
                        true
                    },
                    _ => false,
                }
            },
            None => false,
        }
    }

    /// Removes the tracked token and hands it out. Nothing is tracked
    /// afterwards, until `track` is called.
    pub fn take_outstanding(&mut self) -> (token: Token)
        requires
            old(self).count() == 1,
        ensures
            Some(token) == old(self).outstanding,
            *final(self) == old(self).after_take(),
            final(self).count() == 0,
    {
        let token = self.outstanding.unwrap();
        self.outstanding = None;
        token
    }

    /// Makes `token` the tracked one, in place of any other.
    pub fn track(&mut self, token: Token)
        ensures
            *final(self) == old(self).after_track(token),
            final(self).outstanding == Some(token),
            final(self).count() == 1,
    {
        self.outstanding = Some(token);
    }

    /// Records that the device has signalled completion of the submission
    /// `id`. Only the tracked token of that name is affected.
    pub fn signal(&mut self, id: u64)
        ensures
            *final(self) == old(self).after_signal(id),
            final(self).count() == old(self).count(),
    {
        match self.outstanding {
            Some(token) => {
                if token.id == id {
                    match token.state {
                        TokenState::Pending => {
                            self.outstanding = Some(
                                Token { id: token.id, state: TokenState::Completed },
                            );
                        },
                        _ => {},
                    }
                }
            },
            None => {},
        }
    }

    pub fn is_tracking(&self) -> (r: bool)
        ensures
            r == (self.count() == 1),
    {
        self.outstanding.is_some()
    }

    /// The tracked token, if there is one.
    pub fn current(&self) -> (r: Option<Token>)
        ensures
            r == self.outstanding,
    {
        self.outstanding
    }
}

/// Taking the outstanding token and then tracking a new one leaves exactly
/// one token tracked, the new one, whatever was tracked before.
pub proof fn take_then_track_keeps_one(tracker: FrameTracker, token: Token)
    ensures
        tracker.after_take().after_track(token).count() == 1,
        tracker.after_take().after_track(token).outstanding == Some(token),
        tracker.count() <= 1,
{
}

/// Retiring twice with nothing submitted in between is the same as retiring
/// once: the second call changes nothing and has nothing to release.
pub proof fn retire_is_idempotent(tracker: FrameTracker)
    ensures
        tracker.after_retire().after_retire() == tracker.after_retire(),
        !tracker.after_retire().can_release(),
{
}

/// Retiring never changes which submission is tracked, nor whether its
/// work has finished.
pub proof fn retire_keeps_identity(tracker: FrameTracker)
    ensures
        tracker.after_retire().count() == tracker.count(),
        tracker.outstanding matches Some(token) ==> {
            &&& tracker.after_retire().outstanding matches Some(after)
            &&& after.id == token.id
            &&& after.finished() == token.finished()
        },
{
}

} // verus!
