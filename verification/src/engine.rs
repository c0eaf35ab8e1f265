//! The presentation loop as a state machine. The loop itself never touches
//! a device or a window: it is told what happened, and answers with the next
//! thing to do. Whoever drives it performs that and reports the outcome.

use vstd::prelude::*;
use crate::chain::{Framebuffer, ImageChain};
use crate::extent::Extent;
use crate::protocol::{
    exit_code, exit_code_of, summarize, AcquireOutcome, Command, Event, EventSummary, Exit, Fatal,
    Phase, PresentOutcome, RecordOutcome, RecreateOutcome, SubmitOutcome, WindowEvent,
};
use crate::surface::{ChainError, SurfaceCaps};
use crate::tracker::{FrameTracker, Token};

verus! {

/// The presentation loop's whole state.
#[derive(Clone, Copy, Debug, PartialEq, Eq, Structural)]
pub struct PresentationLoop {
    /// The chain in use. Replaced as a whole, and only by a finished rebuild.
    pub chain: ImageChain,
    pub tracker: FrameTracker,
    /// Set when the chain has to be rebuilt before it is used again.
    pub recreate_pending: bool,
    pub phase: Phase,
    /// The window's drawable extent at the start of the current tick.
    pub extent: Extent,
    /// The image acquired in the current tick.
    pub image_index: u32,
    /// The token of the current tick's submission, until it is tracked.
    pub submitted: Token,
    pub exit: Option<Exit>,
}

impl PresentationLoop {
    /// What holds of the loop at every moment.
    pub open spec fn wf(&self) -> bool {
        &&& self.chain.wf()
        &&& self.tracker.count() == (if self.phase == Phase::Submitting || self.phase
            == Phase::Presenting {
            0nat
        } else {
            1nat
        })
        &&& (self.phase == Phase::Recording || self.phase == Phase::Submitting || self.phase
            == Phase::Presenting) ==> self.image_index < self.chain.config.image_count
        &&& self.phase == Phase::Acquiring ==> !self.recreate_pending
        &&& self.phase == Phase::Reconciling ==> self.recreate_pending
        &&& (self.phase != Phase::Idle && self.phase != Phase::Stopped) ==> !self.extent.empty()
        &&& (self.phase == Phase::Stopped) == self.exit.is_some()
    }

    /// A loop between two ticks, with this chain and nothing in flight.
    pub open spec fn initial(chain: ImageChain) -> PresentationLoop {
        PresentationLoop {
            chain,
            tracker: FrameTracker { outstanding: Some(Token::placeholder()) },
            recreate_pending: false,
            phase: Phase::Idle,
            extent: chain.config.extent,
            image_index: 0,
            submitted: Token::placeholder(),
            exit: None,
        }
    }

    /// The loop ends.
    pub open spec fn stopped(self, exit: Exit) -> (PresentationLoop, Command) {
        (
            PresentationLoop { phase: Phase::Stopped, exit: Some(exit), ..self },
            Command::Exit { code: exit_code_of(exit) },
        )
    }

    /// The tick ends early or is complete.
    pub open spec fn rested(self) -> (PresentationLoop, Command) {
        (PresentationLoop { phase: Phase::Idle, ..self }, Command::AwaitTick)
    }

    /// The answer to an event that the current phase does not wait for: a
    /// loop that has ended says so again, any other ignores the event.
    pub open spec fn unexpected(self) -> (PresentationLoop, Command) {
        match self.exit {
            Some(exit) => (self, Command::Exit { code: exit_code_of(exit) }),
            None => (self, Command::Ignored),
        }
    }

    /// The start of a tick. A close request ends the loop. A resize marks
    /// the chain for a rebuild. With an empty extent the tick does nothing
    /// more; otherwise a marked chain is rebuilt first, and only an unmarked
    /// one is acquired from.
    pub open spec fn after_tick(self, summary: EventSummary, extent: Extent) -> (
        PresentationLoop,
        Command,
    ) {
        if self.phase != Phase::Idle {
            self.unexpected()
        } else if summary.close_requested {
            self.stopped(Exit::Closed)
        } else {
            let pending = self.recreate_pending || summary.resized;
            if extent.empty() {
                (PresentationLoop { recreate_pending: pending, ..self }, Command::AwaitTick)
            } else if pending {
                (
                    PresentationLoop {
                        recreate_pending: true,
                        phase: Phase::Reconciling,
                        extent,
                        ..self
                    },
                    Command::Recreate { extent },
                )
            } else {
                (
                    PresentationLoop {
                        recreate_pending: false,
                        phase: Phase::Acquiring,
                        extent,
                        ..self
                    },
                    Command::Acquire,
                )
            }
        }
    }

    /// A rebuilt chain is one the loop can take over: well formed, and of
    /// the extent the rebuild was asked for.
    pub open spec fn accepts(self, chain: ImageChain) -> bool {
        chain.wf() && chain.config.extent == self.extent
    }

    /// The end of a rebuild. A new chain replaces the old one, clears the
    /// mark and lets the tick go on to acquire. An unsupported extent ends
    /// the tick with chain and mark as they were.
    pub open spec fn after_recreated(self, outcome: RecreateOutcome) -> (
        PresentationLoop,
        Command,
    ) {
        if self.phase != Phase::Reconciling {
            self.unexpected()
        } else {
            match outcome {
                RecreateOutcome::Rebuilt(chain) => {
                    if self.accepts(chain) {
                        (
                            PresentationLoop {
                                chain,
                                recreate_pending: false,
                                phase: Phase::Acquiring,
                                ..self
                            },
                            Command::Acquire,
                        )
                    } else {
                        self.stopped(Exit::Failed(Fatal::Rebuild))
                    }
                },
                RecreateOutcome::UnsupportedExtent => self.rested(),
                RecreateOutcome::Failed => self.stopped(Exit::Failed(Fatal::Rebuild)),
            }
        }
    }

    /// The end of an acquisition. A stale chain is marked and the tick ends
    /// without a submission. A suboptimal one is marked too, but the tick
    /// goes on with the image it got.
    pub open spec fn after_acquired(self, outcome: AcquireOutcome) -> (PresentationLoop, Command) {
        if self.phase != Phase::Acquiring {
            self.unexpected()
        } else {
            match outcome {
                AcquireOutcome::Image { index, suboptimal } => {
                    if index < self.chain.config.image_count {
                        (
                            PresentationLoop {
                                recreate_pending: self.recreate_pending || suboptimal,
                                phase: Phase::Recording,
                                image_index: index,
                                ..self
                            },
                            Command::Record {
                                framebuffer: Framebuffer {
                                    image_index: index,
                                    extent: self.chain.config.extent,
                                },
                            },
                        )
                    } else {
                        self.stopped(Exit::Failed(Fatal::Acquisition))
                    }
                },
                AcquireOutcome::Stale => PresentationLoop {
                    recreate_pending: true,
                    ..self
                }.rested(),
                AcquireOutcome::Failed => self.stopped(Exit::Failed(Fatal::Acquisition)),
            }
        }
    }

    /// The end of recording. Finished work of the previous frame is retired,
    /// and its token is handed out for the new submission to wait on.
    pub open spec fn after_recorded(self, outcome: RecordOutcome) -> (PresentationLoop, Command) {
        if self.phase != Phase::Recording {
            self.unexpected()
        } else {
            match outcome {
                RecordOutcome::Recorded => (
                    PresentationLoop {
                        tracker: self.tracker.after_retire().after_take(),
                        phase: Phase::Submitting,
                        ..self
                    },
                    Command::Submit {
                        image_index: self.image_index,
                        wait_on: self.tracker.after_retire().outstanding.unwrap(),
                    },
                ),
                RecordOutcome::Failed => self.stopped(Exit::Failed(Fatal::Recording)),
            }
        }
    }

    /// The loop with a completed placeholder as its outstanding token.
    pub open spec fn with_placeholder(self) -> PresentationLoop {
        PresentationLoop { tracker: self.tracker.after_track(Token::placeholder()), ..self }
    }

    /// The end of a submission. An out-of-date report marks the chain and
    /// ends the tick with a placeholder token, so that the next frame waits
    /// on nothing stale.
    pub open spec fn after_submitted(self, outcome: SubmitOutcome) -> (PresentationLoop, Command) {
        if self.phase != Phase::Submitting {
            self.unexpected()
        } else {
            match outcome {
                SubmitOutcome::Submitted(token) => (
                    PresentationLoop { phase: Phase::Presenting, submitted: token, ..self },
                    Command::Present { image_index: self.image_index, wait_on: token },
                ),
                SubmitOutcome::OutOfDate => PresentationLoop {
                    recreate_pending: true,
                    ..self.with_placeholder()
                }.rested(),
                SubmitOutcome::Failed => self.with_placeholder().stopped(
                    Exit::Failed(Fatal::Submission),
                ),
            }
        }
    }

    /// The end of a presentation request. On success the submission's token
    /// becomes the outstanding one. An out-of-date report marks the chain
    /// and leaves a placeholder token instead.
    pub open spec fn after_presented(self, outcome: PresentOutcome) -> (PresentationLoop, Command) {
        if self.phase != Phase::Presenting {
            self.unexpected()
        } else {
            match outcome {
                PresentOutcome::Presented => PresentationLoop {
                    tracker: self.tracker.after_track(self.submitted),
                    ..self
                }.rested(),
                PresentOutcome::OutOfDate => PresentationLoop {
                    recreate_pending: true,
                    ..self.with_placeholder()
                }.rested(),
                PresentOutcome::Failed => self.with_placeholder().stopped(
                    Exit::Failed(Fatal::Presentation),
                ),
            }
        }
    }

    /// The loop's answer to any event, and its state afterwards.
    pub open spec fn after(self, event: Event) -> (PresentationLoop, Command) {
        match event {
            Event::Tick { summary, extent } => self.after_tick(summary, extent),
            Event::Recreated(outcome) => self.after_recreated(outcome),
            Event::Acquired(outcome) => self.after_acquired(outcome),
            Event::Recorded(outcome) => self.after_recorded(outcome),
            Event::Submitted(outcome) => self.after_submitted(outcome),
            Event::Presented(outcome) => self.after_presented(outcome),
        }
    }
}

impl PresentationLoop {
    /// Builds the first chain for the surface and a loop that is ready for
    /// its first tick.
    pub fn start(caps: &SurfaceCaps, extent: Extent) -> (r: Result<PresentationLoop, ChainError>)
        ensures
            caps.configurable(extent) ==> r == Ok::<PresentationLoop, ChainError>(
                PresentationLoop::initial(ImageChain { config: caps.chosen(extent) }),
            ),
            !caps.configurable(extent) ==> r == Err::<PresentationLoop, ChainError>(
                ChainError::UnsupportedSurfaceConfiguration,
            ),
            r matches Ok(engine) ==> engine.wf() && engine.chain.extent() == extent,
    {
        match ImageChain::create(caps, extent) {
            Ok(chain) => Ok(PresentationLoop::with_chain(chain)),
            Err(e) => Err(e),
        }
    }

    /// A loop that is ready for its first tick, around a chain that exists
    /// already.
    pub fn with_chain(chain: ImageChain) -> (engine: PresentationLoop)
        requires
            chain.wf(),
        ensures
            engine == PresentationLoop::initial(chain),
            engine.wf(),
    {
        PresentationLoop {
            chain,
            tracker: FrameTracker::new(),
            recreate_pending: false,
            phase: Phase::Idle,
            extent: chain.config.extent,
            image_index: 0,
            submitted: Token::completed(),
            exit: None,
        }
    }

    pub fn is_well_formed(&self) -> (r: bool)
        ensures
            r == self.wf(),
    {
        let mid_submission = match self.phase {
            Phase::Submitting | Phase::Presenting => true,
            _ => false,
        };
        let has_image = match self.phase {
            Phase::Recording | Phase::Submitting | Phase::Presenting => true,
            _ => false,
        };
        let in_tick = match self.phase {
            Phase::Idle | Phase::Stopped => false,
            _ => true,
        };
        let acquiring = match self.phase {
            Phase::Acquiring => true,
            _ => false,
        };
        let reconciling = match self.phase {
            Phase::Reconciling => true,
            _ => false,
        };
        let stopped = match self.phase {
            Phase::Stopped => true,
            _ => false,
        };
        self.chain.is_well_formed() && self.tracker.is_tracking() != mid_submission && (!has_image
            || self.image_index < self.chain.image_count()) && (!acquiring
            || !self.recreate_pending) && (!reconciling || self.recreate_pending) && (!in_tick
            || !self.extent.is_empty()) && stopped == self.exit.is_some()
    }

    /// Whether the loop has ended, and why.
    pub fn exit_status(&self) -> (r: Option<Exit>)
        ensures
            r == self.exit,
    {
        self.exit
    }

    fn stop(&mut self, exit: Exit) -> (command: Command)
        ensures
            (*final(self), command) == old(self).stopped(exit),
    {
        self.phase = Phase::Stopped;
        self.exit = Some(exit);
        Command::Exit { code: exit_code(exit) }
    }

    fn rest(&mut self) -> (command: Command)
        ensures
            (*final(self), command) == old(self).rested(),
    {
        self.phase = Phase::Idle;
        Command::AwaitTick
    }

    fn reject(&self) -> (command: Command)
        ensures
            (*self, command) == self.unexpected(),
    {
        match self.exit {
            Some(exit) => Command::Exit { code: exit_code(exit) },
            None => Command::Ignored,
        }
    }

    /// Starts a tick, given what the window events since the last tick
    /// amount to and the window's drawable extent.
    pub fn on_tick(&mut self, summary: EventSummary, extent: Extent) -> (command: Command)
        requires
            old(self).wf(),
        ensures
            (*final(self), command) == old(self).after_tick(summary, extent),
            final(self).wf(),
    {
        match self.phase {
            Phase::Idle => {},
            _ => {
                return self.reject();
            },
        }
        if summary.close_requested {
            return self.stop(Exit::Closed);
        }
        if summary.resized {
            self.recreate_pending = true;
        }
        if extent.is_empty() {
            return Command::AwaitTick;
        }
        self.extent = extent;
        if self.recreate_pending {
            self.phase = Phase::Reconciling;
            Command::Recreate { extent }
        } else {
            self.phase = Phase::Acquiring;
            Command::Acquire
        }
    }

    /// Starts a tick from the window events themselves.
    pub fn begin_tick(&mut self, events: &Vec<WindowEvent>, extent: Extent) -> (command: Command)
        requires
            old(self).wf(),
        ensures
            (*final(self), command) == old(self).after_tick(
                EventSummary {
                    close_requested: events@.contains(WindowEvent::Close),
                    resized: events@.contains(WindowEvent::Resized),
                },
                extent,
            ),
            final(self).wf(),
    {
        let summary = summarize(events);
        self.on_tick(summary, extent)
    }

    /// Takes the outcome of the rebuild that `Recreate` asked for.
    pub fn on_recreated(&mut self, outcome: RecreateOutcome) -> (command: Command)
        requires
            old(self).wf(),
        ensures
            (*final(self), command) == old(self).after_recreated(outcome),
            final(self).wf(),
            outcome == RecreateOutcome::UnsupportedExtent ==> final(self).chain == old(self).chain,
    {
        match self.phase {
            Phase::Reconciling => {},
            _ => {
                return self.reject();
            },
        }
        match outcome {
            RecreateOutcome::Rebuilt(chain) => {
                if chain.is_well_formed() && chain.image_extent() == self.extent {
                    self.chain = chain;
                    self.recreate_pending = false;
                    self.phase = Phase::Acquiring;
                    Command::Acquire
                } else {
                    self.stop(Exit::Failed(Fatal::Rebuild))
                }
            },
            RecreateOutcome::UnsupportedExtent => self.rest(),
            RecreateOutcome::Failed => self.stop(Exit::Failed(Fatal::Rebuild)),
        }
    }

    /// Takes the outcome of the acquisition that `Acquire` asked for.
    pub fn on_acquired(&mut self, outcome: AcquireOutcome) -> (command: Command)
        requires
            old(self).wf(),
        ensures
            (*final(self), command) == old(self).after_acquired(outcome),
            final(self).wf(),
    {
        match self.phase {
            Phase::Acquiring => {},
            _ => {
                return self.reject();
            },
        }
        match outcome {
            AcquireOutcome::Image { index, suboptimal } => {
                match self.chain.framebuffer(index) {
                    Some(framebuffer) => {
                        if suboptimal {
                            self.recreate_pending = true;
                        }
                        self.image_index = index;
                        self.phase = Phase::Recording;
                        Command::Record { framebuffer }
                    },
                    None => self.stop(Exit::Failed(Fatal::Acquisition)),
                }
            },
            AcquireOutcome::Stale => {
                self.recreate_pending = true;
                self.rest()
            },
            AcquireOutcome::Failed => self.stop(Exit::Failed(Fatal::Acquisition)),
        }
    }

    /// Takes the outcome of the recording that `Record` asked for.
    pub fn on_recorded(&mut self, outcome: RecordOutcome) -> (command: Command)
        requires
            old(self).wf(),
        ensures
            (*final(self), command) == old(self).after_recorded(outcome),
            final(self).wf(),
    {
        match self.phase {
            Phase::Recording => {},
            _ => {
                return self.reject();
            },
        }
        match outcome {
            RecordOutcome::Recorded => {
                self.tracker.retire_completed();
                let wait_on = self.tracker.take_outstanding();
                self.phase = Phase::Submitting;
                Command::Submit { image_index: self.image_index, wait_on }
            },
            RecordOutcome::Failed => self.stop(Exit::Failed(Fatal::Recording)),
        }
    }

    /// Takes the outcome of the submission that `Submit` asked for.
    pub fn on_submitted(&mut self, outcome: SubmitOutcome) -> (command: Command)
        requires
            old(self).wf(),
        ensures
            (*final(self), command) == old(self).after_submitted(outcome),
            final(self).wf(),
    {
        match self.phase {
            Phase::Submitting => {},
            _ => {
                return self.reject();
            },
        }
        match outcome {
            SubmitOutcome::Submitted(token) => {
                self.submitted = token;
                self.phase = Phase::Presenting;
                Command::Present { image_index: self.image_index, wait_on: token }
            },
            SubmitOutcome::OutOfDate => {
                self.recreate_pending = true;
                self.tracker.track(Token::completed());
                self.rest()
            },
            SubmitOutcome::Failed => {
                self.tracker.track(Token::completed());
                self.stop(Exit::Failed(Fatal::Submission))
            },
        }
    }

    /// Takes the outcome of the presentation that `Present` asked for.
    pub fn on_presented(&mut self, outcome: PresentOutcome) -> (command: Command)
        requires
            old(self).wf(),
        ensures
            (*final(self), command) == old(self).after_presented(outcome),
            final(self).wf(),
    {
        match self.phase {
            Phase::Presenting => {},
            _ => {
                return self.reject();
            },
        }
        match outcome {
            PresentOutcome::Presented => {
                self.tracker.track(self.submitted);
                self.rest()
            },
            PresentOutcome::OutOfDate => {
                self.recreate_pending = true;
                self.tracker.track(Token::completed());
                self.rest()
            },
            PresentOutcome::Failed => {
                self.tracker.track(Token::completed());
                self.stop(Exit::Failed(Fatal::Presentation))
            },
        }
    }

    /// Takes any event and answers with what to do next.
    pub fn step(&mut self, event: Event) -> (command: Command)
        requires
            old(self).wf(),
        ensures
            (*final(self), command) == old(self).after(event),
            final(self).wf(),
    {
        match event {
            Event::Tick { summary, extent } => self.on_tick(summary, extent),
            Event::Recreated(outcome) => self.on_recreated(outcome),
            Event::Acquired(outcome) => self.on_acquired(outcome),
            Event::Recorded(outcome) => self.on_recorded(outcome),
            Event::Submitted(outcome) => self.on_submitted(outcome),
            Event::Presented(outcome) => self.on_presented(outcome),
        }
    }

    /// Records that the device has signalled completion of the submission
    /// `id`, so that its token can be retired in a later tick.
    pub fn on_signalled(&mut self, id: u64)
        requires
            old(self).wf(),
        ensures
            *final(self) == (PresentationLoop {
                tracker: old(self).tracker.after_signal(id),
                ..*old(self)
            }),
            final(self).wf(),
    {
        self.tracker.signal(id);
    }
}

} // verus!
