//! What holds of the presentation loop over any run of events.

use vstd::prelude::*;
use crate::chain::{Framebuffer, ImageChain};
use crate::engine::PresentationLoop;
use crate::extent::Extent;
use crate::protocol::{
    AcquireOutcome, Command, Event, EventSummary, Phase, PresentOutcome, RecordOutcome,
    RecreateOutcome, SubmitOutcome,
};
use crate::surface::SurfaceCaps;
use crate::tracker::Token;

verus! {

/// No event can break the loop's invariant.
pub proof fn every_step_keeps_the_invariant(engine: PresentationLoop, event: Event)
    requires
        engine.wf(),
    ensures
        engine.after(event).0.wf(),
{
}

/// At every tick boundary, that is whenever a step leaves the loop idle or
/// stopped, exactly one token is tracked: never none, never two.
pub proof fn one_token_at_tick_boundaries(engine: PresentationLoop, event: Event)
    requires
        engine.wf(),
    ensures
        ({
            let next = engine.after(event).0;
            (next.phase == Phase::Idle || next.phase == Phase::Stopped) ==> next.tracker.count()
                == 1
        }),
        engine.after(event).0.tracker.count() <= 1,
{
}

/// The loop asks for an acquisition only while the chain is not marked for
/// a rebuild: a marked chain is always rebuilt first.
pub proof fn acquire_only_from_a_current_chain(engine: PresentationLoop, event: Event)
    requires
        engine.wf(),
    ensures
        engine.after(event).1 == Command::Acquire ==> {
            &&& !engine.after(event).0.recreate_pending
            &&& engine.after(event).0.phase == Phase::Acquiring
            &&& engine.recreate_pending ==> {
                &&& event matches Event::Recreated(RecreateOutcome::Rebuilt(chain))
                &&& engine.after(event).0.chain == chain
                &&& chain.extent() == engine.extent
            }
        },
{
}

/// After an acquisition has found the chain stale, the tick ends without a
/// submission, and the next tick that has a drawable extent asks for a
/// rebuild at that extent. It gets to acquire only through a rebuilt chain
/// of that extent.
pub proof fn stale_acquire_forces_rebuild(
    engine: PresentationLoop,
    summary: EventSummary,
    extent: Extent,
    outcome: RecreateOutcome,
)
    requires
        engine.wf(),
        engine.phase == Phase::Acquiring,
        !summary.close_requested,
        !extent.empty(),
    ensures
        ({
            let (stale, first) = engine.after_acquired(AcquireOutcome::Stale);
            let (reconciling, second) = stale.after_tick(summary, extent);
            let (next, third) = reconciling.after_recreated(outcome);
            &&& first == Command::AwaitTick
            &&& stale.phase == Phase::Idle
            &&& stale.recreate_pending
            &&& stale.chain == engine.chain
            &&& stale.tracker == engine.tracker
            &&& second == (Command::Recreate { extent })
            &&& reconciling.phase == Phase::Reconciling
            &&& third == Command::Acquire <==> (outcome matches RecreateOutcome::Rebuilt(chain)
                && chain.wf() && chain.extent() == extent)
            &&& third == Command::Acquire ==> next.chain.extent() == extent
        }),
{
}

/// An out-of-date report from a presentation does not end the loop. The
/// tick ends with a placeholder token, and the next tick that has a
/// drawable extent asks for a rebuild before anything else.
pub proof fn out_of_date_present_forces_rebuild(
    engine: PresentationLoop,
    summary: EventSummary,
    extent: Extent,
)
    requires
        engine.wf(),
        engine.phase == Phase::Presenting,
        !summary.close_requested,
        !extent.empty(),
    ensures
        ({
            let (recovered, first) = engine.after_presented(PresentOutcome::OutOfDate);
            let (_reconciling, second) = recovered.after_tick(summary, extent);
            &&& first == Command::AwaitTick
            &&& recovered.phase == Phase::Idle
            &&& recovered.exit.is_none()
            &&& recovered.recreate_pending
            &&& recovered.tracker.outstanding == Some(Token::placeholder())
            &&& second == (Command::Recreate { extent })
        }),
{
}

/// The same holds when it is the submission that reports out of date.
pub proof fn out_of_date_submit_forces_rebuild(
    engine: PresentationLoop,
    summary: EventSummary,
    extent: Extent,
)
    requires
        engine.wf(),
        engine.phase == Phase::Submitting,
        !summary.close_requested,
        !extent.empty(),
    ensures
        ({
            let (recovered, first) = engine.after_submitted(SubmitOutcome::OutOfDate);
            let (_reconciling, second) = recovered.after_tick(summary, extent);
            &&& first == Command::AwaitTick
            &&& recovered.phase == Phase::Idle
            &&& recovered.exit.is_none()
            &&& recovered.tracker.outstanding == Some(Token::placeholder())
            &&& second == (Command::Recreate { extent })
        }),
{
}

/// A tick that finds the window without a drawable area does nothing: no
/// rebuild, no acquisition, no submission. Chain and token stay as they
/// were, and a resize seen in that tick is remembered.
pub proof fn empty_extent_skips_the_tick(
    engine: PresentationLoop,
    summary: EventSummary,
    extent: Extent,
)
    requires
        engine.wf(),
        engine.phase == Phase::Idle,
        !summary.close_requested,
        extent.empty(),
    ensures
        ({
            let (next, command) = engine.after_tick(summary, extent);
            &&& command == Command::AwaitTick
            &&& next.phase == Phase::Idle
            &&& next.chain == engine.chain
            &&& next.tracker == engine.tracker
            &&& next.recreate_pending == (engine.recreate_pending || summary.resized)
        }),
{
}

/// A rebuild that the surface refuses for its extent leaves the chain and
/// the rebuild mark untouched and ends the tick, so the next tick tries
/// again.
pub proof fn refused_rebuild_keeps_the_chain(engine: PresentationLoop)
    requires
        engine.wf(),
        engine.phase == Phase::Reconciling,
    ensures
        ({
            let (next, command) = engine.after_recreated(RecreateOutcome::UnsupportedExtent);
            &&& command == Command::AwaitTick
            &&& next.phase == Phase::Idle
            &&& next.chain == engine.chain
            &&& next.recreate_pending
            &&& next.exit.is_none()
        }),
{
}

/// Every image of a chain reports the chain's extent, and every framebuffer
/// is bound to the image at its own position.
pub proof fn images_share_the_extent(chain: ImageChain, i: int)
    requires
        0 <= i < chain.config.image_count,
    ensures
        chain.images().len() == chain.config.image_count,
        chain.images()[i] == chain.extent(),
        chain.framebuffers().len() == chain.config.image_count,
        chain.framebuffers()[i].extent == chain.extent(),
        chain.framebuffers()[i].image_index == i,
{
}

/// A chain created or rebuilt for an extent that the surface admits has
/// that extent in every image, and at least two images.
pub proof fn built_chain_has_the_target_extent(
    caps: SurfaceCaps,
    previous: ImageChain,
    extent: Extent,
    i: int,
)
    requires
        caps.admits(extent),
        previous.wf(),
    ensures
        previous.resized(extent).wf(),
        0 <= i < previous.resized(extent).images().len() ==> previous.resized(extent).images()[i]
            == extent,
        caps.configurable(extent) ==> {
            let created = ImageChain { config: caps.chosen(extent) };
            &&& created.wf()
            &&& 0 <= i < created.images().len() ==> created.images()[i] == extent
        },
{
}

/// A tick in which nothing goes wrong: the loop acquires, records, submits
/// and presents, in that order and all for the image it acquired. The
/// submission waits on the token of the frame before, retired; the chain is
/// the same afterwards; the new token is the one tracked; and the chain is
/// marked for a rebuild only if the image came with a suboptimal report.
pub proof fn quiet_tick_presents_the_acquired_image(
    engine: PresentationLoop,
    summary: EventSummary,
    extent: Extent,
    index: u32,
    suboptimal: bool,
    token: Token,
)
    requires
        engine.wf(),
        engine.phase == Phase::Idle,
        !summary.close_requested,
        !summary.resized,
        !engine.recreate_pending,
        !extent.empty(),
        index < engine.chain.config.image_count,
    ensures
        ({
            let (acquiring, first) = engine.after_tick(summary, extent);
            let (recording, second) = acquiring.after_acquired(
                AcquireOutcome::Image { index, suboptimal },
            );
            let (submitting, third) = recording.after_recorded(RecordOutcome::Recorded);
            let (presenting, fourth) = submitting.after_submitted(SubmitOutcome::Submitted(token));
            let (done, fifth) = presenting.after_presented(PresentOutcome::Presented);
            &&& first == Command::Acquire
            &&& second == (Command::Record {
                framebuffer: Framebuffer { image_index: index, extent: engine.chain.extent() },
            })
            &&& third == (Command::Submit {
                image_index: index,
                wait_on: engine.tracker.outstanding.unwrap().retired(),
            })
            &&& fourth == (Command::Present { image_index: index, wait_on: token })
            &&& fifth == Command::AwaitTick
            &&& done.phase == Phase::Idle
            &&& done.chain == engine.chain
            &&& done.tracker.outstanding == Some(token)
            &&& done.recreate_pending == suboptimal
            &&& done.exit.is_none()
        }),
{
}

/// A tick that starts with a resize rebuilds the chain for the window's new
/// extent before it acquires, and the frame of that tick is recorded against
/// a framebuffer of the new extent.
pub proof fn resize_rebuilds_before_the_frame(
    engine: PresentationLoop,
    summary: EventSummary,
    extent: Extent,
    index: u32,
    suboptimal: bool,
)
    requires
        engine.wf(),
        engine.phase == Phase::Idle,
        !summary.close_requested,
        summary.resized,
        !extent.empty(),
        index < engine.chain.config.image_count,
    ensures
        ({
            let rebuilt = engine.chain.resized(extent);
            let (reconciling, first) = engine.after_tick(summary, extent);
            let (acquiring, second) = reconciling.after_recreated(
                RecreateOutcome::Rebuilt(rebuilt),
            );
            let (recording, third) = acquiring.after_acquired(
                AcquireOutcome::Image { index, suboptimal },
            );
            &&& first == (Command::Recreate { extent })
            &&& second == Command::Acquire
            &&& acquiring.chain == rebuilt
            &&& !acquiring.recreate_pending
            &&& third == (Command::Record { framebuffer: Framebuffer { image_index: index, extent } })
            &&& recording.chain.extent() == extent
        }),
{
}

/// The loop after a run of events, taken in order.
pub open spec fn after_all(engine: PresentationLoop, events: Seq<Event>) -> PresentationLoop
    decreases events.len(),
{
    if events.len() == 0 {
        engine
    } else {
        after_all(engine, events.drop_last()).after(events.last()).0
    }
}

/// Whatever events arrive, and in whatever order, the loop's invariant
/// holds after them, and with it: at most one token is tracked, and
/// exactly one whenever the loop is between ticks or has ended.
pub proof fn invariant_holds_along_any_run(engine: PresentationLoop, events: Seq<Event>)
    requires
        engine.wf(),
    ensures
        after_all(engine, events).wf(),
        after_all(engine, events).tracker.count() <= 1,
        ({
            let now = after_all(engine, events);
            (now.phase == Phase::Idle || now.phase == Phase::Stopped) ==> now.tracker.count() == 1
        }),
    decreases events.len(),
{
    if events.len() > 0 {
        invariant_holds_along_any_run(engine, events.drop_last());
        every_step_keeps_the_invariant(after_all(engine, events.drop_last()), events.last());
    }
}

/// In any run of events, whenever the loop answers with `Acquire`, the
/// chain is not marked for a rebuild. If it was marked before that event,
/// the event was the delivery of a rebuilt chain, which the loop has taken
/// over.
pub proof fn rebuild_precedes_acquire_in_any_run(
    engine: PresentationLoop,
    events: Seq<Event>,
    k: int,
)
    requires
        engine.wf(),
        0 <= k < events.len(),
    ensures
        ({
            let before = after_all(engine, events.take(k));
            let (next, command) = before.after(events[k]);
            command == Command::Acquire ==> {
                &&& !next.recreate_pending
                &&& before.recreate_pending ==> {
                    &&& events[k] matches Event::Recreated(RecreateOutcome::Rebuilt(chain))
                    &&& next.chain == chain
                }
            }
        }),
{
    invariant_holds_along_any_run(engine, events.take(k));
    acquire_only_from_a_current_chain(after_all(engine, events.take(k)), events[k]);
}

} // verus!
