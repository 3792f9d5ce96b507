//! Properties of the render loop, stated over whole event sequences.
//!
//! [`run_model`] folds the transition relation over an arbitrary interleaving
//! of resize, redraw, reload and other events, exactly as the loop processes
//! them one at a time; the proof functions here state what holds of every
//! such interleaving.

use vstd::prelude::*;

use crate::render_loop::{
    build_commits, step_model, EventModel, LoopModel, Mode,
};
use crate::shader::front_end_accepts;

verus! {

/// The state after a whole event sequence, processed one event at a time.
pub open spec fn run_model(s: LoopModel, evs: Seq<EventModel>) -> LoopModel
    decreases evs.len(),
{
    if evs.len() == 0 {
        s
    } else {
        step_model(run_model(s, evs.drop_last()), evs.last())
    }
}

/// How many builds a run commits: build outcomes that came back successful
/// for a pending rebuild, while the loop still runs.
pub open spec fn builds_committed(s: LoopModel, evs: Seq<EventModel>) -> nat
    decreases evs.len(),
{
    if evs.len() == 0 {
        0
    } else {
        builds_committed(s, evs.drop_last()) + (if build_commits(
            run_model(s, evs.drop_last()),
            evs.last(),
        ) {
            1nat
        } else {
            0nat
        })
    }
}

/// The pipeline bound after any event sequence is the initial pipeline or
/// the one produced by the most recent successfully committed build — never
/// a failed, rejected or still-pending one: the bound generation counts
/// exactly the build outcomes that came back successful. Together with
/// `step`'s contract — a redraw's frame binds the generation bound when the
/// redraw arrives — this pins the pipeline any given redraw uses. (The
/// generation counter must not be exhausted, hence the bound on the number
/// of builds.)
pub proof fn lemma_redraw_uses_latest_successful_build(s: LoopModel, evs: Seq<EventModel>)
    requires
        s.generation + builds_committed(s, evs) <= u64::MAX,
    ensures
        run_model(s, evs).generation == s.generation + builds_committed(s, evs),
    decreases evs.len(),
{
    if evs.len() > 0 {
        let prefix = evs.drop_last();
        lemma_redraw_uses_latest_successful_build(s, prefix);
    }
}

/// A failed reload — an unreadable file or text the front end rejects — is
/// the identity on the whole state: the bound pipeline, above all, is
/// exactly what it was before the attempt.
pub proof fn lemma_failed_reload_is_identity(s: LoopModel, read: Result<Seq<char>, Seq<char>>)
    requires
        !(read matches Ok(src) && front_end_accepts(src)),
    ensures
        step_model(s, EventModel::ShaderChanged { read }) == s,
{
}

/// A build outcome that came back failed — the device rejected what the
/// front end accepted, or ran out of resources — changes no observable
/// state: the bound pipeline, the surface configuration, the clock and the
/// mode are exactly what they were; only the pending mark is cleared.
pub proof fn lemma_failed_build_preserves_pipeline(s: LoopModel, diagnostic: Seq<char>)
    ensures
        step_model(s, EventModel::PipelineBuilt { outcome: Err(diagnostic) }).generation
            == s.generation,
        step_model(s, EventModel::PipelineBuilt { outcome: Err(diagnostic) }).config == s.config,
        step_model(s, EventModel::PipelineBuilt { outcome: Err(diagnostic) }).clock == s.clock,
        step_model(s, EventModel::PipelineBuilt { outcome: Err(diagnostic) }).mode == s.mode,
{
}

/// Along any run, the clock value a frame observes never decreases.
pub proof fn lemma_clock_never_decreases(s: LoopModel, evs: Seq<EventModel>)
    ensures
        run_model(s, evs).clock >= s.clock,
    decreases evs.len(),
{
    if evs.len() > 0 {
        lemma_clock_never_decreases(s, evs.drop_last());
    }
}

/// While no close request arrives, the loop stays in `Running`.
pub proof fn lemma_mode_stays_running(s: LoopModel, evs: Seq<EventModel>)
    requires
        s.mode is Running,
        forall|i: int| 0 <= i < evs.len() ==> !(#[trigger] evs[i] is CloseRequested),
    ensures
        run_model(s, evs).mode is Running,
    decreases evs.len(),
{
    if evs.len() > 0 {
        lemma_mode_stays_running(s, evs.drop_last());
    }
}

/// The dimensions the next frame would be presented at: those of the most
/// recently received resize, or the initial ones when none has arrived.
pub open spec fn latest_dimensions(w: u32, h: u32, evs: Seq<EventModel>) -> (u32, u32)
    decreases evs.len(),
{
    if evs.len() == 0 {
        (w, h)
    } else {
        match evs.last() {
            EventModel::Resized { width, height } => (width, height),
            _ => latest_dimensions(w, h, evs.drop_last()),
        }
    }
}

/// Resizes are applied before the next redraw is processed: after any event
/// sequence of a running loop, the surface configuration's dimensions equal
/// the most recently received (width, height) — so no frame is ever drawn
/// with stale dimensions.
pub proof fn lemma_resize_applied_before_next_redraw(s: LoopModel, evs: Seq<EventModel>)
    requires
        s.mode is Running,
        forall|i: int| 0 <= i < evs.len() ==> !(#[trigger] evs[i] is CloseRequested),
    ensures
        (run_model(s, evs).config.width, run_model(s, evs).config.height) == latest_dimensions(
            s.config.width,
            s.config.height,
            evs,
        ),
    decreases evs.len(),
{
    if evs.len() > 0 {
        let prefix = evs.drop_last();
        lemma_mode_stays_running(s, prefix);
        lemma_resize_applied_before_next_redraw(s, prefix);
    }
}

/// Only a resize touches the surface configuration, and it only moves the
/// dimensions: the presentation format and mode chosen at startup hold for
/// the loop's whole lifetime.
pub proof fn lemma_presentation_choice_is_stable(s: LoopModel, evs: Seq<EventModel>)
    ensures
        run_model(s, evs).config.format == s.config.format,
        run_model(s, evs).config.present_mode == s.config.present_mode,
    decreases evs.len(),
{
    if evs.len() > 0 {
        lemma_presentation_choice_is_stable(s, evs.drop_last());
    }
}

} // verus!
