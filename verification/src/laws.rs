//! What holds of the planet whatever happens to it.

use crate::cells::lemma_cells_counts;
use crate::ciuc_ai::reply;
use crate::ciuc_ai::run;
use crate::ciuc_ai::step;
use crate::ciuc_ai::BasicResourceType;
use crate::ciuc_ai::Event;
use crate::ciuc_ai::Reply;
use crate::ciuc_ai::World;
use crate::error::PlanetError;
use crate::estimator::lemma_observe_wf;
use crate::policy::AIState;
use vstd::prelude::*;

verus! {

/// The charged cells are no more than the cells, and the rockets no more than one.
pub open spec fn within_bounds(w: World) -> bool {
    &&& 0 <= w.cells.charged() <= w.cells.capacity()
    &&& 0 <= w.cells.rockets() <= 1
}

/// No event changes the number of cells, and after every event the charged
/// cells and the rocket are within their bounds.
pub proof fn lemma_step_keeps_bounds(w: World, event: Event)
    ensures
        step(w, event).cells.capacity() == w.cells.capacity(),
        within_bounds(step(w, event)),
{
    lemma_cells_counts(w.cells);
    lemma_cells_counts(w.cells.charge());
}

/// After any sequence of events the planet has the cells it started with, the
/// charged ones among them are within zero and that number, and it has no
/// rocket or one.
pub proof fn lemma_run_keeps_bounds(w: World, events: Seq<Event>)
    ensures
        run(w, events).cells.capacity() == w.cells.capacity(),
        within_bounds(run(w, events)),
    decreases events.len(),
{
    if events.len() == 0 {
        lemma_cells_counts(w.cells);
    } else {
        lemma_run_keeps_bounds(w, events.drop_last());
        lemma_step_keeps_bounds(run(w, events.drop_last()), events.last());
    }
}

/// No event invalidates the controller's estimates or thresholds.
pub proof fn lemma_step_keeps_valid(w: World, event: Event)
    requires
        w.ai.wf(),
    ensures
        step(w, event).ai.wf(),
        step(w, event).ai.config == w.ai.config,
{
    match event {
        Event::Sunray { now_ms } => {
            lemma_observe_wf(w.ai.sunray, now_ms as int, w.ai.config.ema_alpha);
        },
        Event::Asteroid { now_ms } => {
            lemma_observe_wf(w.ai.asteroid, now_ms as int, w.ai.config.ema_alpha);
        },
        Event::ResourceRequest { kind, now_ms } => {},
    }
}

/// A request to produce spends one cell and leaves at least the reserve of the
/// mode that is active when the request comes, or it is refused and spends
/// nothing. It never changes the mode or the estimates.
pub proof fn lemma_production_keeps_reserve(w: World, kind: BasicResourceType, now_ms: i64)
    requires
        w.cells.wf(),
    ensures
        step(w, Event::ResourceRequest { kind, now_ms }).ai == w.ai,
        match reply(w, Event::ResourceRequest { kind, now_ms }) {
            Reply::Resource(Ok(carbon)) => {
                &&& step(w, Event::ResourceRequest { kind, now_ms }).cells.charged()
                    == w.cells.charged() - 1
                &&& step(w, Event::ResourceRequest { kind, now_ms }).cells.charged()
                    >= w.ai.reserve(now_ms as int)
                &&& kind == BasicResourceType::Carbon
                &&& 0 <= carbon.cell < w.cells.capacity()
                &&& w.cells.cells[carbon.cell as int]
            },
            _ => step(w, Event::ResourceRequest { kind, now_ms }).cells == w.cells,
        },
{
    lemma_cells_counts(w.cells);
    crate::cells::lemma_lowest(w.cells.cells, true);
}

/// With no cell charged a request for carbon is refused for want of charge, in
/// the safe mode and in the statistic mode alike, and nothing changes.
pub proof fn lemma_no_charge_no_carbon(w: World, now_ms: i64)
    requires
        w.cells.charged() == 0,
    ensures
        reply(w, Event::ResourceRequest { kind: BasicResourceType::Carbon, now_ms })
            == Reply::Resource(Err(PlanetError::InsufficientCharge)),
        step(w, Event::ResourceRequest { kind: BasicResourceType::Carbon, now_ms }) == w,
{
}

/// An event takes the planet from the safe to the statistic mode only when,
/// after that event, both kinds of event have been sampled as often as the
/// threshold asks and asteroids are not estimated to come more often than
/// sunrays.
pub proof fn lemma_statistic_entry(w: World, event: Event)
    requires
        w.ai.state == AIState::SafeState,
        step(w, event).ai.state == AIState::StatisticState,
    ensures
        step(w, event).ai.sunray.sample_count >= w.ai.config.transition_sample_threshold,
        step(w, event).ai.asteroid.sample_count >= w.ai.config.transition_sample_threshold,
        !(step(w, event).ai.asteroid.estimate_us < step(w, event).ai.sunray.estimate_us),
{
}

/// An event takes the planet from the statistic back to the safe mode exactly
/// when it is a sunray or a deflected asteroid after which asteroids are
/// estimated to come more often than sunrays; no number of samples is asked.
pub proof fn lemma_statistic_exit(w: World, event: Event)
    requires
        w.ai.state == AIState::StatisticState,
    ensures
        step(w, event).ai.state == AIState::SafeState <==> {
            &&& step(w, event).ai.asteroid.estimate_us < step(w, event).ai.sunray.estimate_us
            &&& (event is Sunray || (event is Asteroid && w.cells.rocket))
        },
{
}

/// While a rocket stands ready a sunray only charges a cell: no second rocket
/// is built and no charge is spent on one.
pub proof fn lemma_single_rocket(w: World, now_ms: i64)
    requires
        w.cells.rocket,
    ensures
        step(w, Event::Sunray { now_ms }).cells == w.cells.charge(),
{
}

} // verus!
