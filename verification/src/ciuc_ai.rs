//! The planet's controller: it takes each sunray, asteroid and request to
//! produce, keeps the estimates and the mode up to date, and answers.

use crate::cells::lowest;
use crate::cells::CellStore;
use crate::cells::CellsView;
use crate::config::Config;
use crate::error::PlanetError;
use crate::estimator::EstimateView;
use crate::estimator::IntervalEstimate;
use crate::policy::next_state;
use crate::policy::reevaluate;
use crate::policy::AIState;
use crate::reservation::admission;
use crate::reservation::compute_reserve;
use crate::reservation::compute_statistic_reserve;
use crate::reservation::decide_admission;
use crate::reservation::reserve;
use crate::reservation::statistic_reserve;
use vstd::prelude::*;

verus! {

/// Number of cells of the planet that `CiucAI::new` is made for.
pub const STANDARD_CAPACITY: usize = 5;

/// The basic resources that an explorer may ask a planet for.
#[derive(Clone, Copy, Debug, PartialEq, Eq, Structural)]
pub enum BasicResourceType {
    Oxygen,
    Hydrogen,
    Carbon,
    Silicon,
}

/// One unit of carbon, with the index of the cell whose charge paid for it.
#[derive(Clone, Copy, Debug, PartialEq, Eq, Structural)]
pub struct CarbonUnit {
    pub cell: usize,
}

/// What became of an asteroid.
#[derive(Clone, Copy, Debug, PartialEq, Eq, Structural)]
pub enum AsteroidOutcome {
    /// The rocket was there and has been spent on the asteroid.
    Deflected,
    /// No rocket was there: the planet is lost.
    Destroyed,
}

/// What can happen to the planet, with the time at which it happens.
#[derive(Clone, Copy, Debug, PartialEq, Eq)]
pub enum Event {
    /// A sunray arrives.
    Sunray { now_ms: i64 },
    /// An asteroid arrives.
    Asteroid { now_ms: i64 },
    /// An explorer asks for one unit of a basic resource.
    ResourceRequest { kind: BasicResourceType, now_ms: i64 },
}

/// The planet's answer to an event.
#[derive(Clone, Copy, Debug, PartialEq, Eq)]
pub enum Reply {
    /// Whether the sunray found an empty cell.
    Sunray(Result<(), PlanetError>),
    /// Whether the asteroid was deflected.
    Asteroid(AsteroidOutcome),
    /// The resource that was produced, or why none was.
    Resource(Result<CarbonUnit, PlanetError>),
}

/// The controller's knowledge, as mathematical values.
pub struct AiView {
    pub state: AIState,
    pub number_explorers: nat,
    pub sunray: EstimateView,
    pub asteroid: EstimateView,
    pub config: Config,
}

impl AiView {
    pub open spec fn wf(self) -> bool {
        &&& self.config.wf()
        &&& self.sunray.wf()
        &&& self.asteroid.wf()
        &&& self.number_explorers <= usize::MAX
    }

    /// A controller that has seen nothing yet: safe mode, no estimates.
    pub open spec fn fresh(config: Config) -> AiView {
        AiView {
            state: AIState::SafeState,
            number_explorers: 0,
            sunray: EstimateView::fresh(),
            asteroid: EstimateView::fresh(),
            config,
        }
    }

    /// A sunray at `now_ms` enters the sunray estimate.
    pub open spec fn observe_sunray(self, now_ms: int) -> AiView {
        AiView { sunray: self.sunray.observe(now_ms, self.config.ema_alpha), ..self }
    }

    /// An asteroid at `now_ms` enters the asteroid estimate.
    pub open spec fn observe_asteroid(self, now_ms: int) -> AiView {
        AiView { asteroid: self.asteroid.observe(now_ms, self.config.ema_alpha), ..self }
    }

    /// The mode is brought in line with the estimates.
    pub open spec fn change_state(self) -> AiView {
        AiView {
            state: next_state(
                self.state,
                self.sunray,
                self.asteroid,
                self.config.transition_sample_threshold,
            ),
            ..self
        }
    }

    /// The reserve that holds at `now_ms` in the current mode.
    pub open spec fn reserve(self, now_ms: int) -> nat {
        reserve(self.state, self.config, self.sunray, self.asteroid, now_ms)
    }

    /// The answer to a request for carbon at `now_ms`, given the cells.
    pub open spec fn carbon_admission(self, cells: CellsView, now_ms: int) -> Result<
        (),
        PlanetError,
    > {
        admission(cells.charged(), self.config.capacity as nat, self.reserve(now_ms))
    }

    /// The answer to a request for a resource of `kind` at `now_ms`: only
    /// carbon is produced.
    pub open spec fn resource_admission(
        self,
        cells: CellsView,
        kind: BasicResourceType,
        now_ms: int,
    ) -> Result<(), PlanetError> {
        if is_supported(kind) {
            self.carbon_admission(cells, now_ms)
        } else {
            Err(PlanetError::UnsupportedResource)
        }
    }
}

/// The cells after a sunray: the lowest empty cell is charged, then a rocket
/// is built if the slot is free.
pub open spec fn cells_after_sunray(cells: CellsView) -> CellsView {
    cells.charge().build_rocket()
}

/// The cells after an asteroid: the rocket is spent, and rebuilt at once if a
/// cell is charged. With no rocket nothing changes.
pub open spec fn cells_after_asteroid(cells: CellsView) -> CellsView {
    if cells.rocket {
        cells.take_rocket().build_rocket()
    } else {
        cells
    }
}

/// The cells after a request whose answer is `admission`: one cell is spent
/// exactly when the request was admitted.
pub open spec fn cells_after_request(
    cells: CellsView,
    admission: Result<(), PlanetError>,
) -> CellsView {
    if admission is Ok {
        cells.discharge()
    } else {
        cells
    }
}

/// What a request answers: the carbon paid by the lowest full cell where it is
/// admitted, the refusal otherwise.
pub open spec fn carbon_reply(cells: CellsView, admission: Result<(), PlanetError>) -> Result<
    CarbonUnit,
    PlanetError,
> {
    match admission {
        Ok(_) => Ok(CarbonUnit { cell: lowest(cells.cells, true) as usize }),
        Err(e) => Err(e),
    }
}

/// The controller after an asteroid at `now_ms`: the estimate is updated, and
/// the mode is brought in line only if the asteroid was deflected.
pub open spec fn ai_after_asteroid(ai: AiView, deflected: bool, now_ms: int) -> AiView {
    if deflected {
        ai.observe_asteroid(now_ms).change_state()
    } else {
        ai.observe_asteroid(now_ms)
    }
}

/// The answer to an asteroid: deflected exactly when a rocket stood ready.
pub open spec fn asteroid_outcome(cells: CellsView) -> AsteroidOutcome {
    if cells.rocket {
        AsteroidOutcome::Deflected
    } else {
        AsteroidOutcome::Destroyed
    }
}

/// The answer to a sunray: `AllCellsFull` exactly when no cell was empty.
pub open spec fn sunray_reply(cells: CellsView) -> Result<(), PlanetError> {
    if cells.has_empty() {
        Ok(())
    } else {
        Err(PlanetError::AllCellsFull)
    }
}

/// Whether the planet generates resources of `kind`: it generates carbon only.
pub open spec fn is_supported(kind: BasicResourceType) -> bool {
    kind == BasicResourceType::Carbon
}

/// The basic resources that the planet generates: carbon, and nothing else.
pub fn generation_rules() -> (r: Vec<BasicResourceType>)
    ensures
        r@ == seq![BasicResourceType::Carbon],
        forall|kind: BasicResourceType| r@.contains(kind) <==> is_supported(kind),
{
    let mut rules: Vec<BasicResourceType> = Vec::new();
    rules.push(BasicResourceType::Carbon);
    assert(rules@[0] == BasicResourceType::Carbon);
    rules
}

/// The controller together with the cells it governs.
pub struct World {
    pub ai: AiView,
    pub cells: CellsView,
}

/// The world after `event`.
pub open spec fn step(w: World, event: Event) -> World {
    match event {
        Event::Sunray { now_ms } => World {
            ai: w.ai.observe_sunray(now_ms as int).change_state(),
            cells: cells_after_sunray(w.cells),
        },
        Event::Asteroid { now_ms } => World {
            ai: ai_after_asteroid(w.ai, w.cells.rocket, now_ms as int),
            cells: cells_after_asteroid(w.cells),
        },
        Event::ResourceRequest { kind, now_ms } => World {
            ai: w.ai,
            cells: cells_after_request(
                w.cells,
                w.ai.resource_admission(w.cells, kind, now_ms as int),
            ),
        },
    }
}

/// The answer to `event` in the world `w`.
pub open spec fn reply(w: World, event: Event) -> Reply {
    match event {
        Event::Sunray { now_ms } => Reply::Sunray(sunray_reply(w.cells)),
        Event::Asteroid { now_ms } => Reply::Asteroid(asteroid_outcome(w.cells)),
        Event::ResourceRequest { kind, now_ms } => Reply::Resource(
            carbon_reply(w.cells, w.ai.resource_admission(w.cells, kind, now_ms as int)),
        ),
    }
}

/// The world after each of `events` in turn.
pub open spec fn run(w: World, events: Seq<Event>) -> World
    decreases events.len(),
{
    if events.len() == 0 {
        w
    } else {
        step(run(w, events.drop_last()), events.last())
    }
}

/// The controller of one planet.
#[derive(Debug)]
pub struct CiucAI {
    state: AIState,
    number_explorers: usize,
    sunray: IntervalEstimate,
    asteroid: IntervalEstimate,
    config: Config,
}

impl View for CiucAI {
    type V = AiView;

    closed spec fn view(&self) -> AiView {
        AiView {
            state: self.state,
            number_explorers: self.number_explorers as nat,
            sunray: self.sunray@,
            asteroid: self.asteroid@,
            config: self.config,
        }
    }
}

impl CiucAI {
    /// The thresholds of every controller are valid at all times.
    #[verifier::type_invariant]
    pub closed spec fn inv(&self) -> bool {
        self.config.wf()
    }

    /// A controller with the standard thresholds for a planet of five cells.
    pub fn new() -> (r: CiucAI)
        ensures
            r@ == AiView::fresh(Config::standard(STANDARD_CAPACITY)),
            r@.wf(),
    {
        CiucAI {
            state: AIState::SafeState,
            number_explorers: 0,
            sunray: IntervalEstimate::new(),
            asteroid: IntervalEstimate::new(),
            config: Config::new(STANDARD_CAPACITY),
        }
    }

    /// A controller with thresholds of the caller's choice; `None` exactly
    /// when `config` is not valid.
    pub fn with_config(config: Config) -> (r: Option<CiucAI>)
        ensures
            match r {
                Some(ai) => config.wf() && ai@ == AiView::fresh(config) && ai@.wf(),
                None => !config.wf(),
            },
    {
        if config.is_valid() {
            Some(
                CiucAI {
                    state: AIState::SafeState,
                    number_explorers: 0,
                    sunray: IntervalEstimate::new(),
                    asteroid: IntervalEstimate::new(),
                    config,
                },
            )
        } else {
            None
        }
    }

    /// The current mode.
    pub fn state(&self) -> (r: AIState)
        ensures
            r == self@.state,
    {
        self.state
    }

    /// Number of explorers on the planet.
    pub fn number_explorers(&self) -> (r: usize)
        ensures
            r == self@.number_explorers,
    {
        self.number_explorers
    }

    /// Number of intervals between asteroids that were sampled.
    pub fn count_asteroids(&self) -> (r: u32)
        ensures
            r == self@.asteroid.sample_count,
    {
        self.asteroid.sample_count()
    }

    /// Number of intervals between sunrays that were sampled.
    pub fn count_sunrays(&self) -> (r: u32)
        ensures
            r == self@.sunray.sample_count,
    {
        self.sunray.sample_count()
    }

    /// Time of the latest sunray in milliseconds; zero before the first.
    pub fn last_time_sunray(&self) -> (r: i64)
        ensures
            r == self@.sunray.last_seen_ms,
    {
        self.sunray.last_seen_ms()
    }

    /// Time of the latest asteroid in milliseconds; zero before the first.
    pub fn last_time_asteroid(&self) -> (r: i64)
        ensures
            r == self@.asteroid.last_seen_ms,
    {
        self.asteroid.last_seen_ms()
    }

    /// Estimated interval between sunrays in microseconds.
    pub fn estimate_sunray_us(&self) -> (r: i128)
        ensures
            r == self@.sunray.estimate_us,
    {
        self.sunray.estimate_us()
    }

    /// Estimated interval between asteroids in microseconds.
    pub fn estimate_asteroid_us(&self) -> (r: i128)
        ensures
            r == self@.asteroid.estimate_us,
    {
        self.asteroid.estimate_us()
    }

    /// The thresholds that the controller was made with.
    pub fn config(&self) -> (r: Config)
        ensures
            r == self@.config,
            self@.wf(),
    {
        proof {
            use_type_invariant(self);
            use_type_invariant(&self.sunray);
            use_type_invariant(&self.asteroid);
        }
        self.config
    }

    /// Puts the controller in mode `state`, whatever the estimates say.
    pub fn set_state(&mut self, state: AIState)
        ensures
            final(self)@ == (AiView { state, ..old(self)@ }),
            final(self)@.wf(),
    {
        proof {
            use_type_invariant(&*self);
            use_type_invariant(&self.sunray);
            use_type_invariant(&self.asteroid);
        }
        self.state = state;
    }

    /// Records that `n` explorers are on the planet.
    pub fn set_number_explorers(&mut self, n: usize)
        ensures
            final(self)@ == (AiView { number_explorers: n as nat, ..old(self)@ }),
            final(self)@.wf(),
    {
        proof {
            use_type_invariant(&*self);
            use_type_invariant(&self.sunray);
            use_type_invariant(&self.asteroid);
        }
        self.number_explorers = n;
    }

    /// The reserve that holds at `now_ms` in the current mode.
    pub fn current_reserve(&self, now_ms: i64) -> (r: u32)
        ensures
            r == self@.reserve(now_ms as int),
    {
        compute_reserve(self.state, &self.config, &self.sunray, &self.asteroid, now_ms)
    }

    /// Takes note of a sunray at `now_ms`.
    pub fn update_sunray_esteem(&mut self, now_ms: i64)
        ensures
            final(self)@ == old(self)@.observe_sunray(now_ms as int),
            final(self)@.wf(),
    {
        proof {
            use_type_invariant(&*self);
            use_type_invariant(&self.asteroid);
        }
        let mut sunray = self.sunray;
        sunray.observe(now_ms, self.config.ema_alpha);
        self.sunray = sunray;
    }

    /// Takes note of an asteroid at `now_ms`.
    pub fn update_asteroid_esteem(&mut self, now_ms: i64)
        ensures
            final(self)@ == old(self)@.observe_asteroid(now_ms as int),
            final(self)@.wf(),
    {
        proof {
            use_type_invariant(&*self);
            use_type_invariant(&self.sunray);
        }
        let mut asteroid = self.asteroid;
        asteroid.observe(now_ms, self.config.ema_alpha);
        self.asteroid = asteroid;
    }

    /// Brings the mode in line with the estimates.
    pub fn change_state(&mut self)
        ensures
            final(self)@ == old(self)@.change_state(),
            final(self)@.wf(),
    {
        proof {
            use_type_invariant(&*self);
            use_type_invariant(&self.sunray);
            use_type_invariant(&self.asteroid);
        }
        self.state = reevaluate(
            self.state,
            &self.sunray,
            &self.asteroid,
            self.config.transition_sample_threshold,
        );
    }

    /// Handles a sunray at `now_ms`: the estimate is updated, the lowest empty
    /// cell is charged, a rocket is built if the slot is free, and the mode is
    /// brought in line. The answer is `AllCellsFull` exactly when no cell was
    /// empty; the rocket and the mode are seen to all the same.
    pub fn on_sunray(&mut self, cells: &mut CellStore, now_ms: i64) -> (r: Result<
        (),
        PlanetError,
    >)
        ensures
            final(self)@ == old(self)@.observe_sunray(now_ms as int).change_state(),
            final(self)@.wf(),
            final(cells)@ == cells_after_sunray(old(cells)@),
            r == sunray_reply(old(cells)@),
    {
        self.update_sunray_esteem(now_ms);
        let charged = cells.charge_cell();
        let _ = cells.build_rocket();
        self.change_state();
        charged
    }

    /// Handles an asteroid at `now_ms`: the estimate is updated and the rocket,
    /// if there is one, is spent. After a deflection a new rocket is built at
    /// once if a cell is charged, and the mode is brought in line. Without a
    /// rocket the planet is lost and nothing else changes.
    pub fn on_asteroid(&mut self, cells: &mut CellStore, now_ms: i64) -> (r: AsteroidOutcome)
        ensures
            final(self)@ == ai_after_asteroid(old(self)@, old(cells)@.rocket, now_ms as int),
            final(self)@.wf(),
            final(cells)@ == cells_after_asteroid(old(cells)@),
            r == asteroid_outcome(old(cells)@),
    {
        self.update_asteroid_esteem(now_ms);
        if cells.take_rocket() {
            let _ = cells.build_rocket();
            self.change_state();
            AsteroidOutcome::Deflected
        } else {
            AsteroidOutcome::Destroyed
        }
    }

    /// Produces carbon from the lowest full cell if more than `safe_cells`
    /// cells are charged, and no more than the configured capacity.
    pub fn generate_carbon_if_have_n_safe_cells(
        &self,
        cells: &mut CellStore,
        safe_cells: u32,
    ) -> (r: Result<CarbonUnit, PlanetError>)
        ensures
            r == carbon_reply(
                old(cells)@,
                admission(
                    old(cells)@.charged(),
                    self@.config.capacity as nat,
                    safe_cells as nat,
                ),
            ),
            final(cells)@ == cells_after_request(
                old(cells)@,
                admission(
                    old(cells)@.charged(),
                    self@.config.capacity as nat,
                    safe_cells as nat,
                ),
            ),
    {
        let charged = cells.charged_count();
        match decide_admission(charged, self.config.capacity, safe_cells) {
            Ok(_) => {
                proof {
                    crate::cells::lemma_cells_counts(cells@);
                }
                match cells.discharge_cell() {
                    Some(cell) => Ok(CarbonUnit { cell }),
                    None => Err(PlanetError::InsufficientCharge),
                }
            },
            Err(e) => Err(e),
        }
    }

    /// Produces carbon under the fixed reserve of the safe mode.
    pub fn generate_carbon_safe_state(&self, cells: &mut CellStore) -> (r: Result<
        CarbonUnit,
        PlanetError,
    >)
        ensures
            r == carbon_reply(
                old(cells)@,
                admission(
                    old(cells)@.charged(),
                    self@.config.capacity as nat,
                    self@.config.conservative_reserve as nat,
                ),
            ),
            final(cells)@ == cells_after_request(
                old(cells)@,
                admission(
                    old(cells)@.charged(),
                    self@.config.capacity as nat,
                    self@.config.conservative_reserve as nat,
                ),
            ),
    {
        self.generate_carbon_if_have_n_safe_cells(cells, self.config.conservative_reserve)
    }

    /// Produces carbon under the reserve that the statistic mode computes for
    /// `now_ms`.
    pub fn generate_carbon_statistic_state(&self, cells: &mut CellStore, now_ms: i64) -> (r:
        Result<CarbonUnit, PlanetError>)
        ensures
            r == carbon_reply(
                old(cells)@,
                admission(
                    old(cells)@.charged(),
                    self@.config.capacity as nat,
                    statistic_reserve(
                        self@.config,
                        self@.sunray,
                        self@.asteroid,
                        now_ms as int,
                    ),
                ),
            ),
            final(cells)@ == cells_after_request(
                old(cells)@,
                admission(
                    old(cells)@.charged(),
                    self@.config.capacity as nat,
                    statistic_reserve(
                        self@.config,
                        self@.sunray,
                        self@.asteroid,
                        now_ms as int,
                    ),
                ),
            ),
    {
        let safe_cells = compute_statistic_reserve(
            &self.config,
            &self.sunray,
            &self.asteroid,
            now_ms,
        );
        self.generate_carbon_if_have_n_safe_cells(cells, safe_cells)
    }

    /// Answers a request for carbon at `now_ms` under the reserve of the
    /// current mode. The mode itself is left as it is.
    pub fn generate_carbon(&self, cells: &mut CellStore, now_ms: i64) -> (r: Result<
        CarbonUnit,
        PlanetError,
    >)
        ensures
            r == carbon_reply(old(cells)@, self@.carbon_admission(old(cells)@, now_ms as int)),
            final(cells)@ == cells_after_request(
                old(cells)@,
                self@.carbon_admission(old(cells)@, now_ms as int),
            ),
    {
        match self.state {
            AIState::SafeState => self.generate_carbon_safe_state(cells),
            AIState::StatisticState => self.generate_carbon_statistic_state(cells, now_ms),
        }
    }

    /// Answers a request for a resource of `kind` at `now_ms`. Anything but
    /// carbon is refused as `UnsupportedResource`, before the cells are looked at.
    pub fn generate_resource(
        &self,
        cells: &mut CellStore,
        kind: BasicResourceType,
        now_ms: i64,
    ) -> (r: Result<CarbonUnit, PlanetError>)
        ensures
            r == carbon_reply(
                old(cells)@,
                self@.resource_admission(old(cells)@, kind, now_ms as int),
            ),
            final(cells)@ == cells_after_request(
                old(cells)@,
                self@.resource_admission(old(cells)@, kind, now_ms as int),
            ),
    {
        match kind {
            BasicResourceType::Carbon => self.generate_carbon(cells, now_ms),
            _ => Err(PlanetError::UnsupportedResource),
        }
    }

    /// Handles one event and answers it.
    pub fn handle_event(&mut self, cells: &mut CellStore, event: Event) -> (r: Reply)
        ensures
            (World { ai: final(self)@, cells: final(cells)@ }) == step(
                World { ai: old(self)@, cells: old(cells)@ },
                event,
            ),
            r == reply(World { ai: old(self)@, cells: old(cells)@ }, event),
    {
        match event {
            Event::Sunray { now_ms } => Reply::Sunray(self.on_sunray(cells, now_ms)),
            Event::Asteroid { now_ms } => Reply::Asteroid(self.on_asteroid(cells, now_ms)),
            Event::ResourceRequest { kind, now_ms } => Reply::Resource(
                self.generate_resource(cells, kind, now_ms),
            ),
        }
    }
}

} // verus!
