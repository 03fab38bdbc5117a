//! The controller driven by the game's own planet runtime, on one thread: the
//! messages are queued first, then the planet runs until it is killed. Every
//! event is handled on the game's state and, beside it, on a `CellStore` copy;
//! the two are held against each other after each event.

use ciuc_planet::config::Config;
use ciuc_planet::planet::{
    available_energy_cells, build_rocket, charge_cell_with_sunray, deflect_asteroid,
    generate_resource, on_asteroid, on_sunray, snapshot,
};
use ciuc_planet::{
    generation_rules, AsteroidOutcome, BasicResourceType, CellStore, CiucAI, PlanetError,
};
use common_game::components::asteroid::Asteroid;
use common_game::components::planet::{
    DummyPlanetState, Planet, PlanetAI, PlanetState, PlanetType,
};
use common_game::components::resource::{
    BasicResource, BasicResourceType as GameKind, Combinator, Generator,
};
use common_game::components::rocket::Rocket;
use common_game::components::sunray::Sunray;
use common_game::protocols::orchestrator_planet::{OrchestratorToPlanet, PlanetToOrchestrator};
use common_game::protocols::planet_explorer::{ExplorerToPlanet, PlanetToExplorer};
use crossbeam_channel::{unbounded, Receiver, Sender};

const EXPLORER: u32 = 2;

/// What the controller answered to one event.
#[derive(Clone, Copy, Debug, PartialEq)]
enum Seen {
    Sunray(Result<(), PlanetError>),
    Asteroid(bool),
    Resource(Result<(), PlanetError>),
    Cells(u32),
}

fn to_game_kind(kind: BasicResourceType) -> GameKind {
    match kind {
        BasicResourceType::Oxygen => GameKind::Oxygen,
        BasicResourceType::Hydrogen => GameKind::Hydrogen,
        BasicResourceType::Carbon => GameKind::Carbon,
        BasicResourceType::Silicon => GameKind::Silicon,
    }
}

fn from_game_kind(kind: GameKind) -> BasicResourceType {
    match kind {
        GameKind::Oxygen => BasicResourceType::Oxygen,
        GameKind::Hydrogen => BasicResourceType::Hydrogen,
        GameKind::Carbon => BasicResourceType::Carbon,
        GameKind::Silicon => BasicResourceType::Silicon,
    }
}

fn assert_same(state: &PlanetState, cells: &CellStore) {
    assert_eq!(state.cells_count(), cells.capacity());
    for i in 0..cells.capacity() {
        assert_eq!(state.cell(i).is_charged(), cells.is_charged(i), "cell {}", i);
    }
    assert_eq!(state.has_rocket(), cells.has_rocket());
    assert_eq!(state.to_dummy().charged_cells_count, cells.charged_count());
    assert_eq!(&snapshot(state), cells);
}

/// Drives the game's state through the library, and a copy of it beside.
struct Mirror {
    ai: CiucAI,
    twin: CiucAI,
    times: Vec<i64>,
    requests_left: usize,
    orchestrator: Sender<OrchestratorToPlanet>,
    seen: Sender<Seen>,
}

impl Mirror {
    fn tick(&mut self) -> i64 {
        self.times.remove(0)
    }

    fn assert_same_controllers(&self) {
        assert_eq!(self.ai.state(), self.twin.state());
        assert_eq!(self.ai.count_sunrays(), self.twin.count_sunrays());
        assert_eq!(self.ai.count_asteroids(), self.twin.count_asteroids());
        assert_eq!(self.ai.estimate_sunray_us(), self.twin.estimate_sunray_us());
        assert_eq!(self.ai.estimate_asteroid_us(), self.twin.estimate_asteroid_us());
        assert_eq!(self.ai.last_time_sunray(), self.twin.last_time_sunray());
        assert_eq!(self.ai.last_time_asteroid(), self.twin.last_time_asteroid());
    }
}

impl PlanetAI for Mirror {
    fn handle_sunray(
        &mut self,
        state: &mut PlanetState,
        _generator: &Generator,
        _combinator: &Combinator,
        sunray: Sunray,
    ) {
        let now = self.tick();
        let mut cells = snapshot(state);
        let answer = on_sunray(&mut self.ai, state, sunray, now);
        if state.can_have_rocket() {
            assert_eq!(self.twin.on_sunray(&mut cells, now), answer);
        } else {
            self.twin.update_sunray_esteem(now);
            assert_eq!(cells.charge_cell(), answer);
            self.twin.change_state();
        }
        assert_same(state, &cells);
        self.assert_same_controllers();
        self.seen.send(Seen::Sunray(answer)).unwrap();
    }

    fn handle_asteroid(
        &mut self,
        state: &mut PlanetState,
        _generator: &Generator,
        _combinator: &Combinator,
    ) -> Option<Rocket> {
        let now = self.tick();
        let mut cells = snapshot(state);
        let rocket = on_asteroid(&mut self.ai, state, now);
        let outcome = self.twin.on_asteroid(&mut cells, now);
        assert_eq!(outcome == AsteroidOutcome::Deflected, rocket.is_some());
        assert_same(state, &cells);
        self.assert_same_controllers();
        self.seen.send(Seen::Asteroid(rocket.is_some())).unwrap();
        rocket
    }

    fn handle_internal_state_req(
        &mut self,
        state: &mut PlanetState,
        _generator: &Generator,
        _combinator: &Combinator,
    ) -> DummyPlanetState {
        state.to_dummy()
    }

    fn handle_explorer_msg(
        &mut self,
        state: &mut PlanetState,
        generator: &Generator,
        combinator: &Combinator,
        msg: ExplorerToPlanet,
    ) -> Option<PlanetToExplorer> {
        let now = self.tick();
        let mut cells = snapshot(state);
        let response = match msg {
            ExplorerToPlanet::SupportedResourceRequest { .. } => {
                Some(PlanetToExplorer::SupportedResourceResponse {
                    resource_list: generator.all_available_recipes(),
                })
            }
            ExplorerToPlanet::SupportedCombinationRequest { .. } => {
                Some(PlanetToExplorer::SupportedCombinationResponse {
                    combination_list: combinator.all_available_recipes(),
                })
            }
            ExplorerToPlanet::GenerateResourceRequest { resource, .. } => {
                let kind = from_game_kind(resource);
                let made = generate_resource(&self.ai, state, generator, kind, now);
                let twin = self.twin.generate_resource(&mut cells, kind, now);
                if generator.contains(GameKind::Carbon) {
                    assert_eq!(made.is_ok(), twin.is_ok());
                    if let Ok(unit) = twin {
                        assert!(!state.cell(unit.cell).is_charged());
                    }
                } else {
                    // the copy knows of no generator: undo what it spent
                    assert!(made.is_err());
                    cells = snapshot(state);
                }
                self.seen.send(Seen::Resource(made.as_ref().map(|_| ()).map_err(|e| *e))).unwrap();
                made.ok().map(|carbon| PlanetToExplorer::GenerateResourceResponse {
                    resource: Some(BasicResource::Carbon(carbon)),
                })
            }
            ExplorerToPlanet::CombineResourceRequest { .. } => None,
            ExplorerToPlanet::AvailableEnergyCellRequest { .. } => {
                let available_cells = available_energy_cells(state);
                self.seen.send(Seen::Cells(available_cells)).unwrap();
                Some(PlanetToExplorer::AvailableEnergyCellResponse { available_cells })
            }
        };
        assert_same(state, &cells);
        self.assert_same_controllers();
        self.requests_left -= 1;
        if self.requests_left == 0 {
            self.orchestrator.send(OrchestratorToPlanet::KillPlanet).unwrap();
        }
        response
    }

    fn on_start(&mut self, state: &PlanetState, _generator: &Generator, _combinator: &Combinator) {
        assert_eq!(snapshot(state), CellStore::new(state.cells_count()));
    }
}

struct Game {
    planet: Planet,
    to_planet: Sender<OrchestratorToPlanet>,
    from_planet: Receiver<PlanetToOrchestrator>,
    explorer_to_planet: Sender<ExplorerToPlanet>,
    planet_to_explorer: Receiver<PlanetToExplorer>,
    seen: Receiver<Seen>,
}

/// A started planet with one explorer on it, whose events happen at `times`
/// and which is killed after `requests` messages of the explorer.
fn game_of(
    planet_type: PlanetType,
    rules: Vec<GameKind>,
    config: Config,
    times: Vec<i64>,
    requests: usize,
) -> Game {
    let (to_planet, orchestrator_in) = unbounded::<OrchestratorToPlanet>();
    let (orchestrator_out, from_planet) = unbounded::<PlanetToOrchestrator>();
    let (explorer_to_planet, explorer_in) = unbounded::<ExplorerToPlanet>();
    let (explorer_out, planet_to_explorer) = unbounded::<PlanetToExplorer>();
    let (seen_in, seen) = unbounded::<Seen>();
    let mirror = Mirror {
        ai: CiucAI::with_config(config).unwrap(),
        twin: CiucAI::with_config(config).unwrap(),
        times,
        requests_left: requests,
        orchestrator: to_planet.clone(),
        seen: seen_in,
    };
    let planet = Planet::new(
        1,
        planet_type,
        Box::new(mirror),
        rules,
        vec![],
        (orchestrator_in, orchestrator_out),
        explorer_in,
    )
    .unwrap();
    to_planet.send(OrchestratorToPlanet::StartPlanetAI).unwrap();
    to_planet
        .send(OrchestratorToPlanet::IncomingExplorerRequest {
            explorer_id: EXPLORER,
            new_sender: explorer_out,
        })
        .unwrap();
    Game { planet, to_planet, from_planet, explorer_to_planet, planet_to_explorer, seen }
}

/// The planet as it is meant to be: type A, carbon as its only resource, the
/// standard thresholds, one event every second.
fn game(requests: usize) -> Game {
    let rules = generation_rules().into_iter().map(to_game_kind).collect();
    let times = (1..=100).map(|i| 1000 * i).collect();
    game_of(PlanetType::A, rules, Config::new(5), times, requests)
}

fn sunray(game: &Game) {
    game.to_planet.send(OrchestratorToPlanet::Sunray(Sunray::default())).unwrap();
}

fn asteroid(game: &Game) {
    game.to_planet.send(OrchestratorToPlanet::Asteroid(Asteroid::default())).unwrap();
}

fn ask(game: &Game, resource: GameKind) {
    game.explorer_to_planet
        .send(ExplorerToPlanet::GenerateResourceRequest { explorer_id: EXPLORER, resource })
        .unwrap();
}

fn ask_cells(game: &Game) {
    game.explorer_to_planet
        .send(ExplorerToPlanet::AvailableEnergyCellRequest { explorer_id: EXPLORER })
        .unwrap();
}

fn run(game: &mut Game) -> Vec<Seen> {
    assert_eq!(game.planet.run(), Ok(()));
    game.seen.try_iter().collect()
}

#[test]
fn runtime_asteroids_and_rockets() {
    let mut game = game(1);
    asteroid(&game);
    sunray(&game);
    asteroid(&game);
    asteroid(&game);
    sunray(&game);
    sunray(&game);
    asteroid(&game);
    asteroid(&game);
    asteroid(&game);
    ask_cells(&game);
    assert_eq!(
        run(&mut game),
        vec![
            Seen::Asteroid(false),
            Seen::Sunray(Ok(())),
            Seen::Asteroid(true),
            Seen::Asteroid(false),
            Seen::Sunray(Ok(())),
            Seen::Sunray(Ok(())),
            Seen::Asteroid(true),
            Seen::Asteroid(true),
            Seen::Asteroid(false),
            Seen::Cells(0),
        ]
    );
    assert!(!game.planet.state().has_rocket());
    // the runtime hands the orchestrator the rocket that the controller gave out
    let mut acks = Vec::new();
    for msg in game.from_planet.try_iter() {
        if let PlanetToOrchestrator::AsteroidAck { rocket, .. } = msg {
            acks.push(rocket.is_some());
        }
    }
    assert_eq!(acks, vec![false, true, false, true, true, false]);
}

#[test]
fn runtime_four_sunrays_then_an_asteroid() {
    let mut first = game(2);
    for _ in 0..4 {
        sunray(&first);
    }
    ask_cells(&first);
    ask_cells(&first);
    assert_eq!(run(&mut first)[4..], [Seen::Cells(3), Seen::Cells(3)]);
    let state = first.planet.state().to_dummy();
    assert_eq!(state.energy_cells, vec![true, true, true, false, false]);
    assert!(state.has_rocket);

    let mut second = game(1);
    for _ in 0..4 {
        sunray(&second);
    }
    asteroid(&second);
    ask_cells(&second);
    assert_eq!(run(&mut second)[4..], [Seen::Asteroid(true), Seen::Cells(2)]);
    let state = second.planet.state().to_dummy();
    assert_eq!(state.energy_cells, vec![false, true, true, false, false]);
    assert!(state.has_rocket);
}

#[test]
fn runtime_production_in_the_safe_mode() {
    let mut game = game(5);
    for _ in 0..5 {
        sunray(&game);
    }
    ask_cells(&game);
    ask(&game, GameKind::Carbon);
    ask(&game, GameKind::Carbon);
    ask(&game, GameKind::Oxygen);
    ask_cells(&game);
    assert_eq!(
        run(&mut game)[5..],
        [
            Seen::Cells(4),
            Seen::Resource(Ok(())),
            Seen::Resource(Err(PlanetError::InsufficientCharge)),
            Seen::Resource(Err(PlanetError::UnsupportedResource)),
            Seen::Cells(3),
        ]
    );
    let answers: Vec<PlanetToExplorer> = game.planet_to_explorer.try_iter().collect();
    // the refused requests get no answer
    assert_eq!(answers.len(), 3);
    match &answers[1] {
        PlanetToExplorer::GenerateResourceResponse { resource: Some(BasicResource::Carbon(_)) } => {
        }
        other => panic!("no carbon: {:?}", other),
    }
    let state = game.planet.state().to_dummy();
    assert_eq!(state.energy_cells, vec![false, true, true, true, false]);
    assert!(state.has_rocket);
}

#[test]
fn runtime_production_in_the_statistic_mode() {
    let rules = generation_rules().into_iter().map(to_game_kind).collect();
    let times = vec![
        1000, 1500, 2000, 3000, 3500, 4000, 5000, 5500, 6000, 7000, 7500, // the traffic
        7600, 7600, 7750, 7751, 7751, 7751,
    ];
    let mut game = game_of(PlanetType::A, rules, Config::new(5), times, 6);
    for _ in 0..3 {
        sunray(&game);
        asteroid(&game);
        sunray(&game);
    }
    sunray(&game);
    asteroid(&game);
    ask(&game, GameKind::Carbon);
    ask(&game, GameKind::Carbon);
    ask(&game, GameKind::Carbon);
    ask(&game, GameKind::Carbon);
    ask(&game, GameKind::Carbon);
    ask_cells(&game);
    assert_eq!(
        run(&mut game)[11..],
        [
            Seen::Resource(Ok(())),
            Seen::Resource(Err(PlanetError::InsufficientCharge)),
            Seen::Resource(Err(PlanetError::InsufficientCharge)),
            Seen::Resource(Ok(())),
            Seen::Resource(Err(PlanetError::InsufficientCharge)),
            Seen::Cells(0),
        ]
    );
    assert!(game.planet.state().has_rocket());
}

#[test]
fn test_supported_resource_request() {
    let mut game = game(1);
    game.explorer_to_planet
        .send(ExplorerToPlanet::SupportedResourceRequest { explorer_id: EXPLORER })
        .unwrap();
    assert_eq!(run(&mut game), vec![]);
    let answers: Vec<PlanetToExplorer> = game.planet_to_explorer.try_iter().collect();
    assert_eq!(answers.len(), 1);
    match &answers[0] {
        PlanetToExplorer::SupportedResourceResponse { resource_list } => {
            let mut resource_list = resource_list.clone();
            assert!(resource_list.contains(&GameKind::Carbon), "Expected to have Carbon.");
            resource_list.remove(&GameKind::Carbon);
            assert!(resource_list.is_empty(), "Expected to be empty.");
        }
        other => panic!("unexpected answer: {:?}", other),
    }
}

#[test]
fn runtime_full_planet_keeps_taking_sunrays() {
    let mut game = game(1);
    for _ in 0..8 {
        sunray(&game);
    }
    ask_cells(&game);
    let seen = run(&mut game);
    assert_eq!(seen[..6], [Seen::Sunray(Ok(())); 6]);
    assert_eq!(
        seen[6..],
        [
            Seen::Sunray(Err(PlanetError::AllCellsFull)),
            Seen::Sunray(Err(PlanetError::AllCellsFull)),
            Seen::Cells(5),
        ]
    );
    let state = game.planet.state().to_dummy();
    assert_eq!(state.energy_cells, vec![true; 5]);
    assert!(state.has_rocket);
}

#[test]
fn runtime_generator_without_the_recipe() {
    let times = (1..=100).map(|i| 1000 * i).collect();
    let mut game = game_of(PlanetType::A, vec![GameKind::Oxygen], Config::new(5), times, 3);
    for _ in 0..6 {
        sunray(&game);
    }
    ask_cells(&game);
    ask(&game, GameKind::Carbon);
    ask_cells(&game);
    assert_eq!(
        run(&mut game)[6..],
        [Seen::Cells(5), Seen::Resource(Err(PlanetError::UnsupportedResource)), Seen::Cells(5)]
    );
    assert!(game.planet_to_explorer.try_iter().count() == 2);
}

#[test]
fn runtime_planet_that_may_not_have_a_rocket() {
    let times = (1..=100).map(|i| 1000 * i).collect();
    let rules = generation_rules().into_iter().map(to_game_kind).collect();
    let mut game = game_of(PlanetType::D, rules, Config::new(5), times, 2);
    sunray(&game);
    sunray(&game);
    asteroid(&game);
    for _ in 0..2 {
        sunray(&game);
    }
    ask(&game, GameKind::Carbon);
    ask_cells(&game);
    assert_eq!(
        run(&mut game),
        vec![
            Seen::Sunray(Ok(())),
            Seen::Sunray(Ok(())),
            Seen::Asteroid(false),
            Seen::Sunray(Ok(())),
            Seen::Sunray(Ok(())),
            Seen::Resource(Ok(())),
            Seen::Cells(3),
        ]
    );
    let state = game.planet.state().to_dummy();
    assert_eq!(state.energy_cells, vec![false, true, true, true, false]);
    assert!(!state.has_rocket);
}

#[test]
fn runtime_more_charge_than_the_controller_allows() {
    let times = (1..=100).map(|i| 1000 * i).collect();
    let rules = generation_rules().into_iter().map(to_game_kind).collect();
    let mut config = Config::new(2);
    config.conservative_reserve = 1;
    let mut game = game_of(PlanetType::A, rules, config, times, 4);
    for _ in 0..4 {
        sunray(&game);
    }
    ask(&game, GameKind::Carbon);
    asteroid(&game);
    ask(&game, GameKind::Carbon);
    ask(&game, GameKind::Carbon);
    ask_cells(&game);
    // the asteroid comes first: the orchestrator's messages go before the explorer's
    assert_eq!(
        run(&mut game)[4..],
        [
            Seen::Asteroid(true),
            Seen::Resource(Ok(())),
            Seen::Resource(Err(PlanetError::InsufficientCharge)),
            Seen::Resource(Err(PlanetError::InsufficientCharge)),
            Seen::Cells(1),
        ]
    );

    let times = (1..=100).map(|i| 1000 * i).collect();
    let rules = generation_rules().into_iter().map(to_game_kind).collect();
    let mut game = game_of(PlanetType::A, rules, config, times, 2);
    for _ in 0..4 {
        sunray(&game);
    }
    ask(&game, GameKind::Carbon);
    ask_cells(&game);
    assert_eq!(
        run(&mut game)[4..],
        [Seen::Resource(Err(PlanetError::InvalidState)), Seen::Cells(3)]
    );
}

/// Charges a cell on a sunray, tries to build a rocket on an asteroid, and on
/// a request for its state gives up the rocket and has the planet killed.
struct Builder {
    orchestrator: Sender<OrchestratorToPlanet>,
    charged: Sender<Result<(), PlanetError>>,
    built: Sender<(Result<(), PlanetError>, bool)>,
    given_up: Sender<bool>,
}

impl PlanetAI for Builder {
    fn handle_sunray(
        &mut self,
        state: &mut PlanetState,
        _generator: &Generator,
        _combinator: &Combinator,
        sunray: Sunray,
    ) {
        let mut expected = snapshot(state);
        let answer = charge_cell_with_sunray(state, sunray);
        assert_eq!(expected.charge_cell(), answer);
        assert_eq!(snapshot(state), expected);
        self.charged.send(answer).unwrap();
    }

    fn handle_asteroid(
        &mut self,
        state: &mut PlanetState,
        _generator: &Generator,
        _combinator: &Combinator,
    ) -> Option<Rocket> {
        let mut expected = snapshot(state);
        let answer = build_rocket(state);
        assert_eq!(expected.build_rocket(), answer);
        assert_eq!(snapshot(state), expected);
        self.built.send((answer, state.has_rocket())).unwrap();
        None
    }

    fn handle_internal_state_req(
        &mut self,
        state: &mut PlanetState,
        _generator: &Generator,
        _combinator: &Combinator,
    ) -> DummyPlanetState {
        let mut expected = snapshot(state);
        let rocket = deflect_asteroid(state);
        assert_eq!(expected.take_rocket(), rocket.is_some());
        assert_eq!(snapshot(state), expected);
        self.given_up.send(rocket.is_some()).unwrap();
        if rocket.is_none() {
            self.orchestrator.send(OrchestratorToPlanet::KillPlanet).unwrap();
        }
        state.to_dummy()
    }

    fn handle_explorer_msg(
        &mut self,
        _state: &mut PlanetState,
        _generator: &Generator,
        _combinator: &Combinator,
        _msg: ExplorerToPlanet,
    ) -> Option<PlanetToExplorer> {
        None
    }
}

#[test]
fn runtime_single_steps() {
    let (to_planet, orchestrator_in) = unbounded::<OrchestratorToPlanet>();
    let (orchestrator_out, _from_planet) = unbounded::<PlanetToOrchestrator>();
    let (_explorer_to_planet, explorer_in) = unbounded::<ExplorerToPlanet>();
    let (charged_in, charged) = unbounded();
    let (built_in, built) = unbounded();
    let (given_up_in, given_up) = unbounded();
    let builder = Builder {
        orchestrator: to_planet.clone(),
        charged: charged_in,
        built: built_in,
        given_up: given_up_in,
    };
    let mut planet = Planet::new(
        1,
        PlanetType::C,
        Box::new(builder),
        vec![GameKind::Carbon],
        vec![],
        (orchestrator_in, orchestrator_out),
        explorer_in,
    )
    .unwrap();
    // a planet of one cell
    to_planet.send(OrchestratorToPlanet::StartPlanetAI).unwrap();
    to_planet.send(OrchestratorToPlanet::Asteroid(Asteroid::default())).unwrap();
    to_planet.send(OrchestratorToPlanet::Sunray(Sunray::default())).unwrap();
    to_planet.send(OrchestratorToPlanet::Sunray(Sunray::default())).unwrap();
    to_planet.send(OrchestratorToPlanet::Asteroid(Asteroid::default())).unwrap();
    to_planet.send(OrchestratorToPlanet::Sunray(Sunray::default())).unwrap();
    to_planet.send(OrchestratorToPlanet::Asteroid(Asteroid::default())).unwrap();
    to_planet.send(OrchestratorToPlanet::InternalStateRequest).unwrap();
    to_planet.send(OrchestratorToPlanet::InternalStateRequest).unwrap();
    assert_eq!(planet.run(), Ok(()));
    let charged: Vec<Result<(), PlanetError>> = charged.try_iter().collect();
    assert_eq!(charged, vec![Ok(()), Err(PlanetError::AllCellsFull), Ok(())]);
    let built: Vec<(Result<(), PlanetError>, bool)> = built.try_iter().collect();
    assert_eq!(
        built,
        vec![
            (Err(PlanetError::NoChargedCell), false),
            (Ok(()), true),
            (Err(PlanetError::NoChargedCell), true),
        ]
    );
    let given_up: Vec<bool> = given_up.try_iter().collect();
    assert_eq!(given_up, vec![true, false]);
    let state = planet.state().to_dummy();
    assert_eq!(state.energy_cells, vec![true]);
    assert!(!state.has_rocket);
}
