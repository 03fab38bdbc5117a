//! The controller at work on the game's own planet state.
//!
//! The game keeps the planet's cells and rocket in a `PlanetState` of
//! `common_game`, which only the game's runtime can make and which Verus cannot
//! look into. Its cells and rocket slot are therefore named here, and each
//! method of it that the controller calls is given a contract over those names,
//! taken from the method's source. The handlers below are proved against these
//! contracts: they do to the planet what the controller's handlers do to a
//! `CellStore`.

use crate::cells::lemma_cells_counts;
use crate::cells::lemma_lowest;
use crate::cells::lowest;
use crate::cells::CellStore;
use crate::cells::CellsView;
use crate::ciuc_ai::ai_after_asteroid;
use crate::ciuc_ai::cells_after_asteroid;
use crate::ciuc_ai::cells_after_request;
use crate::ciuc_ai::cells_after_sunray;
use crate::ciuc_ai::sunray_reply;
use crate::ciuc_ai::AiView;
use crate::ciuc_ai::BasicResourceType;
use crate::ciuc_ai::CiucAI;
use crate::error::PlanetError;
use crate::reservation::admission;
use crate::reservation::decide_admission;
use common_game::components::planet::PlanetState;
use common_game::components::resource::Carbon;
use common_game::components::resource::Generator;
use common_game::components::rocket::Rocket;
use common_game::components::sunray::Sunray;
use vstd::prelude::*;

verus! {

/// `common_game`'s planet state: the cells, the rocket slot and whether the
/// planet's type allows a rocket.
#[verifier::external_type_specification]
#[verifier::external_body]
pub struct ExPlanetState(common_game::components::planet::PlanetState);

/// `common_game`'s sunray: a token that charges one cell.
#[verifier::external_type_specification]
#[verifier::external_body]
pub struct ExSunray(common_game::components::sunray::Sunray);

/// `common_game`'s rocket: a token that deflects one asteroid.
#[verifier::external_type_specification]
#[verifier::external_body]
pub struct ExRocket(common_game::components::rocket::Rocket);

/// `common_game`'s generator: the set of basic resources a planet can make.
#[verifier::external_type_specification]
#[verifier::external_body]
pub struct ExGenerator(common_game::components::resource::Generator);

/// `common_game`'s carbon: one unit of the resource.
#[verifier::external_type_specification]
#[verifier::external_body]
pub struct ExCarbon(common_game::components::resource::Carbon);

/// Charge state of each energy cell of the planet, by index.
pub uninterp spec fn planet_cells(state: PlanetState) -> Seq<bool>;

/// Whether the planet holds a rocket.
pub uninterp spec fn planet_has_rocket(state: PlanetState) -> bool;

/// Whether the planet's type lets it hold a rocket.
pub uninterp spec fn planet_can_have_rocket(state: PlanetState) -> bool;

/// Whether the generator has the recipe for carbon.
pub uninterp spec fn generator_makes_carbon(generator: Generator) -> bool;

/// The cells and the rocket slot of the planet.
pub open spec fn planet_view(state: PlanetState) -> CellsView {
    CellsView { cells: planet_cells(state), rocket: planet_has_rocket(state) }
}

/// What an attempt to build a rocket makes of the cells `v`, on a planet whose
/// type allows a rocket or not.
pub open spec fn rocket_attempt(v: CellsView, can_have_rocket: bool) -> CellsView {
    if can_have_rocket {
        v.build_rocket()
    } else {
        v
    }
}

/// Calls `PlanetState::to_dummy`, which copies out the charge state of every
/// cell, in order, and whether a rocket is there.
#[verifier::external_body]
fn planet_overview(state: &PlanetState) -> (r: (Vec<bool>, bool))
    ensures
        r.0@ == planet_cells(*state),
        r.1 == planet_has_rocket(*state),
{
    let dummy = state.to_dummy();
    (dummy.energy_cells, dummy.has_rocket)
}

/// Calls `PlanetState::charge_cell`, which charges the first empty cell with
/// the sunray, or hands the sunray back where no cell is empty. The rocket is
/// not touched.
#[verifier::external_body]
fn planet_charge_cell(state: &mut PlanetState, sunray: Sunray) -> (r: Option<Sunray>)
    ensures
        planet_view(*final(state)) == planet_view(*old(state)).charge(),
        planet_can_have_rocket(*final(state)) == planet_can_have_rocket(*old(state)),
        r is None <==> planet_view(*old(state)).has_empty(),
{
    state.charge_cell(sunray)
}

/// Calls `PlanetState::full_cell` and keeps the index of what it finds: the
/// first charged cell, or nothing where no cell is charged. The state is left
/// as it was.
#[verifier::external_body]
fn planet_full_cell(state: &mut PlanetState) -> (r: Option<usize>)
    ensures
        *final(state) == *old(state),
        match r {
            Some(i) => i == lowest(planet_cells(*old(state)), true) && i < planet_cells(
                *old(state),
            ).len(),
            None => lowest(planet_cells(*old(state)), true) == planet_cells(*old(state)).len(),
        },
{
    state.full_cell().map(|(_, i)| i)
}

/// Calls `PlanetState::build_rocket`, which discharges cell `i` and puts a
/// rocket in the slot. It fails, and changes nothing, where the planet's type
/// allows no rocket, where a rocket is already there, or where cell `i` is not
/// charged. It panics where there is no cell `i`.
#[verifier::external_body]
fn planet_build_rocket(state: &mut PlanetState, i: usize) -> (r: Result<(), String>)
    requires
        i < planet_cells(*old(state)).len(),
    ensures
        r is Ok <==> planet_can_have_rocket(*old(state)) && !planet_has_rocket(*old(state))
            && planet_cells(*old(state))[i as int],
        r is Ok ==> planet_cells(*final(state)) == planet_cells(*old(state)).update(
            i as int,
            false,
        ) && planet_has_rocket(*final(state)),
        r is Err ==> planet_view(*final(state)) == planet_view(*old(state)),
        planet_can_have_rocket(*final(state)) == planet_can_have_rocket(*old(state)),
{
    state.build_rocket(i)
}

/// Calls `PlanetState::take_rocket`, which hands out the rocket, if there is
/// one, and leaves the slot empty. The cells are not touched.
#[verifier::external_body]
fn planet_take_rocket(state: &mut PlanetState) -> (r: Option<Rocket>)
    ensures
        r is Some <==> planet_has_rocket(*old(state)),
        planet_view(*final(state)) == planet_view(*old(state)).take_rocket(),
        planet_can_have_rocket(*final(state)) == planet_can_have_rocket(*old(state)),
{
    state.take_rocket()
}

/// Calls `Generator::make_carbon` on cell `i`, borrowed by
/// `PlanetState::cell_mut`. The generator discharges the cell and makes one
/// carbon; it fails, and changes nothing, where it has no recipe for carbon or
/// the cell is not charged. `cell_mut` panics where there is no cell `i`.
#[verifier::external_body]
fn planet_make_carbon(generator: &Generator, state: &mut PlanetState, i: usize) -> (r: Result<
    Carbon,
    String,
>)
    requires
        i < planet_cells(*old(state)).len(),
    ensures
        r is Ok <==> generator_makes_carbon(*generator) && planet_cells(*old(state))[i as int],
        planet_cells(*final(state)) == (if r is Ok {
            planet_cells(*old(state)).update(i as int, false)
        } else {
            planet_cells(*old(state))
        }),
        planet_has_rocket(*final(state)) == planet_has_rocket(*old(state)),
        planet_can_have_rocket(*final(state)) == planet_can_have_rocket(*old(state)),
{
    generator.make_carbon(state.cell_mut(i))
}

/// A copy of the planet's cells and rocket slot.
pub fn snapshot(state: &PlanetState) -> (r: CellStore)
    ensures
        r@ == planet_view(*state),
{
    let (cells, rocket) = planet_overview(state);
    CellStore::from_parts(cells, rocket)
}

/// Charges the lowest empty cell of the planet with the sunray. Fails with
/// `AllCellsFull`, and changes nothing, exactly when no cell is empty.
pub fn charge_cell_with_sunray(state: &mut PlanetState, sunray: Sunray) -> (r: Result<
    (),
    PlanetError,
>)
    ensures
        planet_view(*final(state)) == planet_view(*old(state)).charge(),
        planet_can_have_rocket(*final(state)) == planet_can_have_rocket(*old(state)),
        r == sunray_reply(planet_view(*old(state))),
{
    match planet_charge_cell(state, sunray) {
        None => Ok(()),
        Some(_) => Err(PlanetError::AllCellsFull),
    }
}

/// Builds a rocket from the lowest full cell of the planet. Fails with
/// `NoChargedCell`, and changes nothing, exactly when no cell is full, a
/// rocket is already there, or the planet's type allows none.
pub fn build_rocket(state: &mut PlanetState) -> (r: Result<(), PlanetError>)
    ensures
        planet_view(*final(state)) == rocket_attempt(
            planet_view(*old(state)),
            planet_can_have_rocket(*old(state)),
        ),
        planet_can_have_rocket(*final(state)) == planet_can_have_rocket(*old(state)),
        r is Ok <==> planet_can_have_rocket(*old(state)) && planet_view(
            *old(state),
        ).can_build_rocket(),
        r is Err ==> r == Err::<(), PlanetError>(PlanetError::NoChargedCell),
{
    proof {
        lemma_lowest(planet_cells(*state), true);
    }
    match planet_full_cell(state) {
        None => Err(PlanetError::NoChargedCell),
        Some(i) => match planet_build_rocket(state, i) {
            Ok(_) => Ok(()),
            Err(_) => Err(PlanetError::NoChargedCell),
        },
    }
}

/// Hands out the planet's rocket against an asteroid, if there is one.
pub fn deflect_asteroid(state: &mut PlanetState) -> (r: Option<Rocket>)
    ensures
        r is Some <==> planet_has_rocket(*old(state)),
        planet_view(*final(state)) == planet_view(*old(state)).take_rocket(),
        planet_can_have_rocket(*final(state)) == planet_can_have_rocket(*old(state)),
{
    planet_take_rocket(state)
}

/// Handles a sunray at `now_ms` on the planet: the estimate is updated, the
/// lowest empty cell is charged, a rocket is built if the slot is free and the
/// planet's type allows one, and the mode is brought in line. The answer is
/// `AllCellsFull` exactly when no cell was empty.
pub fn on_sunray(ai: &mut CiucAI, state: &mut PlanetState, sunray: Sunray, now_ms: i64) -> (r:
    Result<(), PlanetError>)
    ensures
        final(ai)@ == old(ai)@.observe_sunray(now_ms as int).change_state(),
        planet_view(*final(state)) == rocket_attempt(
            planet_view(*old(state)).charge(),
            planet_can_have_rocket(*old(state)),
        ),
        planet_can_have_rocket(*old(state)) ==> planet_view(*final(state)) == cells_after_sunray(
            planet_view(*old(state)),
        ),
        planet_can_have_rocket(*final(state)) == planet_can_have_rocket(*old(state)),
        r == sunray_reply(planet_view(*old(state))),
{
    ai.update_sunray_esteem(now_ms);
    let charged = charge_cell_with_sunray(state, sunray);
    let _ = build_rocket(state);
    ai.change_state();
    charged
}

/// Handles an asteroid at `now_ms` on the planet: the estimate is updated and
/// the rocket, if there is one, is handed out. After that a new rocket is
/// built at once if a cell is charged, and the mode is brought in line.
/// Without a rocket the planet is lost and nothing else changes.
pub fn on_asteroid(ai: &mut CiucAI, state: &mut PlanetState, now_ms: i64) -> (r: Option<Rocket>)
    ensures
        final(ai)@ == ai_after_asteroid(old(ai)@, planet_has_rocket(*old(state)), now_ms as int),
        planet_view(*final(state)) == (if planet_has_rocket(*old(state)) {
            rocket_attempt(
                planet_view(*old(state)).take_rocket(),
                planet_can_have_rocket(*old(state)),
            )
        } else {
            planet_view(*old(state))
        }),
        planet_can_have_rocket(*old(state)) ==> planet_view(*final(state)) == cells_after_asteroid(
            planet_view(*old(state)),
        ),
        planet_can_have_rocket(*final(state)) == planet_can_have_rocket(*old(state)),
        r is Some <==> planet_has_rocket(*old(state)),
{
    ai.update_asteroid_esteem(now_ms);
    let rocket = deflect_asteroid(state);
    if rocket.is_some() {
        let _ = build_rocket(state);
        ai.change_state();
    }
    rocket
}

/// The controller's answer `admission` to a request, as it comes out on a
/// planet with this generator: an admitted request still fails, as
/// `UnsupportedResource`, where the generator has no recipe for carbon.
pub open spec fn with_generator(
    admission: Result<(), PlanetError>,
    generator: Generator,
) -> Result<(), PlanetError> {
    match admission {
        Ok(_) => if generator_makes_carbon(generator) {
            Ok(())
        } else {
            Err(PlanetError::UnsupportedResource)
        },
        Err(e) => Err(e),
    }
}

/// What a request for a resource of `kind` at `now_ms` comes to on the planet.
pub open spec fn planet_admission(
    ai: AiView,
    state: PlanetState,
    generator: Generator,
    kind: BasicResourceType,
    now_ms: int,
) -> Result<(), PlanetError> {
    with_generator(ai.resource_admission(planet_view(state), kind, now_ms), generator)
}

/// Has the generator make carbon from the lowest full cell of the planet if
/// more than `safe_cells` cells are charged, and no more than the controller's
/// capacity.
pub fn generate_carbon_if_have_n_safe_cells(
    ai: &CiucAI,
    state: &mut PlanetState,
    generator: &Generator,
    safe_cells: u32,
) -> (r: Result<Carbon, PlanetError>)
    ensures
        match r {
            Ok(_) => with_generator(
                admission(
                    planet_view(*old(state)).charged(),
                    ai@.config.capacity as nat,
                    safe_cells as nat,
                ),
                *generator,
            ) is Ok,
            Err(e) => with_generator(
                admission(
                    planet_view(*old(state)).charged(),
                    ai@.config.capacity as nat,
                    safe_cells as nat,
                ),
                *generator,
            ) == Err::<(), PlanetError>(e),
        },
        planet_view(*final(state)) == cells_after_request(
            planet_view(*old(state)),
            with_generator(
                admission(
                    planet_view(*old(state)).charged(),
                    ai@.config.capacity as nat,
                    safe_cells as nat,
                ),
                *generator,
            ),
        ),
        planet_can_have_rocket(*final(state)) == planet_can_have_rocket(*old(state)),
{
    let charged = snapshot(state).charged_count();
    let capacity = ai.config().capacity;
    proof {
        lemma_cells_counts(planet_view(*state));
        lemma_lowest(planet_cells(*state), true);
    }
    match decide_admission(charged, capacity, safe_cells) {
        Ok(_) => match planet_full_cell(state) {
            Some(i) => match planet_make_carbon(generator, state, i) {
                Ok(carbon) => Ok(carbon),
                Err(_) => Err(PlanetError::UnsupportedResource),
            },
            None => Err(PlanetError::InsufficientCharge),
        },
        Err(e) => Err(e),
    }
}

/// Answers a request for carbon at `now_ms` on the planet, under the reserve
/// of the current mode. The mode itself is left as it is.
pub fn generate_carbon(ai: &CiucAI, state: &mut PlanetState, generator: &Generator, now_ms: i64)
    -> (r: Result<Carbon, PlanetError>)
    ensures
        match r {
            Ok(_) => planet_admission(
                ai@,
                *old(state),
                *generator,
                BasicResourceType::Carbon,
                now_ms as int,
            ) is Ok,
            Err(e) => planet_admission(
                ai@,
                *old(state),
                *generator,
                BasicResourceType::Carbon,
                now_ms as int,
            ) == Err::<(), PlanetError>(e),
        },
        planet_view(*final(state)) == cells_after_request(
            planet_view(*old(state)),
            planet_admission(
                ai@,
                *old(state),
                *generator,
                BasicResourceType::Carbon,
                now_ms as int,
            ),
        ),
        planet_can_have_rocket(*final(state)) == planet_can_have_rocket(*old(state)),
{
    let reserve = ai.current_reserve(now_ms);
    generate_carbon_if_have_n_safe_cells(ai, state, generator, reserve)
}

/// Answers a request for a resource of `kind` at `now_ms` on the planet.
/// Anything but carbon is refused as `UnsupportedResource`, before the cells
/// are looked at.
pub fn generate_resource(
    ai: &CiucAI,
    state: &mut PlanetState,
    generator: &Generator,
    kind: BasicResourceType,
    now_ms: i64,
) -> (r: Result<Carbon, PlanetError>)
    ensures
        match r {
            Ok(_) => planet_admission(ai@, *old(state), *generator, kind, now_ms as int) is Ok,
            Err(e) => planet_admission(ai@, *old(state), *generator, kind, now_ms as int) == Err::<
                (),
                PlanetError,
            >(e),
        },
        planet_view(*final(state)) == cells_after_request(
            planet_view(*old(state)),
            planet_admission(ai@, *old(state), *generator, kind, now_ms as int),
        ),
        planet_can_have_rocket(*final(state)) == planet_can_have_rocket(*old(state)),
{
    match kind {
        BasicResourceType::Carbon => generate_carbon(ai, state, generator, now_ms),
        _ => Err(PlanetError::UnsupportedResource),
    }
}

/// Number of charged cells of the planet; `u32::MAX` stands for any greater
/// number.
pub fn available_energy_cells(state: &PlanetState) -> (r: u32)
    ensures
        r == (if planet_view(*state).charged() <= u32::MAX {
            planet_view(*state).charged() as u32
        } else {
            u32::MAX
        }),
{
    let charged = snapshot(state).charged_count();
    if charged <= u32::MAX as usize {
        charged as u32
    } else {
        u32::MAX
    }
}

} // verus!
