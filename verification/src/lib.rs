//! Decision core of a planet that splits its energy cells between producing
//! carbon and keeping one rocket ready against asteroids.
//!
//! The planet learns how often sunrays and asteroids arrive, switches between a
//! safe and a statistic mode on that knowledge, and withholds from production a
//! reserve of charged cells that depends on the mode.
//!
//! - `config`: the thresholds of the policy.
//! - `estimator`: the running estimate of the interval between two events.
//! - `policy`: the two modes and the rule that switches between them.
//! - `reservation`: the reserve of each mode, and the answer to a request.
//! - `error`: the refusals that the planet reports.
//! - `cells`: the energy cells and the rocket slot.
//! - `ciuc_ai`: the controller, which handles each event on a `CellStore`.
//! - `planet`: the same handlers on the planet state of `common_game`.
//! - `laws`: what holds after every event and every sequence of events.
//! - `clock`: the wall clock in milliseconds.

pub mod cells;
pub mod ciuc_ai;
pub mod clock;
pub mod config;
pub mod error;
pub mod estimator;
pub mod laws;
pub mod planet;
pub mod policy;
pub mod reservation;

pub use cells::CellStore;
pub use ciuc_ai::{
    generation_rules, AsteroidOutcome, BasicResourceType, CarbonUnit, CiucAI, Event, Reply,
};
pub use clock::{now_ms, timestamp_ms};
pub use config::{Config, Fraction};
pub use error::PlanetError;
pub use estimator::{update_ema, IntervalEstimate};
pub use policy::AIState;
