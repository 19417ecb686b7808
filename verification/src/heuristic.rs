//! The heuristics offered to callers: their parameters, the integer checks
//! their constructors make, and the [`HeuristicSpec`] each one describes.
//!
//! Real-valued parameters are held as the IEEE-754 bit pattern of their `f64`
//! value (`f64::to_bits`). The checks on real values (a probability within
//! `[0, 1]`, a positive temperature) are not made here; each constructor's
//! documentation says where they fall among the integer checks.

use vstd::prelude::*;
use crate::runner::{expected_policy_weights, HeuristicKind, HeuristicSpec};
use crate::stop_condition::StopCondition;
use crate::text::{decimal, push_decimal};

verus! {

/// A refused integer parameter of a heuristic constructor.
#[derive(Clone, Copy, Debug, PartialEq, Eq, Structural)]
pub enum ParamError {
    /// `beam_width` is 0.
    BeamWidthZero,
    /// `shakes` is empty.
    ShakesEmpty,
    /// `population_size` is below 2.
    PopulationSizeTooSmall,
    /// `sweeps_per_step` is 0.
    SweepsPerStepZero,
    /// `l0` is 0.
    L0Zero,
    /// `strength_bins` is empty.
    StrengthBinsEmpty,
    /// `policy_weights` has the wrong length.
    PolicyWeightsLen { expected: u128, bins: usize, got: usize },
    /// `num_neighbors` is 0.
    NumNeighborsZero,
    /// `max_depth` is 0.
    MaxDepthZero,
}

/// The message of a refused parameter.
pub open spec fn param_error_message(e: ParamError) -> Seq<char> {
    match e {
        ParamError::BeamWidthZero => "'beam_width' must be at least 1"@,
        ParamError::ShakesEmpty => "'shakes' must contain at least one heuristic"@,
        ParamError::PopulationSizeTooSmall => "'population_size' must be at least 2"@,
        ParamError::SweepsPerStepZero => "'sweeps_per_step' must be at least 1"@,
        ParamError::L0Zero => "'l0' must be at least 1"@,
        ParamError::StrengthBinsEmpty => "'strength_bins' must not be empty (e.g. [1.0, 2.0, 4.0])"@,
        ParamError::PolicyWeightsLen { expected, bins, got } => "'policy_weights' must have "@
            + decimal(expected as nat) + " entries for "@ + decimal(bins as nat)
            + " strength bins, got "@ + decimal(got as nat),
        ParamError::NumNeighborsZero => "'num_neighbors' must be at least 1"@,
        ParamError::MaxDepthZero => "'max_depth' must be at least 1"@,
    }
}

impl ParamError {
    /// The human-readable message of this refusal.
    pub fn message(&self) -> (r: String)
        ensures
            r@ == param_error_message(*self),
    {
        match *self {
            ParamError::BeamWidthZero => String::from_str("'beam_width' must be at least 1"),
            ParamError::ShakesEmpty => String::from_str(
                "'shakes' must contain at least one heuristic",
            ),
            ParamError::PopulationSizeTooSmall => String::from_str(
                "'population_size' must be at least 2",
            ),
            ParamError::SweepsPerStepZero => String::from_str(
                "'sweeps_per_step' must be at least 1",
            ),
            ParamError::L0Zero => String::from_str("'l0' must be at least 1"),
            ParamError::StrengthBinsEmpty => String::from_str(
                "'strength_bins' must not be empty (e.g. [1.0, 2.0, 4.0])",
            ),
            ParamError::PolicyWeightsLen { expected, bins, got } => {
                let mut s = String::from_str("'policy_weights' must have ");
                push_decimal(&mut s, expected);
                s.append(" entries for ");
                push_decimal(&mut s, bins as u128);
                s.append(" strength bins, got ");
                push_decimal(&mut s, got as u128);
                s
            },
            ParamError::NumNeighborsZero => String::from_str("'num_neighbors' must be at least 1"),
            ParamError::MaxDepthZero => String::from_str("'max_depth' must be at least 1"),
        }
    }
}

/// A copy of a vector of bit patterns.
fn copy_bits(v: &Vec<u64>) -> (r: Vec<u64>)
    ensures
        r@ == v@,
{
    let mut out: Vec<u64> = Vec::new();
    let mut i: usize = 0;
    while i < v.len()
        invariant
            i <= v.len(),
            out@ == v@.subrange(0, i as int),
        decreases v.len() - i,
    {
        out.push(v[i]);
        i = i + 1;
        proof {
            assert(out@ =~= v@.subrange(0, i as int));
        }
    }
    proof {
        assert(out@ =~= v@);
    }
    out
}

/// Greedy best-improving local search; halts at a local optimum.
pub struct LocalSearch {
    pub neighbor: String,
    pub stop: StopCondition,
}

impl LocalSearch {
    pub fn new(neighbor: String, stop: StopCondition) -> (r: Self)
        ensures
            r.neighbor == neighbor,
            r.stop == stop,
    {
        LocalSearch { neighbor, stop }
    }

    /// The spec this heuristic describes.
    pub fn to_spec(&self) -> (r: HeuristicSpec)
        ensures
            r.kind is LocalSearch,
            r.neighbor == self.neighbor,
            r.stop == self.stop,
    {
        HeuristicSpec { kind: HeuristicKind::LocalSearch, neighbor: self.neighbor.clone(), stop: self.stop }
    }
}

/// Simulated annealing with `exp(-Δ/T)` acceptance and multiplicative cooling.
pub struct SimulatedAnnealing {
    pub neighbor: String,
    pub initial_temperature_bits: u64,
    pub cooling_rate_bits: u64,
    pub stop: StopCondition,
}

impl SimulatedAnnealing {
    pub fn new(
        neighbor: String,
        initial_temperature_bits: u64,
        cooling_rate_bits: u64,
        stop: StopCondition,
    ) -> (r: Self)
        ensures
            r.neighbor == neighbor,
            r.initial_temperature_bits == initial_temperature_bits,
            r.cooling_rate_bits == cooling_rate_bits,
            r.stop == stop,
    {
        SimulatedAnnealing { neighbor, initial_temperature_bits, cooling_rate_bits, stop }
    }

    /// The spec this heuristic describes.
    pub fn to_spec(&self) -> (r: HeuristicSpec)
        ensures
            r.kind == (HeuristicKind::SimulatedAnnealing {
                initial_temperature_bits: self.initial_temperature_bits,
                cooling_rate_bits: self.cooling_rate_bits,
            }),
            r.neighbor == self.neighbor,
            r.stop == self.stop,
    {
        HeuristicSpec {
            kind: HeuristicKind::SimulatedAnnealing {
                initial_temperature_bits: self.initial_temperature_bits,
                cooling_rate_bits: self.cooling_rate_bits,
            },
            neighbor: self.neighbor.clone(),
            stop: self.stop,
        }
    }
}

/// Tabu search; best non-tabu neighbor with aspiration on global-best
/// improvement.
pub struct TabuSearch {
    pub neighbor: String,
    pub tabu_tenure: (u64, u64),
    pub stop: StopCondition,
}

impl TabuSearch {
    pub fn new(neighbor: String, tabu_tenure: (u64, u64), stop: StopCondition) -> (r: Self)
        ensures
            r.neighbor == neighbor,
            r.tabu_tenure == tabu_tenure,
            r.stop == stop,
    {
        TabuSearch { neighbor, tabu_tenure, stop }
    }

    /// The spec this heuristic describes.
    pub fn to_spec(&self) -> (r: HeuristicSpec)
        ensures
            r.kind == (HeuristicKind::TabuSearch { tabu_tenure: self.tabu_tenure }),
            r.neighbor == self.neighbor,
            r.stop == self.stop,
    {
        HeuristicSpec {
            kind: HeuristicKind::TabuSearch { tabu_tenure: self.tabu_tenure },
            neighbor: self.neighbor.clone(),
            stop: self.stop,
        }
    }
}

/// Late acceptance hill climbing; accepts a move no worse than the objective
/// `history_length` steps ago.
pub struct LateAcceptanceHillClimbing {
    pub neighbor: String,
    pub history_length: usize,
    pub stop: StopCondition,
}

impl LateAcceptanceHillClimbing {
    pub fn new(neighbor: String, history_length: usize, stop: StopCondition) -> (r: Self)
        ensures
            r.neighbor == neighbor,
            r.history_length == history_length,
            r.stop == stop,
    {
        LateAcceptanceHillClimbing { neighbor, history_length, stop }
    }

    /// The spec this heuristic describes.
    pub fn to_spec(&self) -> (r: HeuristicSpec)
        ensures
            r.kind == (HeuristicKind::LateAcceptance { history_length: self.history_length }),
            r.neighbor == self.neighbor,
            r.stop == self.stop,
    {
        HeuristicSpec {
            kind: HeuristicKind::LateAcceptance { history_length: self.history_length },
            neighbor: self.neighbor.clone(),
            stop: self.stop,
        }
    }
}

/// Random walk: applies a uniformly chosen neighbor move at each step, with no
/// acceptance criterion.
pub struct RandomWalk {
    pub neighbor: String,
    pub stop: StopCondition,
}

impl RandomWalk {
    pub fn new(neighbor: String, stop: StopCondition) -> (r: Self)
        ensures
            r.neighbor == neighbor,
            r.stop == stop,
    {
        RandomWalk { neighbor, stop }
    }

    /// The spec this heuristic describes.
    pub fn to_spec(&self) -> (r: HeuristicSpec)
        ensures
            r.kind is RandomWalk,
            r.neighbor == self.neighbor,
            r.stop == self.stop,
    {
        HeuristicSpec { kind: HeuristicKind::RandomWalk, neighbor: self.neighbor.clone(), stop: self.stop }
    }
}

/// Bang-bang simulated annealing: the temperature oscillates between a cool
/// floor and a hot ceiling.
pub struct BangBangSimulatedAnnealing {
    pub neighbor: String,
    pub initial_temperature_bits: u64,
    pub cooling_rate_bits: u64,
    pub min_wave_threshold_bits: u64,
    pub max_wave_threshold_bits: u64,
    pub stop: StopCondition,
}

impl BangBangSimulatedAnnealing {
    pub fn new(
        neighbor: String,
        initial_temperature_bits: u64,
        cooling_rate_bits: u64,
        min_wave_threshold_bits: u64,
        max_wave_threshold_bits: u64,
        stop: StopCondition,
    ) -> (r: Self)
        ensures
            r.neighbor == neighbor,
            r.initial_temperature_bits == initial_temperature_bits,
            r.cooling_rate_bits == cooling_rate_bits,
            r.min_wave_threshold_bits == min_wave_threshold_bits,
            r.max_wave_threshold_bits == max_wave_threshold_bits,
            r.stop == stop,
    {
        BangBangSimulatedAnnealing {
            neighbor,
            initial_temperature_bits,
            cooling_rate_bits,
            min_wave_threshold_bits,
            max_wave_threshold_bits,
            stop,
        }
    }

    /// The spec this heuristic describes.
    pub fn to_spec(&self) -> (r: HeuristicSpec)
        ensures
            r.kind == (HeuristicKind::BangBangSimulatedAnnealing {
                initial_temperature_bits: self.initial_temperature_bits,
                cooling_rate_bits: self.cooling_rate_bits,
                min_wave_threshold_bits: self.min_wave_threshold_bits,
                max_wave_threshold_bits: self.max_wave_threshold_bits,
            }),
            r.neighbor == self.neighbor,
            r.stop == self.stop,
    {
        HeuristicSpec {
            kind: HeuristicKind::BangBangSimulatedAnnealing {
                initial_temperature_bits: self.initial_temperature_bits,
                cooling_rate_bits: self.cooling_rate_bits,
                min_wave_threshold_bits: self.min_wave_threshold_bits,
                max_wave_threshold_bits: self.max_wave_threshold_bits,
            },
            neighbor: self.neighbor.clone(),
            stop: self.stop,
        }
    }
}

/// Beam search: keeps the best `beam_width` candidates of each expanded
/// neighborhood.
pub struct BeamSearch {
    pub neighbor: String,
    pub beam_width: usize,
    pub stop: StopCondition,
}

impl BeamSearch {
    /// Refuses a beam width of 0.
    pub fn new(neighbor: String, beam_width: usize, stop: StopCondition) -> (r: Result<
        Self,
        ParamError,
    >)
        ensures
            beam_width == 0 <==> r matches Err(ParamError::BeamWidthZero),
            beam_width != 0 ==> (r matches Ok(b) && b.neighbor == neighbor && b.beam_width
                == beam_width && b.stop == stop),
    {
        if beam_width == 0 {
            return Err(ParamError::BeamWidthZero);
        }
        Ok(BeamSearch { neighbor, beam_width, stop })
    }

    /// The spec this heuristic describes.
    pub fn to_spec(&self) -> (r: HeuristicSpec)
        ensures
            r.kind == (HeuristicKind::BeamSearch { beam_width: self.beam_width }),
            r.neighbor == self.neighbor,
            r.stop == self.stop,
    {
        HeuristicSpec {
            kind: HeuristicKind::BeamSearch { beam_width: self.beam_width },
            neighbor: self.neighbor.clone(),
            stop: self.stop,
        }
    }
}

/// The check of the number of shake steps of a variable neighborhood search.
pub fn check_shakes(count: usize) -> (r: Result<(), ParamError>)
    ensures
        count == 0 <==> r matches Err(ParamError::ShakesEmpty),
        count != 0 <==> r is Ok,
{
    if count == 0 {
        return Err(ParamError::ShakesEmpty);
    }
    Ok(())
}

/// Variable neighborhood search: alternates an intensifying `search` step with
/// increasingly disruptive `shakes`.
pub struct VariableNeighborhoodSearch {
    pub search: HeuristicSpec,
    pub shakes: Vec<HeuristicSpec>,
    pub stop: StopCondition,
}

impl VariableNeighborhoodSearch {
    /// Refuses an empty list of shakes.
    pub fn new(search: HeuristicSpec, shakes: Vec<HeuristicSpec>, stop: StopCondition) -> (r:
        Result<Self, ParamError>)
        ensures
            shakes@.len() == 0 <==> r matches Err(ParamError::ShakesEmpty),
            shakes@.len() != 0 ==> (r matches Ok(v) && v.search == search && v.shakes == shakes
                && v.stop == stop),
    {
        match check_shakes(shakes.len()) {
            Err(e) => Err(e),
            Ok(()) => Ok(VariableNeighborhoodSearch { search, shakes, stop }),
        }
    }

    /// The spec this heuristic describes; its steps carry their own
    /// neighborhoods, so its own neighborhood name is empty.
    pub fn into_spec(self) -> (r: HeuristicSpec)
        ensures
            r.kind == (HeuristicKind::VariableNeighborhoodSearch {
                search: Box::new(self.search),
                shakes: self.shakes,
            }),
            r.neighbor@ == Seq::<char>::empty(),
            r.stop == self.stop,
    {
        HeuristicSpec {
            kind: HeuristicKind::VariableNeighborhoodSearch {
                search: Box::new(self.search),
                shakes: self.shakes,
            },
            neighbor: String::new(),
            stop: self.stop,
        }
    }
}

/// WalkSAT/SKC for SAT problems. (Its constructor checks that `noise` lies in
/// `[0, 1]`.)
pub struct WalkSat {
    pub noise_bits: u64,
    pub adaptive: bool,
    pub stop: StopCondition,
}

impl WalkSat {
    pub fn new(stop: StopCondition, noise_bits: u64, adaptive: bool) -> (r: Self)
        ensures
            r.noise_bits == noise_bits,
            r.adaptive == adaptive,
            r.stop == stop,
    {
        WalkSat { noise_bits, adaptive, stop }
    }

    /// The spec this heuristic describes (no neighborhood).
    pub fn to_spec(&self) -> (r: HeuristicSpec)
        ensures
            r.kind == (HeuristicKind::WalkSat { noise_bits: self.noise_bits, adaptive: self.adaptive }),
            r.neighbor@ == Seq::<char>::empty(),
            r.stop == self.stop,
    {
        HeuristicSpec {
            kind: HeuristicKind::WalkSat { noise_bits: self.noise_bits, adaptive: self.adaptive },
            neighbor: String::new(),
            stop: self.stop,
        }
    }
}

/// Population annealing for Max Cut.
///
/// Checks, in order: `population_size >= 2`; `initial_beta > 0` and
/// `delta_beta > 0` (real values, checked by the caller between the two
/// integer checks); `sweeps_per_step >= 1`. A `reset_period` of 0 disables
/// resetting.
pub struct PopulationAnnealing {
    pub population_size: usize,
    pub initial_beta_bits: u64,
    pub delta_beta_bits: u64,
    pub sweeps_per_step: usize,
    pub reset_period: Option<usize>,
    pub cluster_moves: bool,
    pub stop: StopCondition,
}

impl PopulationAnnealing {
    /// The first check of the constructor: at least two replicas.
    pub fn check_population_size(population_size: usize) -> (r: Result<(), ParamError>)
        ensures
            population_size < 2 <==> r matches Err(ParamError::PopulationSizeTooSmall),
            population_size >= 2 <==> r is Ok,
    {
        if population_size < 2 {
            return Err(ParamError::PopulationSizeTooSmall);
        }
        Ok(())
    }

    pub fn new(
        population_size: usize,
        stop: StopCondition,
        initial_beta_bits: u64,
        delta_beta_bits: u64,
        sweeps_per_step: usize,
        reset_period: usize,
        cluster_moves: bool,
    ) -> (r: Result<Self, ParamError>)
        ensures
            population_size < 2 ==> r matches Err(ParamError::PopulationSizeTooSmall),
            population_size >= 2 && sweeps_per_step == 0 ==> r matches Err(
                ParamError::SweepsPerStepZero,
            ),
            population_size >= 2 && sweeps_per_step != 0 ==> (r matches Ok(a) && a.population_size
                == population_size && a.initial_beta_bits == initial_beta_bits && a.delta_beta_bits
                == delta_beta_bits && a.sweeps_per_step == sweeps_per_step && a.reset_period == (
            if reset_period > 0 {
                Some(reset_period)
            } else {
                None
            }) && a.cluster_moves == cluster_moves && a.stop == stop),
    {
        match Self::check_population_size(population_size) {
            Err(e) => {
                return Err(e);
            },
            Ok(()) => {},
        }
        if sweeps_per_step == 0 {
            return Err(ParamError::SweepsPerStepZero);
        }
        let reset = if reset_period > 0 {
            Some(reset_period)
        } else {
            None
        };
        Ok(
            PopulationAnnealing {
                population_size,
                initial_beta_bits,
                delta_beta_bits,
                sweeps_per_step,
                reset_period: reset,
                cluster_moves,
                stop,
            },
        )
    }

    /// The spec this heuristic describes (no neighborhood).
    pub fn to_spec(&self) -> (r: HeuristicSpec)
        ensures
            r.kind == (HeuristicKind::PopulationAnnealing {
                population_size: self.population_size,
                initial_beta_bits: self.initial_beta_bits,
                delta_beta_bits: self.delta_beta_bits,
                sweeps_per_step: self.sweeps_per_step,
                reset_period: self.reset_period,
                cluster_moves: self.cluster_moves,
            }),
            r.neighbor@ == Seq::<char>::empty(),
            r.stop == self.stop,
    {
        HeuristicSpec {
            kind: HeuristicKind::PopulationAnnealing {
                population_size: self.population_size,
                initial_beta_bits: self.initial_beta_bits,
                delta_beta_bits: self.delta_beta_bits,
                sweeps_per_step: self.sweeps_per_step,
                reset_period: self.reset_period,
                cluster_moves: self.cluster_moves,
            },
            neighbor: String::new(),
            stop: self.stop,
        }
    }
}

/// Breakout local search for Max Cut. Checks `l0 >= 1`; the check that
/// `plateau_prob` lies in `[0, 1]` follows it.
pub struct BreakoutLocalSearch {
    pub tabu_tenure: (u64, u64),
    pub t: u64,
    pub l0: u64,
    pub p0_bits: u64,
    pub q_bits: u64,
    pub plateau_prob_bits: u64,
    pub stop: StopCondition,
}

impl BreakoutLocalSearch {
    pub fn new(
        tabu_tenure: (u64, u64),
        t: u64,
        l0: u64,
        p0_bits: u64,
        q_bits: u64,
        stop: StopCondition,
        plateau_prob_bits: u64,
    ) -> (r: Result<Self, ParamError>)
        ensures
            l0 == 0 <==> r matches Err(ParamError::L0Zero),
            l0 != 0 ==> (r matches Ok(b) && b.tabu_tenure == tabu_tenure && b.t == t && b.l0 == l0
                && b.p0_bits == p0_bits && b.q_bits == q_bits && b.plateau_prob_bits
                == plateau_prob_bits && b.stop == stop),
    {
        if l0 == 0 {
            return Err(ParamError::L0Zero);
        }
        Ok(BreakoutLocalSearch { tabu_tenure, t, l0, p0_bits, q_bits, plateau_prob_bits, stop })
    }

    /// The spec this heuristic describes (no neighborhood).
    pub fn to_spec(&self) -> (r: HeuristicSpec)
        ensures
            r.kind == (HeuristicKind::BreakoutLocalSearch {
                tabu_tenure: self.tabu_tenure,
                t: self.t,
                l0: self.l0,
                p0_bits: self.p0_bits,
                q_bits: self.q_bits,
                plateau_prob_bits: self.plateau_prob_bits,
            }),
            r.neighbor@ == Seq::<char>::empty(),
            r.stop == self.stop,
    {
        HeuristicSpec {
            kind: HeuristicKind::BreakoutLocalSearch {
                tabu_tenure: self.tabu_tenure,
                t: self.t,
                l0: self.l0,
                p0_bits: self.p0_bits,
                q_bits: self.q_bits,
                plateau_prob_bits: self.plateau_prob_bits,
            },
            neighbor: String::new(),
            stop: self.stop,
        }
    }
}

/// Breakout local search for Max Cut with a learned perturbation policy.
///
/// Checks, in order: `l0 >= 1`; `strength_bins` not empty; each strength bin
/// positive, `learning_rate >= 0`, `softmax_temperature > 0` and
/// `exploration` within `[0, 1]` (real values, checked by the caller between
/// the integer checks); `policy_weights`, when given, of length
/// `5 * len(strength_bins) * 8`.
pub struct RlBreakoutLocalSearch {
    pub tabu_tenure: (u64, u64),
    pub t: u64,
    pub l0: u64,
    pub strength_bins_bits: Vec<u64>,
    pub learning_rate_bits: u64,
    pub softmax_temperature_bits: u64,
    pub exploration_bits: u64,
    pub policy_weights_bits: Option<Vec<u64>>,
    pub stop: StopCondition,
}

impl RlBreakoutLocalSearch {
    /// The checks that precede those on real values: `l0 >= 1`, then at least
    /// one strength bin.
    pub fn check_l0_and_bins(l0: u64, bins: usize) -> (r: Result<(), ParamError>)
        ensures
            l0 == 0 ==> r matches Err(ParamError::L0Zero),
            l0 != 0 && bins == 0 ==> r matches Err(ParamError::StrengthBinsEmpty),
            l0 != 0 && bins != 0 ==> r is Ok,
    {
        if l0 == 0 {
            return Err(ParamError::L0Zero);
        }
        if bins == 0 {
            return Err(ParamError::StrengthBinsEmpty);
        }
        Ok(())
    }

    pub fn new(
        tabu_tenure: (u64, u64),
        t: u64,
        l0: u64,
        stop: StopCondition,
        strength_bins_bits: Vec<u64>,
        learning_rate_bits: u64,
        softmax_temperature_bits: u64,
        exploration_bits: u64,
        policy_weights_bits: Option<Vec<u64>>,
    ) -> (r: Result<Self, ParamError>)
        ensures
            l0 == 0 ==> r matches Err(ParamError::L0Zero),
            l0 != 0 && strength_bins_bits@.len() == 0 ==> r matches Err(
                ParamError::StrengthBinsEmpty,
            ),
            l0 != 0 && strength_bins_bits@.len() != 0 ==> match policy_weights_bits {
                Some(w) if w@.len() != expected_policy_weights(strength_bins_bits@.len()) => r matches Err(
                    ParamError::PolicyWeightsLen { expected, bins, got },
                ) && expected == expected_policy_weights(strength_bins_bits@.len()) && bins
                    == strength_bins_bits@.len() && got == w@.len(),
                _ => r matches Ok(b) && b.tabu_tenure == tabu_tenure && b.t == t && b.l0 == l0
                    && b.strength_bins_bits == strength_bins_bits && b.learning_rate_bits
                    == learning_rate_bits && b.softmax_temperature_bits == softmax_temperature_bits
                    && b.exploration_bits == exploration_bits && b.policy_weights_bits
                    == policy_weights_bits && b.stop == stop,
            },
    {
        match Self::check_l0_and_bins(l0, strength_bins_bits.len()) {
            Err(e) => {
                return Err(e);
            },
            Ok(()) => {},
        }
        match &policy_weights_bits {
            Some(w) => {
                let bins = strength_bins_bits.len();
                let actions: u128 = (bins as u128) * 5;
                let expected: u128 = actions * 8;
                if (w.len() as u128) != expected {
                    return Err(ParamError::PolicyWeightsLen { expected, bins, got: w.len() });
                }
            },
            None => {},
        }
        Ok(
            RlBreakoutLocalSearch {
                tabu_tenure,
                t,
                l0,
                strength_bins_bits,
                learning_rate_bits,
                softmax_temperature_bits,
                exploration_bits,
                policy_weights_bits,
                stop,
            },
        )
    }

    /// The spec this heuristic describes (no neighborhood).
    pub fn to_spec(&self) -> (r: HeuristicSpec)
        ensures
            r.kind matches HeuristicKind::RlBreakoutLocalSearch {
                tabu_tenure,
                t,
                l0,
                strength_bins_bits,
                learning_rate_bits,
                softmax_temperature_bits,
                exploration_bits,
                policy_weights_bits,
            } && tabu_tenure == self.tabu_tenure && t == self.t && l0 == self.l0
                && strength_bins_bits@ == self.strength_bins_bits@ && learning_rate_bits
                == self.learning_rate_bits && softmax_temperature_bits
                == self.softmax_temperature_bits && exploration_bits == self.exploration_bits
                && match (policy_weights_bits, self.policy_weights_bits) {
                (Some(a), Some(b)) => a@ == b@,
                (None, None) => true,
                _ => false,
            },
            r.neighbor@ == Seq::<char>::empty(),
            r.stop == self.stop,
    {
        let weights = match &self.policy_weights_bits {
            Some(w) => Some(copy_bits(w)),
            None => None,
        };
        HeuristicSpec {
            kind: HeuristicKind::RlBreakoutLocalSearch {
                tabu_tenure: self.tabu_tenure,
                t: self.t,
                l0: self.l0,
                strength_bins_bits: copy_bits(&self.strength_bins_bits),
                learning_rate_bits: self.learning_rate_bits,
                softmax_temperature_bits: self.softmax_temperature_bits,
                exploration_bits: self.exploration_bits,
                policy_weights_bits: weights,
            },
            neighbor: String::new(),
            stop: self.stop,
        }
    }
}

/// Lin-Kernighan-Helsgaun for the Euclidean TSP. Checks `num_neighbors >= 1`,
/// then `max_depth >= 1`.
pub struct LinKernighanHelsgaun {
    pub num_neighbors: usize,
    pub max_depth: usize,
    pub stop: StopCondition,
}

impl LinKernighanHelsgaun {
    pub fn new(stop: StopCondition, num_neighbors: usize, max_depth: usize) -> (r: Result<
        Self,
        ParamError,
    >)
        ensures
            num_neighbors == 0 ==> r matches Err(ParamError::NumNeighborsZero),
            num_neighbors != 0 && max_depth == 0 ==> r matches Err(ParamError::MaxDepthZero),
            num_neighbors != 0 && max_depth != 0 ==> (r matches Ok(l) && l.num_neighbors
                == num_neighbors && l.max_depth == max_depth && l.stop == stop),
    {
        if num_neighbors == 0 {
            return Err(ParamError::NumNeighborsZero);
        }
        if max_depth == 0 {
            return Err(ParamError::MaxDepthZero);
        }
        Ok(LinKernighanHelsgaun { num_neighbors, max_depth, stop })
    }

    /// The spec this heuristic describes (no neighborhood).
    pub fn to_spec(&self) -> (r: HeuristicSpec)
        ensures
            r.kind == (HeuristicKind::LinKernighanHelsgaun {
                num_neighbors: self.num_neighbors,
                max_depth: self.max_depth,
            }),
            r.neighbor@ == Seq::<char>::empty(),
            r.stop == self.stop,
    {
        HeuristicSpec {
            kind: HeuristicKind::LinKernighanHelsgaun {
                num_neighbors: self.num_neighbors,
                max_depth: self.max_depth,
            },
            neighbor: String::new(),
            stop: self.stop,
        }
    }
}

} // verus!
