//! Heuristic selection: which heuristic runs on which problem, through which
//! neighborhood, and how a call of `run` is planned (direction, run seeds).
//!
//! A heuristic is described by a [`HeuristicSpec`]; resolving it against a
//! problem either yields a [`Plan`] (the spec with every neighborhood name
//! resolved to a [`Neighbor`]) or the [`BuildError`] that the call reports.

use vstd::prelude::*;
use crate::seed::{run_seeds, seed_of_run};
use crate::stop_condition::StopCondition;
use crate::text::{decimal, push_decimal, str_eq};

verus! {

/// Number of perturbation types the learned breakout local search chooses
/// between.
pub const NUM_PERTURBATION_TYPES: usize = 5;

/// Number of context features of the learned breakout local search policy.
pub const NUM_CONTEXT_FEATURES: usize = 8;

/// The problem types a heuristic can run on.
#[derive(Clone, Copy, Debug, PartialEq, Eq, Structural)]
pub enum ProblemKind {
    MaxCut,
    Qubo,
    Sat,
    VertexCover,
    TspWithCoordinates,
    JobShopScheduling,
    Formula,
}

impl ProblemKind {
    /// The class name of the problem.
    pub open spec fn spec_name(self) -> Seq<char> {
        match self {
            ProblemKind::MaxCut => "MaxCut"@,
            ProblemKind::Qubo => "Qubo"@,
            ProblemKind::Sat => "Sat"@,
            ProblemKind::VertexCover => "VertexCover"@,
            ProblemKind::TspWithCoordinates => "TspWithCoordinates"@,
            ProblemKind::JobShopScheduling => "JobShopScheduling"@,
            ProblemKind::Formula => "Formula"@,
        }
    }

    /// Whether the objective of the problem is minimized: QUBO, vertex cover,
    /// TSP and job shop are minimized; Max Cut, MaxSAT and formulas (whose
    /// score is direction-corrected) are maximized.
    pub open spec fn spec_minimizes(self) -> bool {
        match self {
            ProblemKind::MaxCut => false,
            ProblemKind::Qubo => true,
            ProblemKind::Sat => false,
            ProblemKind::VertexCover => true,
            ProblemKind::TspWithCoordinates => true,
            ProblemKind::JobShopScheduling => true,
            ProblemKind::Formula => false,
        }
    }

    /// The class name of the problem.
    pub fn name(&self) -> (r: &'static str)
        ensures
            r@ == self.spec_name(),
    {
        match self {
            ProblemKind::MaxCut => "MaxCut",
            ProblemKind::Qubo => "Qubo",
            ProblemKind::Sat => "Sat",
            ProblemKind::VertexCover => "VertexCover",
            ProblemKind::TspWithCoordinates => "TspWithCoordinates",
            ProblemKind::JobShopScheduling => "JobShopScheduling",
            ProblemKind::Formula => "Formula",
        }
    }

    /// Whether the objective of the problem is minimized.
    pub fn minimizes(&self) -> (r: bool)
        ensures
            r == self.spec_minimizes(),
    {
        match self {
            ProblemKind::MaxCut => false,
            ProblemKind::Qubo => true,
            ProblemKind::Sat => false,
            ProblemKind::VertexCover => true,
            ProblemKind::TspWithCoordinates => true,
            ProblemKind::JobShopScheduling => true,
            ProblemKind::Formula => false,
        }
    }
}

/// A neighborhood move of a generic heuristic.
#[derive(Clone, Copy, Debug, PartialEq, Eq, Structural)]
pub enum Neighbor {
    /// Flip one variable or vertex.
    Flip,
    /// Swap the values of two variables, or two operations.
    Swap,
    /// Reverse a tour segment.
    TwoOpt,
    /// Move a city or an operation elsewhere.
    Relocate,
}

/// The neighborhood that `name` selects on problem `p`, if it is one of the
/// two that `p` offers: `TwoOpt`/`Relocate` for TSP, `Swap`/`Relocate` for job
/// shop, `Flip`/`Swap` for every other problem.
pub open spec fn neighbor_for(p: ProblemKind, name: Seq<char>) -> Option<Neighbor> {
    match p {
        ProblemKind::TspWithCoordinates => if name == "TwoOpt"@ {
            Some(Neighbor::TwoOpt)
        } else if name == "Relocate"@ {
            Some(Neighbor::Relocate)
        } else {
            None
        },
        ProblemKind::JobShopScheduling => if name == "Swap"@ {
            Some(Neighbor::Swap)
        } else if name == "Relocate"@ {
            Some(Neighbor::Relocate)
        } else {
            None
        },
        _ => if name == "Flip"@ {
            Some(Neighbor::Flip)
        } else if name == "Swap"@ {
            Some(Neighbor::Swap)
        } else {
            None
        },
    }
}

/// The list of valid neighborhood names of `p`, as the error message shows it.
pub open spec fn valid_neighbors_text(p: ProblemKind) -> Seq<char> {
    match p {
        ProblemKind::TspWithCoordinates => "'TwoOpt' or 'Relocate'"@,
        ProblemKind::JobShopScheduling => "'Swap' or 'Relocate'"@,
        _ => "'Flip' or 'Swap'"@,
    }
}

/// Resolves a neighborhood name on problem `p`.
pub fn parse_neighbor(p: ProblemKind, name: &str) -> (r: Option<Neighbor>)
    ensures
        r == neighbor_for(p, name@),
{
    match p {
        ProblemKind::TspWithCoordinates => {
            if str_eq(name, "TwoOpt") {
                Some(Neighbor::TwoOpt)
            } else if str_eq(name, "Relocate") {
                Some(Neighbor::Relocate)
            } else {
                None
            }
        },
        ProblemKind::JobShopScheduling => {
            if str_eq(name, "Swap") {
                Some(Neighbor::Swap)
            } else if str_eq(name, "Relocate") {
                Some(Neighbor::Relocate)
            } else {
                None
            }
        },
        _ => {
            if str_eq(name, "Flip") {
                Some(Neighbor::Flip)
            } else if str_eq(name, "Swap") {
                Some(Neighbor::Swap)
            } else {
                None
            }
        },
    }
}

fn valid_neighbors(p: ProblemKind) -> (r: &'static str)
    ensures
        r@ == valid_neighbors_text(p),
{
    match p {
        ProblemKind::TspWithCoordinates => "'TwoOpt' or 'Relocate'",
        ProblemKind::JobShopScheduling => "'Swap' or 'Relocate'",
        _ => "'Flip' or 'Swap'",
    }
}

/// Which heuristic a spec describes, without its parameters.
#[derive(Clone, Copy, Debug, PartialEq, Eq, Structural)]
pub enum HeuristicTag {
    LocalSearch,
    SimulatedAnnealing,
    TabuSearch,
    LateAcceptanceHillClimbing,
    RandomWalk,
    BangBangSimulatedAnnealing,
    BeamSearch,
    VariableNeighborhoodSearch,
    WalkSat,
    PopulationAnnealing,
    RlBreakoutLocalSearch,
    BreakoutLocalSearch,
    LinKernighanHelsgaun,
}

impl HeuristicTag {
    /// The class name of the heuristic.
    pub open spec fn spec_name(self) -> Seq<char> {
        match self {
            HeuristicTag::LocalSearch => "LocalSearch"@,
            HeuristicTag::SimulatedAnnealing => "SimulatedAnnealing"@,
            HeuristicTag::TabuSearch => "TabuSearch"@,
            HeuristicTag::LateAcceptanceHillClimbing => "LateAcceptanceHillClimbing"@,
            HeuristicTag::RandomWalk => "RandomWalk"@,
            HeuristicTag::BangBangSimulatedAnnealing => "BangBangSimulatedAnnealing"@,
            HeuristicTag::BeamSearch => "BeamSearch"@,
            HeuristicTag::VariableNeighborhoodSearch => "VariableNeighborhoodSearch"@,
            HeuristicTag::WalkSat => "WalkSat"@,
            HeuristicTag::PopulationAnnealing => "PopulationAnnealing"@,
            HeuristicTag::RlBreakoutLocalSearch => "RlBreakoutLocalSearch"@,
            HeuristicTag::BreakoutLocalSearch => "BreakoutLocalSearch"@,
            HeuristicTag::LinKernighanHelsgaun => "LinKernighanHelsgaun"@,
        }
    }

    /// The problem a problem-specific heuristic is restricted to; `None` for
    /// the generic ones.
    pub open spec fn spec_only_for(self) -> Option<ProblemKind> {
        match self {
            HeuristicTag::WalkSat => Some(ProblemKind::Sat),
            HeuristicTag::PopulationAnnealing => Some(ProblemKind::MaxCut),
            HeuristicTag::RlBreakoutLocalSearch => Some(ProblemKind::MaxCut),
            HeuristicTag::BreakoutLocalSearch => Some(ProblemKind::MaxCut),
            HeuristicTag::LinKernighanHelsgaun => Some(ProblemKind::TspWithCoordinates),
            _ => None,
        }
    }

    /// Whether the heuristic works on any problem through a neighborhood.
    pub open spec fn is_neighborhood_based(self) -> bool {
        match self {
            HeuristicTag::LocalSearch => true,
            HeuristicTag::SimulatedAnnealing => true,
            HeuristicTag::TabuSearch => true,
            HeuristicTag::LateAcceptanceHillClimbing => true,
            HeuristicTag::RandomWalk => true,
            HeuristicTag::BangBangSimulatedAnnealing => true,
            HeuristicTag::BeamSearch => true,
            _ => false,
        }
    }

    /// The class name of the heuristic.
    pub fn name(&self) -> (r: &'static str)
        ensures
            r@ == self.spec_name(),
    {
        match self {
            HeuristicTag::LocalSearch => "LocalSearch",
            HeuristicTag::SimulatedAnnealing => "SimulatedAnnealing",
            HeuristicTag::TabuSearch => "TabuSearch",
            HeuristicTag::LateAcceptanceHillClimbing => "LateAcceptanceHillClimbing",
            HeuristicTag::RandomWalk => "RandomWalk",
            HeuristicTag::BangBangSimulatedAnnealing => "BangBangSimulatedAnnealing",
            HeuristicTag::BeamSearch => "BeamSearch",
            HeuristicTag::VariableNeighborhoodSearch => "VariableNeighborhoodSearch",
            HeuristicTag::WalkSat => "WalkSat",
            HeuristicTag::PopulationAnnealing => "PopulationAnnealing",
            HeuristicTag::RlBreakoutLocalSearch => "RlBreakoutLocalSearch",
            HeuristicTag::BreakoutLocalSearch => "BreakoutLocalSearch",
            HeuristicTag::LinKernighanHelsgaun => "LinKernighanHelsgaun",
        }
    }

    /// The problem a problem-specific heuristic is restricted to.
    pub fn only_for(&self) -> (r: Option<ProblemKind>)
        ensures
            r == self.spec_only_for(),
    {
        match self {
            HeuristicTag::WalkSat => Some(ProblemKind::Sat),
            HeuristicTag::PopulationAnnealing => Some(ProblemKind::MaxCut),
            HeuristicTag::RlBreakoutLocalSearch => Some(ProblemKind::MaxCut),
            HeuristicTag::BreakoutLocalSearch => Some(ProblemKind::MaxCut),
            HeuristicTag::LinKernighanHelsgaun => Some(ProblemKind::TspWithCoordinates),
            _ => None,
        }
    }

    /// Whether the heuristic works on any problem through a neighborhood.
    pub fn neighborhood_based(&self) -> (r: bool)
        ensures
            r == self.is_neighborhood_based(),
    {
        match self {
            HeuristicTag::LocalSearch => true,
            HeuristicTag::SimulatedAnnealing => true,
            HeuristicTag::TabuSearch => true,
            HeuristicTag::LateAcceptanceHillClimbing => true,
            HeuristicTag::RandomWalk => true,
            HeuristicTag::BangBangSimulatedAnnealing => true,
            HeuristicTag::BeamSearch => true,
            _ => false,
        }
    }
}

/// Algorithm selection plus algorithm-specific parameters.
///
/// Real-valued parameters are held as the IEEE-754 bit pattern of their `f64`
/// value (`f64::to_bits`): they are carried to the optimization core, never
/// computed with here.
pub enum HeuristicKind {
    LocalSearch,
    SimulatedAnnealing { initial_temperature_bits: u64, cooling_rate_bits: u64 },
    TabuSearch { tabu_tenure: (u64, u64) },
    LateAcceptance { history_length: usize },
    RandomWalk,
    BangBangSimulatedAnnealing {
        initial_temperature_bits: u64,
        cooling_rate_bits: u64,
        min_wave_threshold_bits: u64,
        max_wave_threshold_bits: u64,
    },
    BeamSearch { beam_width: usize },
    VariableNeighborhoodSearch { search: Box<HeuristicSpec>, shakes: Vec<HeuristicSpec> },
    WalkSat { noise_bits: u64, adaptive: bool },
    PopulationAnnealing {
        population_size: usize,
        initial_beta_bits: u64,
        delta_beta_bits: u64,
        sweeps_per_step: usize,
        reset_period: Option<usize>,
        cluster_moves: bool,
    },
    RlBreakoutLocalSearch {
        tabu_tenure: (u64, u64),
        t: u64,
        l0: u64,
        strength_bins_bits: Vec<u64>,
        learning_rate_bits: u64,
        softmax_temperature_bits: u64,
        exploration_bits: u64,
        policy_weights_bits: Option<Vec<u64>>,
    },
    BreakoutLocalSearch {
        tabu_tenure: (u64, u64),
        t: u64,
        l0: u64,
        p0_bits: u64,
        q_bits: u64,
        plateau_prob_bits: u64,
    },
    LinKernighanHelsgaun { num_neighbors: usize, max_depth: usize },
}

impl HeuristicKind {
    /// Which heuristic this is.
    pub open spec fn spec_tag(&self) -> HeuristicTag {
        match self {
            HeuristicKind::LocalSearch => HeuristicTag::LocalSearch,
            HeuristicKind::SimulatedAnnealing { .. } => HeuristicTag::SimulatedAnnealing,
            HeuristicKind::TabuSearch { .. } => HeuristicTag::TabuSearch,
            HeuristicKind::LateAcceptance { .. } => HeuristicTag::LateAcceptanceHillClimbing,
            HeuristicKind::RandomWalk => HeuristicTag::RandomWalk,
            HeuristicKind::BangBangSimulatedAnnealing { .. } => HeuristicTag::BangBangSimulatedAnnealing,
            HeuristicKind::BeamSearch { .. } => HeuristicTag::BeamSearch,
            HeuristicKind::VariableNeighborhoodSearch { .. } => HeuristicTag::VariableNeighborhoodSearch,
            HeuristicKind::WalkSat { .. } => HeuristicTag::WalkSat,
            HeuristicKind::PopulationAnnealing { .. } => HeuristicTag::PopulationAnnealing,
            HeuristicKind::RlBreakoutLocalSearch { .. } => HeuristicTag::RlBreakoutLocalSearch,
            HeuristicKind::BreakoutLocalSearch { .. } => HeuristicTag::BreakoutLocalSearch,
            HeuristicKind::LinKernighanHelsgaun { .. } => HeuristicTag::LinKernighanHelsgaun,
        }
    }

    /// Which heuristic this is.
    pub fn tag(&self) -> (r: HeuristicTag)
        ensures
            r == self.spec_tag(),
    {
        match self {
            HeuristicKind::LocalSearch => HeuristicTag::LocalSearch,
            HeuristicKind::SimulatedAnnealing { .. } => HeuristicTag::SimulatedAnnealing,
            HeuristicKind::TabuSearch { .. } => HeuristicTag::TabuSearch,
            HeuristicKind::LateAcceptance { .. } => HeuristicTag::LateAcceptanceHillClimbing,
            HeuristicKind::RandomWalk => HeuristicTag::RandomWalk,
            HeuristicKind::BangBangSimulatedAnnealing { .. } => HeuristicTag::BangBangSimulatedAnnealing,
            HeuristicKind::BeamSearch { .. } => HeuristicTag::BeamSearch,
            HeuristicKind::VariableNeighborhoodSearch { .. } => HeuristicTag::VariableNeighborhoodSearch,
            HeuristicKind::WalkSat { .. } => HeuristicTag::WalkSat,
            HeuristicKind::PopulationAnnealing { .. } => HeuristicTag::PopulationAnnealing,
            HeuristicKind::RlBreakoutLocalSearch { .. } => HeuristicTag::RlBreakoutLocalSearch,
            HeuristicKind::BreakoutLocalSearch { .. } => HeuristicTag::BreakoutLocalSearch,
            HeuristicKind::LinKernighanHelsgaun { .. } => HeuristicTag::LinKernighanHelsgaun,
        }
    }

    /// The class name of the heuristic, used to build error messages.
    pub fn name(&self) -> (r: &'static str)
        ensures
            r@ == self.spec_tag().spec_name(),
    {
        self.tag().name()
    }

    /// The problem this kind is restricted to, or `None` when it is generic.
    pub fn only_for(&self) -> (r: Option<ProblemKind>)
        ensures
            r == self.spec_tag().spec_only_for(),
    {
        self.tag().only_for()
    }
}

/// Fully-resolved heuristic specification handed to the dispatcher: the
/// algorithm, the name of its neighborhood (empty for the kinds that carry
/// none) and its stopping criterion.
pub struct HeuristicSpec {
    pub kind: HeuristicKind,
    pub neighbor: String,
    pub stop: StopCondition,
}

/// A heuristic resolved against one problem, ready to be instantiated.
pub enum Plan {
    /// A single heuristic, with its neighborhood for the generic ones.
    Step { kind: HeuristicKind, neighbor: Option<Neighbor>, stop: StopCondition },
    /// A variable neighborhood search over resolved steps.
    Vns { search: Box<Plan>, shakes: Vec<Plan>, stop: StopCondition },
}

/// The mathematical value of a [`Plan`]: the same tree, with sequences in
/// place of vectors.
pub enum PlanModel {
    Step { kind: HeuristicKind, neighbor: Option<Neighbor>, stop: StopCondition },
    Vns { search: Box<PlanModel>, shakes: Seq<PlanModel>, stop: StopCondition },
}

impl Plan {
    /// The mathematical value of this plan.
    pub open spec fn model(self) -> PlanModel
        decreases self,
    {
        match self {
            Plan::Step { kind, neighbor, stop } => PlanModel::Step { kind, neighbor, stop },
            Plan::Vns { search, shakes, stop } => PlanModel::Vns {
                search: Box::new((*search).model()),
                shakes: plan_models(shakes@),
                stop,
            },
        }
    }
}

/// The values of a sequence of plans, in order.
pub open spec fn plan_models(s: Seq<Plan>) -> Seq<PlanModel>
    decreases s,
{
    if s.len() == 0 {
        Seq::empty()
    } else {
        plan_models(s.subrange(0, s.len() - 1)).push(s[s.len() - 1].model())
    }
}

/// Why a heuristic cannot run on a problem.
pub enum BuildError {
    /// A problem-specific heuristic applied to another problem (or a kind
    /// that this problem does not implement).
    Unsupported { heuristic: HeuristicTag },
    /// A neighborhood name that the problem does not offer.
    InvalidNeighbor { given: String, problem: ProblemKind },
    /// A variable neighborhood search without shake steps.
    EmptyShakes,
    /// Pre-trained policy weights of the wrong length.
    PolicyWeightsLen { expected: u128, bins: usize, got: usize },
}

/// The outcome of a resolution, with plans replaced by their values.
pub open spec fn build_outcome(r: Result<Plan, BuildError>) -> Result<PlanModel, BuildError> {
    match r {
        Ok(p) => Ok(p.model()),
        Err(e) => Err(e),
    }
}

/// The error for a heuristic that cannot run on the problem at hand.
pub open spec fn unsupported_error(tag: HeuristicTag) -> BuildError {
    BuildError::Unsupported { heuristic: tag }
}

/// Number of pre-trained policy weights for `bins` strength bins: one row of
/// `NUM_CONTEXT_FEATURES` weights per (perturbation type, strength bin) action.
pub open spec fn expected_policy_weights(bins: nat) -> nat {
    (NUM_PERTURBATION_TYPES * bins * NUM_CONTEXT_FEATURES) as nat
}

/// Resolution of a spec that is not a variable neighborhood search.
///
/// A problem-specific heuristic runs on its own problem with no neighborhood
/// (the learned breakout search only if its pre-trained weights, when given,
/// have the expected length). Otherwise the neighborhood name is resolved:
/// a valid one admits the generic heuristics; an invalid one is reported as
/// such, except for problem-specific heuristics, which are reported as run on
/// the wrong problem.
pub open spec fn spec_build_step(p: ProblemKind, spec: HeuristicSpec) -> Result<
    PlanModel,
    BuildError,
> {
    let tag = spec.kind.spec_tag();
    if tag.spec_only_for() == Some(p) {
        match spec.kind {
            HeuristicKind::RlBreakoutLocalSearch { strength_bins_bits, policy_weights_bits, .. } => {
                match policy_weights_bits {
                    Some(w) => if w@.len() != expected_policy_weights(strength_bins_bits@.len()) {
                        Err(
                            BuildError::PolicyWeightsLen {
                                expected: expected_policy_weights(
                                    strength_bins_bits@.len(),
                                ) as u128,
                                bins: strength_bins_bits@.len() as usize,
                                got: w@.len() as usize,
                            },
                        )
                    } else {
                        Ok(PlanModel::Step { kind: spec.kind, neighbor: None, stop: spec.stop })
                    },
                    None => Ok(PlanModel::Step { kind: spec.kind, neighbor: None, stop: spec.stop }),
                }
            },
            _ => Ok(PlanModel::Step { kind: spec.kind, neighbor: None, stop: spec.stop }),
        }
    } else {
        match neighbor_for(p, spec.neighbor@) {
            Some(nb) => if tag.is_neighborhood_based() {
                Ok(PlanModel::Step { kind: spec.kind, neighbor: Some(nb), stop: spec.stop })
            } else {
                Err(unsupported_error(tag))
            },
            None => if tag.spec_only_for() is Some {
                Err(unsupported_error(tag))
            } else {
                Err(BuildError::InvalidNeighbor { given: spec.neighbor, problem: p })
            },
        }
    }
}

/// Resolution of a spec against problem `p`. A variable neighborhood search
/// needs at least one shake; its search step is resolved first, then its
/// shakes in order, and the first failure is reported.
pub open spec fn spec_build(p: ProblemKind, spec: HeuristicSpec) -> Result<PlanModel, BuildError>
    decreases spec,
{
    match spec.kind {
        HeuristicKind::VariableNeighborhoodSearch { search, shakes } => {
            if shakes@.len() == 0 {
                Err(BuildError::EmptyShakes)
            } else {
                match spec_build(p, *search) {
                    Err(e) => Err(e),
                    Ok(sm) => match spec_build_all(p, shakes@) {
                        Err(e) => Err(e),
                        Ok(ms) => Ok(PlanModel::Vns { search: Box::new(sm), shakes: ms, stop: spec.stop }),
                    },
                }
            }
        },
        _ => spec_build_step(p, spec),
    }
}

/// Resolution of a sequence of specs, in order: the first failure, or the
/// resolved steps.
pub open spec fn spec_build_all(p: ProblemKind, s: Seq<HeuristicSpec>) -> Result<
    Seq<PlanModel>,
    BuildError,
>
    decreases s,
{
    if s.len() == 0 {
        Ok(Seq::empty())
    } else {
        match spec_build_all(p, s.subrange(0, s.len() - 1)) {
            Err(e) => Err(e),
            Ok(ms) => match spec_build(p, s[s.len() - 1]) {
                Err(e) => Err(e),
                Ok(m) => Ok(ms.push(m)),
            },
        }
    }
}

/// The message of a resolution failure.
pub open spec fn build_error_message(e: BuildError) -> Seq<char> {
    match e {
        BuildError::Unsupported { heuristic } => match heuristic.spec_only_for() {
            Some(q) => heuristic.spec_name() + " is only available for "@ + q.spec_name(),
            None => heuristic.spec_name() + " is not supported for this problem"@,
        },
        BuildError::InvalidNeighbor { given, problem } => "invalid neighbor '"@ + given@
            + "' for "@ + problem.spec_name() + " (use "@ + valid_neighbors_text(problem) + ")"@,
        BuildError::EmptyShakes => "'shakes' must contain at least one heuristic"@,
        BuildError::PolicyWeightsLen { expected, bins, got } => "'policy_weights' must have "@
            + decimal(expected as nat) + " entries for "@ + decimal(bins as nat)
            + " strength bins, got "@ + decimal(got as nat),
    }
}

impl BuildError {
    /// The human-readable message of this failure.
    pub fn message(&self) -> (r: String)
        ensures
            r@ == build_error_message(*self),
    {
        match self {
            BuildError::Unsupported { heuristic } => {
                let mut s = String::from_str(heuristic.name());
                match heuristic.only_for() {
                    Some(q) => {
                        s.append(" is only available for ");
                        s.append(q.name());
                    },
                    None => {
                        s.append(" is not supported for this problem");
                    },
                }
                s
            },
            BuildError::InvalidNeighbor { given, problem } => {
                let mut s = String::from_str("invalid neighbor '");
                s.append(given.as_str());
                s.append("' for ");
                s.append(problem.name());
                s.append(" (use ");
                s.append(valid_neighbors(*problem));
                s.append(")");
                s
            },
            BuildError::EmptyShakes => String::from_str(
                "'shakes' must contain at least one heuristic",
            ),
            BuildError::PolicyWeightsLen { expected, bins, got } => {
                let mut s = String::from_str("'policy_weights' must have ");
                push_decimal(&mut s, *expected);
                s.append(" entries for ");
                push_decimal(&mut s, *bins as u128);
                s.append(" strength bins, got ");
                push_decimal(&mut s, *got as u128);
                s
            },
        }
    }
}

/// The error for a heuristic applied to a problem it cannot run on.
pub fn unsupported(tag: HeuristicTag) -> (r: BuildError)
    ensures
        r == unsupported_error(tag),
{
    BuildError::Unsupported { heuristic: tag }
}

/// The error for a neighborhood name that problem `p` does not offer.
///
/// Problem-specific heuristics carry no neighborhood, so reaching here means
/// the problem does not implement them: they get the "wrong problem" error
/// rather than a complaint about their (empty) neighborhood name.
pub fn neighbor_error(tag: HeuristicTag, given: String, p: ProblemKind) -> (r: BuildError)
    ensures
        r == (if tag.spec_only_for() is Some {
            unsupported_error(tag)
        } else {
            BuildError::InvalidNeighbor { given, problem: p }
        }),
{
    if tag.only_for().is_some() {
        return unsupported(tag);
    }
    BuildError::InvalidNeighbor { given, problem: p }
}

/// Instantiates a neighborhood-based heuristic with a resolved neighborhood;
/// any other kind cannot run through a neighborhood.
pub fn build_generic(kind: HeuristicKind, neighbor: Neighbor, stop: StopCondition) -> (r: Result<
    Plan,
    BuildError,
>)
    ensures
        build_outcome(r) == (if kind.spec_tag().is_neighborhood_based() {
            Ok(PlanModel::Step { kind, neighbor: Some(neighbor), stop })
        } else {
            Err(unsupported_error(kind.spec_tag()))
        }),
{
    let tag = kind.tag();
    if tag.neighborhood_based() {
        Ok(Plan::Step { kind, neighbor: Some(neighbor), stop })
    } else {
        Err(unsupported(tag))
    }
}

/// Resolves a problem-specific heuristic on its own problem: only the learned
/// breakout search has something to check, the length of its pre-trained
/// weights.
fn build_specific(kind: HeuristicKind, stop: StopCondition) -> (r: Result<Plan, BuildError>)
    ensures
        build_outcome(r) == (match kind {
            HeuristicKind::RlBreakoutLocalSearch { strength_bins_bits, policy_weights_bits, .. } => {
                match policy_weights_bits {
                    Some(w) => if w@.len() != expected_policy_weights(strength_bins_bits@.len()) {
                        Err(
                            BuildError::PolicyWeightsLen {
                                expected: expected_policy_weights(
                                    strength_bins_bits@.len(),
                                ) as u128,
                                bins: strength_bins_bits@.len() as usize,
                                got: w@.len() as usize,
                            },
                        )
                    } else {
                        Ok(PlanModel::Step { kind, neighbor: None, stop })
                    },
                    None => Ok(PlanModel::Step { kind, neighbor: None, stop }),
                }
            },
            _ => Ok(PlanModel::Step { kind, neighbor: None, stop }),
        }),
{
    match &kind {
        HeuristicKind::RlBreakoutLocalSearch { strength_bins_bits, policy_weights_bits, .. } => {
            match policy_weights_bits {
                Some(w) => {
                    let bins = strength_bins_bits.len();
                    let actions: u128 = (bins as u128) * 5;
                    let expected: u128 = actions * 8;
                    if (w.len() as u128) != expected {
                        return Err(
                            BuildError::PolicyWeightsLen { expected, bins, got: w.len() },
                        );
                    }
                },
                None => {},
            }
        },
        _ => {},
    }
    Ok(Plan::Step { kind, neighbor: None, stop })
}

/// Resolves a spec that is not a variable neighborhood search.
pub fn build_step(p: ProblemKind, spec: HeuristicSpec) -> (r: Result<Plan, BuildError>)
    ensures
        build_outcome(r) == spec_build_step(p, spec),
{
    let HeuristicSpec { kind, neighbor, stop } = spec;
    let tag = kind.tag();
    let specific = match tag.only_for() {
        Some(q) => q == p,
        None => false,
    };
    if specific {
        return build_specific(kind, stop);
    }
    match parse_neighbor(p, neighbor.as_str()) {
        Some(nb) => build_generic(kind, nb, stop),
        None => Err(neighbor_error(tag, neighbor, p)),
    }
}

/// A failure while resolving a prefix of a sequence of specs is the failure
/// of the whole sequence.
proof fn lemma_build_all_prefix_err(p: ProblemKind, s: Seq<HeuristicSpec>, j: int, e: BuildError)
    requires
        0 <= j <= s.len(),
        spec_build_all(p, s.subrange(0, j)) == Err::<Seq<PlanModel>, BuildError>(e),
    ensures
        spec_build_all(p, s) == Err::<Seq<PlanModel>, BuildError>(e),
    decreases s.len() - j,
{
    if j < s.len() {
        let t = s.subrange(0, j + 1);
        assert(t.subrange(0, t.len() - 1) =~= s.subrange(0, j));
        lemma_build_all_prefix_err(p, s, j + 1, e);
    } else {
        assert(s.subrange(0, j) =~= s);
    }
}

/// Resolves a heuristic spec against problem `p`, recursing into the steps of
/// a variable neighborhood search.
pub fn build(p: ProblemKind, spec: HeuristicSpec) -> (r: Result<Plan, BuildError>)
    ensures
        build_outcome(r) == spec_build(p, spec),
    decreases spec,
{
    let ghost whole = spec;
    let HeuristicSpec { kind, neighbor, stop } = spec;
    match kind {
        HeuristicKind::VariableNeighborhoodSearch { search, shakes } => {
            if shakes.len() == 0 {
                return Err(BuildError::EmptyShakes);
            }
            let search_plan = match build(p, *search) {
                Ok(sp) => sp,
                Err(e) => {
                    return Err(e);
                },
            };
            let ghost all = shakes@;
            let n = shakes.len();
            let mut rest = shakes;
            let mut plans: Vec<Plan> = Vec::new();
            let mut k: usize = 0;
            proof {
                assert(all.subrange(0, 0) =~= Seq::<HeuristicSpec>::empty());
                assert(plans@ =~= Seq::<Plan>::empty());
            }
            while k < n
                invariant
                    n == all.len(),
                    k <= n,
                    rest@ =~= all.subrange(k as int, n as int),
                    whole == spec,
                    spec.kind is VariableNeighborhoodSearch,
                    spec.kind->shakes@ == all,
                    n > 0,
                    spec_build(p, *spec.kind->search) == Ok::<PlanModel, BuildError>(
                        search_plan.model(),
                    ),
                    spec_build_all(p, all.subrange(0, k as int)) == Ok::<Seq<PlanModel>, BuildError>(
                        plan_models(plans@),
                    ),
                decreases n - k,
            {
                let s = rest.remove(0);
                proof {
                    assert(s == all[k as int]);
                    assert(decreases_to!(spec => spec.kind));
                    assert(decreases_to!(spec.kind => spec.kind->shakes));
                    assert(decreases_to!(spec.kind->shakes => spec.kind->shakes@));
                    assert(decreases_to!(spec.kind->shakes@ => all[k as int]));
                }
                let ghost sk = s;
                let r = build(p, s);
                proof {
                    let pre = all.subrange(0, k as int + 1);
                    assert(pre.subrange(0, pre.len() - 1) =~= all.subrange(0, k as int));
                    assert(pre[pre.len() - 1] == sk);
                }
                match r {
                    Ok(pl) => {
                        let ghost old_plans = plans@;
                        plans.push(pl);
                        proof {
                            assert(plans@.subrange(0, plans@.len() - 1) =~= old_plans);
                        }
                    },
                    Err(e) => {
                        proof {
                            lemma_build_all_prefix_err(p, all, k as int + 1, e);
                        }
                        return Err(e);
                    },
                }
                k = k + 1;
            }
            proof {
                assert(all.subrange(0, n as int) =~= all);
            }
            Ok(Plan::Vns { search: Box::new(search_plan), shakes: plans, stop })
        },
        other => build_step(p, HeuristicSpec { kind: other, neighbor, stop }),
    }
}

/// Why a call of `run` fails before any search starts.
pub enum SolveError {
    /// `runs` is 0.
    ZeroRuns,
    /// The heuristic cannot run on the problem.
    Build(BuildError),
}

impl SolveError {
    /// The human-readable message of this failure.
    pub fn message(&self) -> (r: String)
        ensures
            r@ == (match *self {
                SolveError::ZeroRuns => "'runs' must be at least 1"@,
                SolveError::Build(e) => build_error_message(e),
            }),
    {
        match self {
            SolveError::ZeroRuns => String::from_str("'runs' must be at least 1"),
            SolveError::Build(e) => e.message(),
        }
    }
}

/// Everything a call of `run` needs before searching: the resolved
/// heuristic, the direction of the objective, and the seed of every run.
pub struct SolvePlan {
    pub plan: Plan,
    pub minimize: bool,
    pub seeds: Vec<Option<u64>>,
}

/// The first check of a call of `run`: at least one run.
pub fn check_runs(runs: usize) -> (r: Result<(), SolveError>)
    ensures
        runs == 0 <==> r matches Err(SolveError::ZeroRuns),
        runs != 0 <==> r is Ok,
{
    if runs == 0 {
        return Err(SolveError::ZeroRuns);
    }
    Ok(())
}

/// Plans `runs` runs of the heuristic `spec` on problem `p` under master seed
/// `seed`: refuses zero runs, then resolves the heuristic, and derives one
/// seed per run (run `i` of a seeded call uses `derive_seed(seed, i)`, so run
/// 0 uses the seed itself).
pub fn plan_solve(p: ProblemKind, spec: HeuristicSpec, runs: usize, seed: Option<u64>) -> (r:
    Result<SolvePlan, SolveError>)
    ensures
        runs == 0 <==> r matches Err(SolveError::ZeroRuns),
        runs > 0 ==> match spec_build(p, spec) {
            Err(e) => r matches Err(SolveError::Build(e2)) && e2 == e,
            Ok(m) => r matches Ok(sp) && sp.plan.model() == m && sp.minimize
                == p.spec_minimizes() && sp.seeds@.len() == runs && forall|i: int|
                0 <= i < runs ==> #[trigger] sp.seeds@[i] == seed_of_run(seed, i as nat),
        },
{
    match check_runs(runs) {
        Err(e) => {
            return Err(e);
        },
        Ok(()) => {},
    }
    let plan = match build(p, spec) {
        Ok(plan) => plan,
        Err(e) => {
            return Err(SolveError::Build(e));
        },
    };
    let seeds = run_seeds(seed, runs);
    Ok(SolvePlan { plan, minimize: p.minimizes(), seeds })
}

/// A problem-specific heuristic run on any other problem is refused as
/// "only available for" its own problem, whatever neighborhood name it
/// carries.
pub proof fn specific_heuristic_refused_elsewhere(p: ProblemKind, spec: HeuristicSpec)
    requires
        spec.kind.spec_tag().spec_only_for() is Some,
        spec.kind.spec_tag().spec_only_for() != Some(p),
    ensures
        spec_build(p, spec) == Err::<PlanModel, BuildError>(
            unsupported_error(spec.kind.spec_tag()),
        ),
{
}

/// A problem-specific heuristic runs on its own problem, with no
/// neighborhood; the learned breakout search is refused there only for
/// pre-trained weights of the wrong length.
pub proof fn specific_heuristic_runs_on_its_problem(spec: HeuristicSpec)
    requires
        spec.kind.spec_tag().spec_only_for() is Some,
        !(spec.kind matches HeuristicKind::RlBreakoutLocalSearch {
            strength_bins_bits,
            policy_weights_bits: Some(w),
            ..
        } && w@.len() != expected_policy_weights(strength_bins_bits@.len())),
    ensures
        spec_build(spec.kind.spec_tag().spec_only_for().unwrap(), spec) == Ok::<
            PlanModel,
            BuildError,
        >(PlanModel::Step { kind: spec.kind, neighbor: None, stop: spec.stop }),
{
}

/// A neighborhood-based heuristic runs on a problem exactly when its
/// neighborhood name is one the problem offers, with that neighborhood;
/// otherwise the name is reported as invalid for the problem.
pub proof fn generic_heuristic_needs_offered_neighbor(p: ProblemKind, spec: HeuristicSpec)
    requires
        spec.kind.spec_tag().is_neighborhood_based(),
    ensures
        spec_build(p, spec) == match neighbor_for(p, spec.neighbor@) {
            Some(nb) => Ok::<PlanModel, BuildError>(
                PlanModel::Step { kind: spec.kind, neighbor: Some(nb), stop: spec.stop },
            ),
            None => Err(BuildError::InvalidNeighbor { given: spec.neighbor, problem: p }),
        },
{
}

/// Resolving a sequence succeeds exactly when every element resolves.
proof fn lemma_build_all_ok(p: ProblemKind, s: Seq<HeuristicSpec>)
    ensures
        spec_build_all(p, s) is Ok <==> forall|i: int| 0 <= i < s.len() ==> #[trigger] spec_build(
            p,
            s[i],
        ) is Ok,
    decreases s.len(),
{
    if s.len() > 0 {
        let pre = s.subrange(0, s.len() - 1);
        lemma_build_all_ok(p, pre);
        if spec_build_all(p, s) is Ok {
            assert forall|i: int| 0 <= i < s.len() implies #[trigger] spec_build(p, s[i]) is Ok by {
                if i < s.len() - 1 {
                    assert(pre[i] == s[i]);
                }
            }
        } else {
            if spec_build_all(p, pre) is Ok {
                assert(spec_build(p, s[s.len() - 1]) is Err);
            } else {
                let k = choose|k: int| 0 <= k < pre.len() && !(#[trigger] spec_build(p, pre[k]) is Ok);
                assert(pre[k] == s[k]);
            }
        }
    }
}

/// A variable neighborhood search runs on a problem exactly when it has at
/// least one shake and its search step and every shake run on that problem.
pub proof fn vns_runs_iff_its_steps_run(p: ProblemKind, spec: HeuristicSpec)
    requires
        spec.kind is VariableNeighborhoodSearch,
    ensures
        spec_build(p, spec) is Ok <==> {
            &&& spec.kind->shakes@.len() > 0
            &&& spec_build(p, *spec.kind->search) is Ok
            &&& forall|i: int|
                0 <= i < spec.kind->shakes@.len() ==> #[trigger] spec_build(
                    p,
                    spec.kind->shakes@[i],
                ) is Ok
        },
{
    lemma_build_all_ok(p, spec.kind->shakes@);
}

/// The generic heuristics — local search, simulated annealing, tabu search,
/// late acceptance hill climbing, random walk, bang-bang simulated annealing
/// and beam search — run on every problem through every neighborhood that the
/// problem offers, keeping their parameters and stopping criterion; any other
/// neighborhood name is reported as invalid for the problem.
pub proof fn generic_heuristics_run_on_every_problem(p: ProblemKind, spec: HeuristicSpec)
    requires
        spec.kind is LocalSearch || spec.kind is SimulatedAnnealing || spec.kind is TabuSearch
            || spec.kind is LateAcceptance || spec.kind is RandomWalk
            || spec.kind is BangBangSimulatedAnnealing || spec.kind is BeamSearch,
    ensures
        neighbor_for(p, spec.neighbor@) matches Some(nb) ==> spec_build(p, spec) == Ok::<
            PlanModel,
            BuildError,
        >(PlanModel::Step { kind: spec.kind, neighbor: Some(nb), stop: spec.stop }),
        neighbor_for(p, spec.neighbor@) is None ==> spec_build(p, spec) == Err::<
            PlanModel,
            BuildError,
        >(BuildError::InvalidNeighbor { given: spec.neighbor, problem: p }),
{
}

/// A resolved sequence of specs holds the resolution of each spec, in order.
proof fn lemma_build_all_elements(p: ProblemKind, s: Seq<HeuristicSpec>, ms: Seq<PlanModel>)
    requires
        spec_build_all(p, s) == Ok::<Seq<PlanModel>, BuildError>(ms),
    ensures
        ms.len() == s.len(),
        forall|i: int|
            0 <= i < s.len() ==> spec_build(p, #[trigger] s[i]) == Ok::<PlanModel, BuildError>(
                ms[i],
            ),
    decreases s.len(),
{
    if s.len() > 0 {
        let pre = s.subrange(0, s.len() - 1);
        let pms = ms.subrange(0, ms.len() - 1);
        match spec_build_all(p, pre) {
            Ok(xs) => {
                lemma_build_all_elements(p, pre, xs);
                assert(xs =~= pms);
                assert forall|i: int| 0 <= i < s.len() implies spec_build(p, #[trigger] s[i])
                    == Ok::<PlanModel, BuildError>(ms[i]) by {
                    if i < s.len() - 1 {
                        assert(pre[i] == s[i]);
                    }
                }
            },
            Err(_) => {},
        }
    }
}

/// A variable neighborhood search that resolves keeps its own stopping
/// criterion unchanged, and its search step and shakes are the resolutions of
/// its steps, in order.
pub proof fn vns_plan_keeps_its_stop_and_steps(p: ProblemKind, spec: HeuristicSpec, m: PlanModel)
    requires
        spec.kind is VariableNeighborhoodSearch,
        spec_build(p, spec) == Ok::<PlanModel, BuildError>(m),
    ensures
        m matches PlanModel::Vns { search, shakes, stop } && stop == spec.stop && spec_build(
            p,
            *spec.kind->search,
        ) == Ok::<PlanModel, BuildError>(*search) && shakes.len() == spec.kind->shakes@.len()
            && forall|i: int|
            0 <= i < shakes.len() ==> spec_build(p, #[trigger] spec.kind->shakes@[i]) == Ok::<
                PlanModel,
                BuildError,
            >(shakes[i]),
{
    match spec_build_all(p, spec.kind->shakes@) {
        Ok(ms) => {
            lemma_build_all_elements(p, spec.kind->shakes@, ms);
        },
        Err(_) => {},
    }
}

/// WalkSAT runs on SAT problems, with no neighborhood and its own stopping
/// criterion, and is refused as "only available for Sat" everywhere else.
pub proof fn walksat_runs_only_on_sat(p: ProblemKind, spec: HeuristicSpec)
    requires
        spec.kind is WalkSat,
    ensures
        p == ProblemKind::Sat ==> spec_build(p, spec) == Ok::<PlanModel, BuildError>(
            PlanModel::Step { kind: spec.kind, neighbor: None, stop: spec.stop },
        ),
        p != ProblemKind::Sat ==> spec_build(p, spec) == Err::<PlanModel, BuildError>(
            BuildError::Unsupported { heuristic: HeuristicTag::WalkSat },
        ),
{
}

/// Breakout local search runs on Max Cut, with no neighborhood and its own
/// stopping criterion, and is refused everywhere else.
pub proof fn breakout_local_search_runs_only_on_max_cut(p: ProblemKind, spec: HeuristicSpec)
    requires
        spec.kind is BreakoutLocalSearch,
    ensures
        p == ProblemKind::MaxCut ==> spec_build(p, spec) == Ok::<PlanModel, BuildError>(
            PlanModel::Step { kind: spec.kind, neighbor: None, stop: spec.stop },
        ),
        p != ProblemKind::MaxCut ==> spec_build(p, spec) == Err::<PlanModel, BuildError>(
            BuildError::Unsupported { heuristic: HeuristicTag::BreakoutLocalSearch },
        ),
{
}

/// Population annealing runs on Max Cut, with no neighborhood and its own
/// stopping criterion, and is refused everywhere else.
pub proof fn population_annealing_runs_only_on_max_cut(p: ProblemKind, spec: HeuristicSpec)
    requires
        spec.kind is PopulationAnnealing,
    ensures
        p == ProblemKind::MaxCut ==> spec_build(p, spec) == Ok::<PlanModel, BuildError>(
            PlanModel::Step { kind: spec.kind, neighbor: None, stop: spec.stop },
        ),
        p != ProblemKind::MaxCut ==> spec_build(p, spec) == Err::<PlanModel, BuildError>(
            BuildError::Unsupported { heuristic: HeuristicTag::PopulationAnnealing },
        ),
{
}

/// The learned breakout local search runs on Max Cut, with no neighborhood and
/// its own stopping criterion, unless its pre-trained weights (when given) do
/// not number 40 per strength bin (5 perturbation types times 8 context
/// features); it is refused on every other problem.
pub proof fn learned_breakout_runs_only_on_max_cut(p: ProblemKind, spec: HeuristicSpec)
    requires
        spec.kind is RlBreakoutLocalSearch,
    ensures
        p == ProblemKind::MaxCut ==> spec_build(p, spec) == match spec.kind->policy_weights_bits {
            Some(w) => if w@.len() != 40 * spec.kind->strength_bins_bits@.len() {
                Err::<PlanModel, BuildError>(
                    BuildError::PolicyWeightsLen {
                        expected: (40 * spec.kind->strength_bins_bits@.len()) as u128,
                        bins: spec.kind->strength_bins_bits@.len() as usize,
                        got: w@.len() as usize,
                    },
                )
            } else {
                Ok(PlanModel::Step { kind: spec.kind, neighbor: None, stop: spec.stop })
            },
            None => Ok(PlanModel::Step { kind: spec.kind, neighbor: None, stop: spec.stop }),
        },
        p != ProblemKind::MaxCut ==> spec_build(p, spec) == Err::<PlanModel, BuildError>(
            BuildError::Unsupported { heuristic: HeuristicTag::RlBreakoutLocalSearch },
        ),
{
}

/// Lin-Kernighan-Helsgaun runs on the Euclidean TSP, with no neighborhood and
/// its own stopping criterion, and is refused everywhere else.
pub proof fn lin_kernighan_helsgaun_runs_only_on_tsp(p: ProblemKind, spec: HeuristicSpec)
    requires
        spec.kind is LinKernighanHelsgaun,
    ensures
        p == ProblemKind::TspWithCoordinates ==> spec_build(p, spec) == Ok::<PlanModel, BuildError>(
            PlanModel::Step { kind: spec.kind, neighbor: None, stop: spec.stop },
        ),
        p != ProblemKind::TspWithCoordinates ==> spec_build(p, spec) == Err::<PlanModel, BuildError>(
            BuildError::Unsupported { heuristic: HeuristicTag::LinKernighanHelsgaun },
        ),
{
}

} // verus!
