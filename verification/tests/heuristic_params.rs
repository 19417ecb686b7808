use optopus_py::heuristic::{
    check_shakes, BangBangSimulatedAnnealing, BeamSearch, BreakoutLocalSearch,
    LateAcceptanceHillClimbing, LinKernighanHelsgaun, LocalSearch, ParamError,
    PopulationAnnealing, RandomWalk, RlBreakoutLocalSearch, SimulatedAnnealing, TabuSearch,
    VariableNeighborhoodSearch, WalkSat,
};
use optopus_py::runner::HeuristicKind;
use optopus_py::stop_condition::StopCondition;

fn stop() -> StopCondition {
    StopCondition::new(Some(5_000), Some(0.2f64.to_bits()), None)
}

#[test]
fn stop_condition_keeps_its_limits() {
    let s = StopCondition::new(Some(10), Some(1.5f64.to_bits()), Some(3));
    assert_eq!(s.max_iteration, Some(10));
    assert_eq!(s.max_duration_secs_bits.map(f64::from_bits), Some(1.5));
    assert_eq!(s.max_failed_update, Some(3));
}

#[test]
fn generic_heuristics_describe_themselves() {
    let spec = LocalSearch::new("Flip".to_string(), stop()).to_spec();
    assert!(matches!(spec.kind, HeuristicKind::LocalSearch));
    assert_eq!(spec.neighbor, "Flip");
    assert_eq!(spec.stop, stop());

    let spec = SimulatedAnnealing::new("Swap".to_string(), 10.0f64.to_bits(), 0.99f64.to_bits(), stop())
        .to_spec();
    match spec.kind {
        HeuristicKind::SimulatedAnnealing { initial_temperature_bits, cooling_rate_bits } => {
            assert_eq!(f64::from_bits(initial_temperature_bits), 10.0);
            assert_eq!(f64::from_bits(cooling_rate_bits), 0.99);
        }
        _ => panic!("expected simulated annealing"),
    }
    assert_eq!(spec.neighbor, "Swap");

    let spec = TabuSearch::new("Flip".to_string(), (3, 7), stop()).to_spec();
    assert!(matches!(spec.kind, HeuristicKind::TabuSearch { tabu_tenure: (3, 7) }));

    let spec = LateAcceptanceHillClimbing::new("Flip".to_string(), 20, stop()).to_spec();
    assert!(matches!(spec.kind, HeuristicKind::LateAcceptance { history_length: 20 }));

    let spec = RandomWalk::new("TwoOpt".to_string(), stop()).to_spec();
    assert!(matches!(spec.kind, HeuristicKind::RandomWalk));
    assert_eq!(spec.neighbor, "TwoOpt");

    let spec = BangBangSimulatedAnnealing::new("Flip".to_string(), 1, 2, 3, 4, stop()).to_spec();
    assert!(matches!(
        spec.kind,
        HeuristicKind::BangBangSimulatedAnnealing {
            initial_temperature_bits: 1,
            cooling_rate_bits: 2,
            min_wave_threshold_bits: 3,
            max_wave_threshold_bits: 4
        }
    ));
}

#[test]
fn beam_search_needs_a_positive_width() {
    let err = BeamSearch::new("Flip".to_string(), 0, stop()).err().unwrap();
    assert_eq!(err, ParamError::BeamWidthZero);
    assert_eq!(err.message(), "'beam_width' must be at least 1");
    let b = BeamSearch::new("Flip".to_string(), 8, stop()).ok().unwrap();
    assert!(matches!(b.to_spec().kind, HeuristicKind::BeamSearch { beam_width: 8 }));
}

#[test]
fn vns_needs_a_shake() {
    assert_eq!(check_shakes(0), Err(ParamError::ShakesEmpty));
    assert_eq!(check_shakes(2), Ok(()));
    let search = LocalSearch::new("Flip".to_string(), stop()).to_spec();
    let err = VariableNeighborhoodSearch::new(search, vec![], stop()).err().unwrap();
    assert_eq!(err.message(), "'shakes' must contain at least one heuristic");

    let search = LocalSearch::new("Flip".to_string(), stop()).to_spec();
    let shake = RandomWalk::new("Flip".to_string(), stop()).to_spec();
    let spec = VariableNeighborhoodSearch::new(search, vec![shake], stop()).ok().unwrap().into_spec();
    assert_eq!(spec.neighbor, "");
    match spec.kind {
        HeuristicKind::VariableNeighborhoodSearch { search, shakes } => {
            assert!(matches!(search.kind, HeuristicKind::LocalSearch));
            assert_eq!(shakes.len(), 1);
        }
        _ => panic!("expected a variable neighborhood search"),
    }
}

#[test]
fn walksat_describes_itself_without_neighborhood() {
    let spec = WalkSat::new(stop(), 0.3f64.to_bits(), true).to_spec();
    assert_eq!(spec.neighbor, "");
    match spec.kind {
        HeuristicKind::WalkSat { noise_bits, adaptive } => {
            assert_eq!(f64::from_bits(noise_bits), 0.3);
            assert!(adaptive);
        }
        _ => panic!("expected WalkSat"),
    }
}

#[test]
fn population_annealing_checks() {
    assert_eq!(PopulationAnnealing::check_population_size(1), Err(ParamError::PopulationSizeTooSmall));
    assert_eq!(PopulationAnnealing::check_population_size(2), Ok(()));
    let err = PopulationAnnealing::new(1, stop(), 0, 0, 0, 400, true).err().unwrap();
    assert_eq!(err, ParamError::PopulationSizeTooSmall);
    assert_eq!(err.message(), "'population_size' must be at least 2");
    let err = PopulationAnnealing::new(4, stop(), 0, 0, 0, 400, true).err().unwrap();
    assert_eq!(err.message(), "'sweeps_per_step' must be at least 1");
    let pa = PopulationAnnealing::new(4, stop(), 0.1f64.to_bits(), 0.02f64.to_bits(), 50, 400, true)
        .ok()
        .unwrap();
    assert_eq!(pa.reset_period, Some(400));
    let pa = PopulationAnnealing::new(4, stop(), 0, 0, 50, 0, false).ok().unwrap();
    assert_eq!(pa.reset_period, None);
    assert!(matches!(
        pa.to_spec().kind,
        HeuristicKind::PopulationAnnealing { population_size: 4, sweeps_per_step: 50, reset_period: None, cluster_moves: false, .. }
    ));
}

#[test]
fn breakout_local_search_needs_positive_l0() {
    let err = BreakoutLocalSearch::new((3, 50), 1_000, 0, 0, 0, stop(), 0).err().unwrap();
    assert_eq!(err, ParamError::L0Zero);
    assert_eq!(err.message(), "'l0' must be at least 1");
    let b = BreakoutLocalSearch::new((3, 50), 1_000, 20, 0.8f64.to_bits(), 0.5f64.to_bits(), stop(), 0)
        .ok()
        .unwrap();
    assert!(matches!(b.to_spec().kind, HeuristicKind::BreakoutLocalSearch { tabu_tenure: (3, 50), t: 1_000, l0: 20, .. }));
}

#[test]
fn learned_breakout_checks_in_order() {
    let bins = || vec![1.0f64.to_bits(), 2.0f64.to_bits(), 4.0f64.to_bits()];
    assert_eq!(RlBreakoutLocalSearch::check_l0_and_bins(0, 0), Err(ParamError::L0Zero));
    assert_eq!(RlBreakoutLocalSearch::check_l0_and_bins(1, 0), Err(ParamError::StrengthBinsEmpty));
    assert_eq!(RlBreakoutLocalSearch::check_l0_and_bins(1, 3), Ok(()));
    let err = RlBreakoutLocalSearch::new((3, 7), 10, 0, stop(), vec![], 0, 0, 0, Some(vec![])).err().unwrap();
    assert_eq!(err, ParamError::L0Zero);
    let err = RlBreakoutLocalSearch::new((3, 7), 10, 2, stop(), vec![], 0, 0, 0, None).err().unwrap();
    assert_eq!(err.message(), "'strength_bins' must not be empty (e.g. [1.0, 2.0, 4.0])");
    let err = RlBreakoutLocalSearch::new((3, 7), 10, 2, stop(), bins(), 0, 0, 0, Some(vec![0; 8]))
        .err()
        .unwrap();
    assert_eq!(err, ParamError::PolicyWeightsLen { expected: 120, bins: 3, got: 8 });
    assert_eq!(err.message(), "'policy_weights' must have 120 entries for 3 strength bins, got 8");
    let rl = RlBreakoutLocalSearch::new((3, 7), 10, 2, stop(), bins(), 1, 2, 3, Some(vec![7; 120]))
        .ok()
        .unwrap();
    match rl.to_spec().kind {
        HeuristicKind::RlBreakoutLocalSearch { strength_bins_bits, policy_weights_bits, exploration_bits, .. } => {
            assert_eq!(strength_bins_bits, bins());
            assert_eq!(policy_weights_bits, Some(vec![7; 120]));
            assert_eq!(exploration_bits, 3);
        }
        _ => panic!("expected the learned breakout search"),
    }
}

#[test]
fn lin_kernighan_helsgaun_checks() {
    let err = LinKernighanHelsgaun::new(stop(), 0, 0).err().unwrap();
    assert_eq!(err.message(), "'num_neighbors' must be at least 1");
    let err = LinKernighanHelsgaun::new(stop(), 5, 0).err().unwrap();
    assert_eq!(err.message(), "'max_depth' must be at least 1");
    let l = LinKernighanHelsgaun::new(stop(), 5, 5).ok().unwrap();
    let spec = l.to_spec();
    assert_eq!(spec.neighbor, "");
    assert!(matches!(spec.kind, HeuristicKind::LinKernighanHelsgaun { num_neighbors: 5, max_depth: 5 }));
}
