use optopus_py::runner::{
    build, parse_neighbor, plan_solve, BuildError, HeuristicKind, HeuristicSpec, HeuristicTag,
    Neighbor, Plan, ProblemKind, SolveError,
};
use optopus_py::stop_condition::StopCondition;

const ALL_PROBLEMS: [ProblemKind; 7] = [
    ProblemKind::MaxCut,
    ProblemKind::Qubo,
    ProblemKind::Sat,
    ProblemKind::VertexCover,
    ProblemKind::TspWithCoordinates,
    ProblemKind::JobShopScheduling,
    ProblemKind::Formula,
];

fn stop() -> StopCondition {
    StopCondition::new(Some(1_000), None, None)
}

fn generic(kind: HeuristicKind, neighbor: &str) -> HeuristicSpec {
    HeuristicSpec { kind, neighbor: neighbor.to_string(), stop: stop() }
}

fn walksat() -> HeuristicSpec {
    HeuristicSpec {
        kind: HeuristicKind::WalkSat { noise_bits: 0.3f64.to_bits(), adaptive: false },
        neighbor: String::new(),
        stop: stop(),
    }
}

fn lkh() -> HeuristicSpec {
    HeuristicSpec {
        kind: HeuristicKind::LinKernighanHelsgaun { num_neighbors: 5, max_depth: 5 },
        neighbor: String::new(),
        stop: stop(),
    }
}

fn rl(bins: usize, weights: Option<usize>) -> HeuristicSpec {
    HeuristicSpec {
        kind: HeuristicKind::RlBreakoutLocalSearch {
            tabu_tenure: (3, 7),
            t: 100,
            l0: 2,
            strength_bins_bits: vec![1.0f64.to_bits(); bins],
            learning_rate_bits: 0.1f64.to_bits(),
            softmax_temperature_bits: 1.0f64.to_bits(),
            exploration_bits: 0.05f64.to_bits(),
            policy_weights_bits: weights.map(|n| vec![0u64; n]),
        },
        neighbor: String::new(),
        stop: stop(),
    }
}

fn vns(search: HeuristicSpec, shakes: Vec<HeuristicSpec>) -> HeuristicSpec {
    HeuristicSpec {
        kind: HeuristicKind::VariableNeighborhoodSearch { search: Box::new(search), shakes },
        neighbor: String::new(),
        stop: StopCondition::new(Some(20_000), None, None),
    }
}

#[test]
fn neighborhood_names_per_problem() {
    for p in ALL_PROBLEMS {
        let expected = match p {
            ProblemKind::TspWithCoordinates => [None, None, Some(Neighbor::TwoOpt), Some(Neighbor::Relocate)],
            ProblemKind::JobShopScheduling => [None, Some(Neighbor::Swap), None, Some(Neighbor::Relocate)],
            _ => [Some(Neighbor::Flip), Some(Neighbor::Swap), None, None],
        };
        let got = [
            parse_neighbor(p, "Flip"),
            parse_neighbor(p, "Swap"),
            parse_neighbor(p, "TwoOpt"),
            parse_neighbor(p, "Relocate"),
        ];
        assert_eq!(got, expected);
        assert_eq!(parse_neighbor(p, "flip"), None);
        assert_eq!(parse_neighbor(p, ""), None);
    }
}

#[test]
fn generic_heuristic_resolves_its_neighborhood() {
    let plan = build(ProblemKind::MaxCut, generic(HeuristicKind::LocalSearch, "Flip")).ok().unwrap();
    match plan {
        Plan::Step { kind: HeuristicKind::LocalSearch, neighbor, stop: s } => {
            assert_eq!(neighbor, Some(Neighbor::Flip));
            assert_eq!(s, stop());
        }
        _ => panic!("expected a single step"),
    }
    let plan = build(
        ProblemKind::TspWithCoordinates,
        generic(HeuristicKind::TabuSearch { tabu_tenure: (3, 7) }, "TwoOpt"),
    )
    .ok()
    .unwrap();
    assert!(matches!(
        plan,
        Plan::Step { kind: HeuristicKind::TabuSearch { tabu_tenure: (3, 7) }, neighbor: Some(Neighbor::TwoOpt), .. }
    ));
}

#[test]
fn invalid_neighborhood_is_reported_with_the_valid_ones() {
    let err = build(ProblemKind::TspWithCoordinates, generic(HeuristicKind::LocalSearch, "Flip"))
        .err()
        .unwrap();
    assert!(matches!(&err, BuildError::InvalidNeighbor { given, problem: ProblemKind::TspWithCoordinates } if given == "Flip"));
    assert_eq!(
        err.message(),
        "invalid neighbor 'Flip' for TspWithCoordinates (use 'TwoOpt' or 'Relocate')"
    );
    let err = build(ProblemKind::JobShopScheduling, generic(HeuristicKind::RandomWalk, "Flip"))
        .err()
        .unwrap();
    assert_eq!(
        err.message(),
        "invalid neighbor 'Flip' for JobShopScheduling (use 'Swap' or 'Relocate')"
    );
    let err = build(ProblemKind::Qubo, generic(HeuristicKind::BeamSearch { beam_width: 4 }, "Bogus"))
        .err()
        .unwrap();
    assert_eq!(err.message(), "invalid neighbor 'Bogus' for Qubo (use 'Flip' or 'Swap')");
}

#[test]
fn problem_specific_heuristics_only_run_on_their_problem() {
    for p in ALL_PROBLEMS {
        let r = build(p, walksat());
        if p == ProblemKind::Sat {
            assert!(matches!(r, Ok(Plan::Step { kind: HeuristicKind::WalkSat { .. }, neighbor: None, .. })));
        } else {
            let err = r.err().unwrap();
            assert!(matches!(err, BuildError::Unsupported { heuristic: HeuristicTag::WalkSat }));
            assert_eq!(err.message(), "WalkSat is only available for Sat");
        }
        let r = build(p, lkh());
        if p == ProblemKind::TspWithCoordinates {
            assert!(r.is_ok());
        } else {
            assert_eq!(
                r.err().unwrap().message(),
                "LinKernighanHelsgaun is only available for TspWithCoordinates"
            );
        }
    }
}

#[test]
fn problem_specific_heuristic_with_a_neighborhood_name_is_still_refused_elsewhere() {
    let mut spec = walksat();
    spec.neighbor = "Flip".to_string();
    let err = build(ProblemKind::MaxCut, spec).err().unwrap();
    assert_eq!(err.message(), "WalkSat is only available for Sat");
}

#[test]
fn learned_breakout_checks_policy_weight_count() {
    assert!(build(ProblemKind::MaxCut, rl(3, None)).is_ok());
    assert!(build(ProblemKind::MaxCut, rl(3, Some(120))).is_ok());
    let err = build(ProblemKind::MaxCut, rl(3, Some(5))).err().unwrap();
    assert!(matches!(err, BuildError::PolicyWeightsLen { expected: 120, bins: 3, got: 5 }));
    assert_eq!(
        err.message(),
        "'policy_weights' must have 120 entries for 3 strength bins, got 5"
    );
    // On another problem the wrong problem is reported first.
    assert_eq!(
        build(ProblemKind::Qubo, rl(3, Some(5))).err().unwrap().message(),
        "RlBreakoutLocalSearch is only available for MaxCut"
    );
}

#[test]
fn vns_resolves_its_steps_in_order() {
    let spec = vns(
        generic(HeuristicKind::LocalSearch, "Flip"),
        vec![generic(HeuristicKind::RandomWalk, "Flip"), generic(HeuristicKind::RandomWalk, "Swap")],
    );
    match build(ProblemKind::MaxCut, spec).ok().unwrap() {
        Plan::Vns { search, shakes, stop: s } => {
            assert!(matches!(*search, Plan::Step { neighbor: Some(Neighbor::Flip), .. }));
            assert_eq!(shakes.len(), 2);
            assert!(matches!(shakes[0], Plan::Step { neighbor: Some(Neighbor::Flip), .. }));
            assert!(matches!(shakes[1], Plan::Step { neighbor: Some(Neighbor::Swap), .. }));
            assert_eq!(s.max_iteration, Some(20_000));
        }
        _ => panic!("expected a variable neighborhood search"),
    }
}

#[test]
fn vns_reports_the_first_failing_step() {
    let no_shakes = vns(generic(HeuristicKind::LocalSearch, "Bogus"), vec![]);
    let err = build(ProblemKind::MaxCut, no_shakes).err().unwrap();
    assert!(matches!(err, BuildError::EmptyShakes));
    assert_eq!(err.message(), "'shakes' must contain at least one heuristic");

    let bad_search = vns(generic(HeuristicKind::LocalSearch, "Bogus"), vec![walksat()]);
    assert_eq!(
        build(ProblemKind::MaxCut, bad_search).err().unwrap().message(),
        "invalid neighbor 'Bogus' for MaxCut (use 'Flip' or 'Swap')"
    );

    let bad_shakes = vns(
        generic(HeuristicKind::LocalSearch, "Flip"),
        vec![generic(HeuristicKind::RandomWalk, "Flip"), walksat(), lkh()],
    );
    assert_eq!(
        build(ProblemKind::MaxCut, bad_shakes).err().unwrap().message(),
        "WalkSat is only available for Sat"
    );

    let nested = vns(
        vns(generic(HeuristicKind::LocalSearch, "Flip"), vec![lkh()]),
        vec![generic(HeuristicKind::RandomWalk, "Flip")],
    );
    assert_eq!(
        build(ProblemKind::Sat, nested).err().unwrap().message(),
        "LinKernighanHelsgaun is only available for TspWithCoordinates"
    );
}

#[test]
fn problem_specific_steps_work_inside_vns_on_their_problem() {
    let spec = vns(walksat(), vec![generic(HeuristicKind::RandomWalk, "Swap")]);
    assert!(build(ProblemKind::Sat, spec).is_ok());
}

#[test]
fn plan_refuses_zero_runs_before_anything_else() {
    let r = plan_solve(ProblemKind::MaxCut, walksat(), 0, Some(1));
    let err = r.err().unwrap();
    assert!(matches!(err, SolveError::ZeroRuns));
    assert_eq!(err.message(), "'runs' must be at least 1");
}

#[test]
fn plan_reports_a_build_error() {
    let err = plan_solve(ProblemKind::MaxCut, walksat(), 2, None).err().unwrap();
    assert!(matches!(err, SolveError::Build(BuildError::Unsupported { heuristic: HeuristicTag::WalkSat })));
    assert_eq!(err.message(), "WalkSat is only available for Sat");
}

#[test]
fn plan_follows_the_problem_direction_and_seeds_each_run() {
    for p in ALL_PROBLEMS {
        let plan = plan_solve(p, generic(HeuristicKind::RandomWalk, if p == ProblemKind::TspWithCoordinates { "TwoOpt" } else { "Swap" }), 3, Some(5))
            .ok()
            .unwrap();
        let minimized = matches!(
            p,
            ProblemKind::Qubo
                | ProblemKind::VertexCover
                | ProblemKind::TspWithCoordinates
                | ProblemKind::JobShopScheduling
        );
        assert_eq!(plan.minimize, minimized);
        assert_eq!(plan.minimize, p.minimizes());
        assert_eq!(plan.seeds.len(), 3);
        assert_eq!(plan.seeds[0], Some(5));
    }
    let plan = plan_solve(ProblemKind::Qubo, generic(HeuristicKind::LocalSearch, "Flip"), 2, None)
        .ok()
        .unwrap();
    assert_eq!(plan.seeds, vec![None, None]);
}

#[test]
fn heuristic_and_problem_names() {
    assert_eq!(HeuristicTag::LateAcceptanceHillClimbing.name(), "LateAcceptanceHillClimbing");
    assert_eq!(HeuristicKind::LateAcceptance { history_length: 3 }.name(), "LateAcceptanceHillClimbing");
    assert_eq!(HeuristicKind::BeamSearch { beam_width: 1 }.only_for(), None);
    assert_eq!(
        HeuristicKind::PopulationAnnealing {
            population_size: 4,
            initial_beta_bits: 0,
            delta_beta_bits: 0,
            sweeps_per_step: 1,
            reset_period: None,
            cluster_moves: true
        }
        .only_for(),
        Some(ProblemKind::MaxCut)
    );
    assert_eq!(ProblemKind::JobShopScheduling.name(), "JobShopScheduling");
    assert_eq!(
        BuildError::Unsupported { heuristic: HeuristicTag::VariableNeighborhoodSearch }.message(),
        "VariableNeighborhoodSearch is not supported for this problem"
    );
}
