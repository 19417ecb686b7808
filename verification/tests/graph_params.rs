use optopus_py::graph::{
    check_barabasi_albert, check_erdos_renyi, check_watts_strogatz, check_weight_range,
    GraphParamError, MAX_EXACT_F32_INT,
};

#[test]
fn erdos_renyi_needs_a_vertex() {
    assert_eq!(check_erdos_renyi(0), Err(GraphParamError::NZero));
    assert_eq!(check_erdos_renyi(0).unwrap_err().message(), "'n' must be at least 1");
    assert_eq!(check_erdos_renyi(1), Ok(()));
    assert_eq!(check_erdos_renyi(200), Ok(()));
}

#[test]
fn barabasi_albert_needs_one_le_m_lt_n() {
    assert_eq!(check_barabasi_albert(10, 0), Err(GraphParamError::MZero));
    assert_eq!(check_barabasi_albert(10, 0).unwrap_err().message(), "'m' must be at least 1");
    assert_eq!(check_barabasi_albert(5, 5), Err(GraphParamError::MNotBelowN { m: 5, n: 5 }));
    assert_eq!(
        check_barabasi_albert(5, 7).unwrap_err().message(),
        "'m' must be less than 'n', got m=7, n=5"
    );
    assert_eq!(check_barabasi_albert(0, 0), Err(GraphParamError::MZero));
    assert_eq!(check_barabasi_albert(6, 5), Ok(()));
}

#[test]
fn watts_strogatz_needs_even_k_below_n() {
    assert_eq!(check_watts_strogatz(10, 0), Err(GraphParamError::KZero));
    assert_eq!(check_watts_strogatz(10, 0).unwrap_err().message(), "'k' must be at least 1");
    assert_eq!(check_watts_strogatz(10, 3), Err(GraphParamError::KOdd { k: 3 }));
    assert_eq!(check_watts_strogatz(10, 3).unwrap_err().message(), "'k' must be even, got 3");
    // Oddness is reported before the comparison with n.
    assert_eq!(check_watts_strogatz(2, 3), Err(GraphParamError::KOdd { k: 3 }));
    assert_eq!(check_watts_strogatz(4, 4), Err(GraphParamError::KNotBelowN { k: 4, n: 4 }));
    assert_eq!(
        check_watts_strogatz(4, 10).unwrap_err().message(),
        "'k' must be less than 'n', got k=10, n=4"
    );
    assert_eq!(check_watts_strogatz(5, 4), Ok(()));
}

#[test]
fn weight_range_rules() {
    assert_eq!(
        check_weight_range(3, -2),
        Err(GraphParamError::WeightRangeReversed { min: 3, max: -2 })
    );
    assert_eq!(
        check_weight_range(3, -2).unwrap_err().message(),
        "'weight_range' min (3) must be <= max (-2)"
    );
    assert_eq!(check_weight_range(0, 0), Err(GraphParamError::WeightRangeZero));
    assert_eq!(
        check_weight_range(0, 0).unwrap_err().message(),
        "'weight_range' (0, 0) contains no nonzero weight"
    );
    assert_eq!(check_weight_range(1, 10), Ok(()));
    assert_eq!(check_weight_range(-10, 10), Ok(()));
    assert_eq!(check_weight_range(0, 1), Ok(()));
    assert_eq!(MAX_EXACT_F32_INT, 1 << 24);
    assert_eq!(check_weight_range(-(1 << 24), 1 << 24), Ok(()));
    assert_eq!(
        check_weight_range(-(1 << 24) - 1, 1),
        Err(GraphParamError::WeightRangeTooWide { min: -(1 << 24) - 1, max: 1 })
    );
    assert_eq!(
        check_weight_range(-16_777_217, 1).unwrap_err().message(),
        "'weight_range' (-16777217, 1) exceeds the exactly f32-representable range of +/-16777216"
    );
    assert_eq!(
        check_weight_range(i64::MIN, i64::MAX).unwrap_err().message(),
        "'weight_range' (-9223372036854775808, 9223372036854775807) exceeds the exactly \
         f32-representable range of +/-16777216"
    );
}
