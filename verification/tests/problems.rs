use optopus_py::problem::{
    compile_clamp, compile_comparison, is_clamp, job_shop_machines, parse_direction, parse_rel,
    poly_to_expr, Constraint, Direction, Expr, Monomial, ProblemError, Relation,
};

fn mono(vars: &[usize], coeff: f64) -> Monomial {
    Monomial { vars: vars.to_vec(), coeff_bits: coeff.to_bits() }
}

#[test]
fn directions() {
    assert_eq!(parse_direction("Maximize").ok(), Some(Direction::Maximize));
    assert_eq!(parse_direction("max").ok(), Some(Direction::Maximize));
    assert_eq!(parse_direction("Minimize").ok(), Some(Direction::Minimize));
    assert_eq!(parse_direction("min").ok(), Some(Direction::Minimize));
    let err = parse_direction("maximize").err().unwrap();
    assert!(matches!(&err, ProblemError::InvalidDirection { given } if given == "maximize"));
    assert_eq!(err.message(), "invalid direction 'maximize' (use 'Maximize' or 'Minimize')");
}

#[test]
fn relations() {
    for (names, rel) in [
        (&["Lt", "<"][..], Relation::Lt),
        (&["Le", "<="][..], Relation::Le),
        (&["Eq", "==", "="][..], Relation::Eq),
        (&["Ge", ">="][..], Relation::Ge),
        (&["Gt", ">"][..], Relation::Gt),
    ] {
        for n in names {
            assert_eq!(parse_rel(n).ok(), Some(rel));
        }
    }
    let err = parse_rel("!=").err().unwrap();
    assert_eq!(err.message(), "invalid relation '!=' (use 'Lt', 'Le', 'Eq', 'Ge', or 'Gt')");
    assert!(is_clamp("Clamp"));
    assert!(!is_clamp("clamp"));
    assert!(!is_clamp("Le"));
}

#[test]
fn empty_polynomial_is_zero() {
    assert!(matches!(poly_to_expr(&vec![]), Expr::Const(0)));
    assert_eq!(f64::from_bits(0), 0.0);
}

#[test]
fn constant_monomial_is_its_coefficient() {
    assert!(matches!(poly_to_expr(&vec![mono(&[], 2.5)]), Expr::Const(c) if f64::from_bits(c) == 2.5));
}

#[test]
fn single_monomial_is_a_product() {
    match poly_to_expr(&vec![mono(&[0, 1], -2.0)]) {
        Expr::Mul(fs) => {
            assert_eq!(fs.len(), 3);
            assert!(matches!(fs[0], Expr::Const(c) if f64::from_bits(c) == -2.0));
            assert!(matches!(fs[1], Expr::Var(0)));
            assert!(matches!(fs[2], Expr::Var(1)));
        }
        _ => panic!("expected a product"),
    }
}

#[test]
fn polynomial_is_a_sum_of_terms() {
    // x0 + x1 - 2*x0*x1, plus a constant
    let poly = vec![mono(&[0], 1.0), mono(&[1], 1.0), mono(&[0, 1], -2.0), mono(&[], 3.0)];
    match poly_to_expr(&poly) {
        Expr::Add(ts) => {
            assert_eq!(ts.len(), 4);
            assert!(matches!(&ts[0], Expr::Mul(f) if f.len() == 2 && matches!(f[1], Expr::Var(0))));
            assert!(matches!(&ts[1], Expr::Mul(f) if f.len() == 2 && matches!(f[1], Expr::Var(1))));
            assert!(matches!(&ts[2], Expr::Mul(f) if f.len() == 3));
            assert!(matches!(ts[3], Expr::Const(c) if f64::from_bits(c) == 3.0));
        }
        _ => panic!("expected a sum"),
    }
}

#[test]
fn comparison_constraints() {
    let c = compile_comparison(&vec![mono(&[0], 1.0), mono(&[1], 1.0)], "<=", &vec![mono(&[], 1.0)], 10.0f64.to_bits())
        .ok()
        .unwrap();
    match c {
        Constraint::Comparison { lhs, rel, rhs, penalty_weight_bits } => {
            assert!(matches!(lhs, Expr::Add(ref ts) if ts.len() == 2));
            assert_eq!(rel, Relation::Le);
            assert!(matches!(rhs, Expr::Const(c) if f64::from_bits(c) == 1.0));
            assert_eq!(f64::from_bits(penalty_weight_bits), 10.0);
        }
        _ => panic!("expected a comparison"),
    }
    let err = compile_comparison(&vec![], "~", &vec![], 0).err().unwrap();
    assert_eq!(err.message(), "invalid relation '~' (use 'Lt', 'Le', 'Eq', 'Ge', or 'Gt')");
}

#[test]
fn clamp_constraints() {
    match compile_clamp(&vec![mono(&[2], 1.0)], 0.0f64.to_bits(), 1.0f64.to_bits(), 5.0f64.to_bits()) {
        Constraint::Clamp { expr, lo_bits, hi_bits, penalty_weight_bits } => {
            assert!(matches!(expr, Expr::Mul(ref f) if f.len() == 2 && matches!(f[1], Expr::Var(2))));
            assert_eq!(f64::from_bits(lo_bits), 0.0);
            assert_eq!(f64::from_bits(hi_bits), 1.0);
            assert_eq!(f64::from_bits(penalty_weight_bits), 5.0);
        }
        _ => panic!("expected a range constraint"),
    }
}

#[test]
fn job_shop_machine_count() {
    let jobs = vec![vec![(0, 3), (1, 2), (2, 2)], vec![(0, 2), (2, 1), (1, 4)], vec![(1, 4), (2, 3)]];
    assert_eq!(job_shop_machines(&jobs).ok(), Some(3));
    let jobs = vec![vec![], vec![(7, 1)]];
    assert_eq!(job_shop_machines(&jobs).ok(), Some(8));
    let err = job_shop_machines(&vec![]).err().unwrap();
    assert!(matches!(err, ProblemError::JobsEmpty));
    assert_eq!(err.message(), "'jobs' must not be empty");
    let err = job_shop_machines(&vec![vec![], vec![]]).err().unwrap();
    assert!(matches!(err, ProblemError::NoOperations));
    assert_eq!(err.message(), "every job must have at least one operation");
}
