//! Problem construction rules: the names accepted for the optimization
//! direction and for constraint relations, the expression built from a flat
//! polynomial, and the machine count of a job shop instance.

use vstd::prelude::*;
use crate::text::str_eq;

verus! {

/// Direction of a formula objective.
#[derive(Clone, Copy, Debug, PartialEq, Eq, Structural)]
pub enum Direction {
    Maximize,
    Minimize,
}

/// Relation of a comparison constraint.
#[derive(Clone, Copy, Debug, PartialEq, Eq, Structural)]
pub enum Relation {
    Lt,
    Le,
    Eq,
    Ge,
    Gt,
}

/// A refused problem description.
pub enum ProblemError {
    /// A direction other than `Maximize`/`max`/`Minimize`/`min`.
    InvalidDirection { given: String },
    /// A relation name that is not one of the accepted spellings.
    InvalidRelation { given: String },
    /// A job shop instance without jobs.
    JobsEmpty,
    /// A job shop instance whose jobs hold no operation at all.
    NoOperations,
}

/// The direction named by `s`, if any.
pub open spec fn direction_named(s: Seq<char>) -> Option<Direction> {
    if s == "Maximize"@ || s == "max"@ {
        Some(Direction::Maximize)
    } else if s == "Minimize"@ || s == "min"@ {
        Some(Direction::Minimize)
    } else {
        None
    }
}

/// The relation named by `s`, if any: `Lt`/`<`, `Le`/`<=`, `Eq`/`==`/`=`,
/// `Ge`/`>=`, `Gt`/`>`.
pub open spec fn relation_named(s: Seq<char>) -> Option<Relation> {
    if s == "Lt"@ || s == "<"@ {
        Some(Relation::Lt)
    } else if s == "Le"@ || s == "<="@ {
        Some(Relation::Le)
    } else if s == "Eq"@ || s == "=="@ || s == "="@ {
        Some(Relation::Eq)
    } else if s == "Ge"@ || s == ">="@ {
        Some(Relation::Ge)
    } else if s == "Gt"@ || s == ">"@ {
        Some(Relation::Gt)
    } else {
        None
    }
}

/// The message of a refused problem description.
pub open spec fn problem_error_message(e: ProblemError) -> Seq<char> {
    match e {
        ProblemError::InvalidDirection { given } => "invalid direction '"@ + given@
            + "' (use 'Maximize' or 'Minimize')"@,
        ProblemError::InvalidRelation { given } => "invalid relation '"@ + given@
            + "' (use 'Lt', 'Le', 'Eq', 'Ge', or 'Gt')"@,
        ProblemError::JobsEmpty => "'jobs' must not be empty"@,
        ProblemError::NoOperations => "every job must have at least one operation"@,
    }
}

impl ProblemError {
    /// The human-readable message of this refusal.
    pub fn message(&self) -> (r: String)
        ensures
            r@ == problem_error_message(*self),
    {
        match self {
            ProblemError::InvalidDirection { given } => {
                let mut s = String::from_str("invalid direction '");
                s.append(given.as_str());
                s.append("' (use 'Maximize' or 'Minimize')");
                s
            },
            ProblemError::InvalidRelation { given } => {
                let mut s = String::from_str("invalid relation '");
                s.append(given.as_str());
                s.append("' (use 'Lt', 'Le', 'Eq', 'Ge', or 'Gt')");
                s
            },
            ProblemError::JobsEmpty => String::from_str("'jobs' must not be empty"),
            ProblemError::NoOperations => String::from_str(
                "every job must have at least one operation",
            ),
        }
    }
}

/// Parses the direction of a formula objective.
pub fn parse_direction(direction: &str) -> (r: Result<Direction, ProblemError>)
    ensures
        match direction_named(direction@) {
            Some(d) => r matches Ok(d2) && d2 == d,
            None => r matches Err(ProblemError::InvalidDirection { given }) && given@ == direction@,
        },
{
    if str_eq(direction, "Maximize") || str_eq(direction, "max") {
        Ok(Direction::Maximize)
    } else if str_eq(direction, "Minimize") || str_eq(direction, "min") {
        Ok(Direction::Minimize)
    } else {
        Err(ProblemError::InvalidDirection { given: String::from_str(direction) })
    }
}

/// Parses the relation of a comparison constraint.
pub fn parse_rel(rel: &str) -> (r: Result<Relation, ProblemError>)
    ensures
        match relation_named(rel@) {
            Some(x) => r matches Ok(y) && y == x,
            None => r matches Err(ProblemError::InvalidRelation { given }) && given@ == rel@,
        },
{
    if str_eq(rel, "Lt") || str_eq(rel, "<") {
        Ok(Relation::Lt)
    } else if str_eq(rel, "Le") || str_eq(rel, "<=") {
        Ok(Relation::Le)
    } else if str_eq(rel, "Eq") || str_eq(rel, "==") || str_eq(rel, "=") {
        Ok(Relation::Eq)
    } else if str_eq(rel, "Ge") || str_eq(rel, ">=") {
        Ok(Relation::Ge)
    } else if str_eq(rel, "Gt") || str_eq(rel, ">") {
        Ok(Relation::Gt)
    } else {
        Err(ProblemError::InvalidRelation { given: String::from_str(rel) })
    }
}

/// Whether a constraint tuple with relation name `rel` is a range constraint
/// `(expr, "Clamp", (lo, hi), penalty_weight)` rather than a comparison.
pub fn is_clamp(rel: &str) -> (r: bool)
    ensures
        r == (rel@ == "Clamp"@),
{
    str_eq(rel, "Clamp")
}

/// An expression over binary variables. Constants are held as the IEEE-754
/// bit pattern of their `f64` value.
pub enum Expr {
    Const(u64),
    Var(usize),
    Mul(Vec<Expr>),
    Add(Vec<Expr>),
}

/// The mathematical value of an [`Expr`]: the same tree, with sequences in
/// place of vectors.
pub enum ExprModel {
    Const(u64),
    Var(usize),
    Mul(Seq<ExprModel>),
    Add(Seq<ExprModel>),
}

impl Expr {
    /// The mathematical value of this expression.
    pub open spec fn model(self) -> ExprModel
        decreases self,
    {
        match self {
            Expr::Const(c) => ExprModel::Const(c),
            Expr::Var(v) => ExprModel::Var(v),
            Expr::Mul(fs) => ExprModel::Mul(expr_models(fs@)),
            Expr::Add(ts) => ExprModel::Add(expr_models(ts@)),
        }
    }
}

/// The values of a sequence of expressions, in order.
pub open spec fn expr_models(s: Seq<Expr>) -> Seq<ExprModel>
    decreases s,
{
    if s.len() == 0 {
        Seq::empty()
    } else {
        expr_models(s.subrange(0, s.len() - 1)).push(s[s.len() - 1].model())
    }
}

/// One term of a flat polynomial: a coefficient (bit pattern of an `f64`)
/// times the product of the listed variables. No variables means a constant.
pub struct Monomial {
    pub vars: Vec<usize>,
    pub coeff_bits: u64,
}

/// The expression of one monomial: its constant alone when it has no
/// variables, else the product of the constant and each variable in order.
pub open spec fn monomial_model(m: Monomial) -> ExprModel {
    if m.vars@.len() == 0 {
        ExprModel::Const(m.coeff_bits)
    } else {
        ExprModel::Mul(
            seq![ExprModel::Const(m.coeff_bits)] + m.vars@.map_values(|v: usize| ExprModel::Var(v)),
        )
    }
}

/// The expression of a flat polynomial: the constant 0.0 for no terms, the
/// single term for one, and the sum of the terms in order otherwise.
pub open spec fn poly_model(poly: Seq<Monomial>) -> ExprModel {
    if poly.len() == 0 {
        ExprModel::Const(0)
    } else if poly.len() == 1 {
        monomial_model(poly[0])
    } else {
        ExprModel::Add(poly.map_values(|m: Monomial| monomial_model(m)))
    }
}

proof fn lemma_expr_models_push(s: Seq<Expr>, e: Expr)
    ensures
        expr_models(s.push(e)) == expr_models(s).push(e.model()),
{
    let t = s.push(e);
    assert(t.subrange(0, t.len() - 1) =~= s);
}

proof fn lemma_expr_models_len(s: Seq<Expr>)
    ensures
        expr_models(s).len() == s.len(),
        forall|i: int| 0 <= i < s.len() ==> #[trigger] expr_models(s)[i] == s[i].model(),
    decreases s.len(),
{
    if s.len() > 0 {
        let p = s.subrange(0, s.len() - 1);
        lemma_expr_models_len(p);
        assert forall|i: int| 0 <= i < s.len() implies #[trigger] expr_models(s)[i]
            == s[i].model() by {
            if i < s.len() - 1 {
                assert(p[i] == s[i]);
            }
        }
    }
}

/// The expression of one monomial.
fn monomial_to_expr(m: &Monomial) -> (r: Expr)
    ensures
        r.model() == monomial_model(*m),
{
    let mut factors: Vec<Expr> = Vec::new();
    factors.push(Expr::Const(m.coeff_bits));
    let mut i: usize = 0;
    while i < m.vars.len()
        invariant
            i <= m.vars@.len(),
            factors@.len() == i + 1,
            factors@[0] == Expr::Const(m.coeff_bits),
            forall|j: int| 0 <= j < i ==> #[trigger] factors@[j + 1] == Expr::Var(m.vars@[j]),
        decreases m.vars.len() - i,
    {
        factors.push(Expr::Var(m.vars[i]));
        i = i + 1;
    }
    if factors.len() == 1 {
        proof {
            assert(m.vars@.len() == 0);
        }
        Expr::Const(m.coeff_bits)
    } else {
        proof {
            lemma_expr_models_len(factors@);
            let target = seq![ExprModel::Const(m.coeff_bits)] + m.vars@.map_values(
                |v: usize| ExprModel::Var(v),
            );
            assert(expr_models(factors@) =~= target) by {
                assert forall|j: int| 0 <= j < factors@.len() implies #[trigger] expr_models(
                    factors@,
                )[j] == target[j] by {
                    if j > 0 {
                        assert(factors@[(j - 1) + 1] == Expr::Var(m.vars@[j - 1]));
                    }
                }
            }
        }
        Expr::Mul(factors)
    }
}

/// Builds the expression of a flat polynomial (a sum of monomial products).
pub fn poly_to_expr(poly: &Vec<Monomial>) -> (r: Expr)
    ensures
        r.model() == poly_model(poly@),
{
    let mut terms: Vec<Expr> = Vec::new();
    let mut i: usize = 0;
    while i < poly.len()
        invariant
            i <= poly@.len(),
            terms@.len() == i,
            forall|j: int| 0 <= j < i ==> #[trigger] terms@[j].model() == monomial_model(poly@[j]),
        decreases poly.len() - i,
    {
        let t = monomial_to_expr(&poly[i]);
        terms.push(t);
        i = i + 1;
    }
    if terms.len() == 0 {
        Expr::Const(0)
    } else if terms.len() == 1 {
        let t = terms.pop().unwrap();
        t
    } else {
        proof {
            lemma_expr_models_len(terms@);
            assert(expr_models(terms@) =~= poly@.map_values(|m: Monomial| monomial_model(m)));
        }
        Expr::Add(terms)
    }
}

/// A penalty-weighted constraint of a formula problem. Real values (bounds,
/// penalty weights) are held as `f64` bit patterns.
pub enum Constraint {
    /// `lhs rel rhs`.
    Comparison { lhs: Expr, rel: Relation, rhs: Expr, penalty_weight_bits: u64 },
    /// `lo <= expr <= hi`.
    Clamp { expr: Expr, lo_bits: u64, hi_bits: u64, penalty_weight_bits: u64 },
}

/// Compiles a comparison constraint `(lhs, rel, rhs, penalty_weight)`.
pub fn compile_comparison(
    lhs: &Vec<Monomial>,
    rel: &str,
    rhs: &Vec<Monomial>,
    penalty_weight_bits: u64,
) -> (r: Result<Constraint, ProblemError>)
    ensures
        match relation_named(rel@) {
            Some(x) => r matches Ok(Constraint::Comparison { lhs: l, rel: y, rhs: h, penalty_weight_bits: w })
                && l.model() == poly_model(lhs@) && y == x && h.model() == poly_model(rhs@) && w
                == penalty_weight_bits,
            None => r matches Err(ProblemError::InvalidRelation { given }) && given@ == rel@,
        },
{
    let l = poly_to_expr(lhs);
    let relation = match parse_rel(rel) {
        Ok(x) => x,
        Err(e) => {
            return Err(e);
        },
    };
    let h = poly_to_expr(rhs);
    Ok(Constraint::Comparison { lhs: l, rel: relation, rhs: h, penalty_weight_bits })
}

/// Compiles a range constraint `(expr, "Clamp", (lo, hi), penalty_weight)`.
pub fn compile_clamp(expr: &Vec<Monomial>, lo_bits: u64, hi_bits: u64, penalty_weight_bits: u64) -> (r:
    Constraint)
    ensures
        r matches Constraint::Clamp { expr: e, lo_bits: lo, hi_bits: hi, penalty_weight_bits: w }
            && e.model() == poly_model(expr@) && lo == lo_bits && hi == hi_bits && w
            == penalty_weight_bits,
{
    Constraint::Clamp { expr: poly_to_expr(expr), lo_bits, hi_bits, penalty_weight_bits }
}

/// Number of machines of a job shop instance given as jobs of
/// `(machine_index, duration)` operations: the largest machine index plus 1.
/// Refuses an instance without jobs, then one without any operation.
pub fn job_shop_machines(jobs: &Vec<Vec<(usize, u32)>>) -> (r: Result<usize, ProblemError>)
    requires
        forall|i: int, j: int|
            0 <= i < jobs@.len() && 0 <= j < jobs@[i]@.len() ==> #[trigger] jobs@[i]@[j].0
                < usize::MAX,
    ensures
        jobs@.len() == 0 ==> r matches Err(ProblemError::JobsEmpty),
        jobs@.len() != 0 && (forall|i: int| 0 <= i < jobs@.len() ==> #[trigger] jobs@[i]@.len()
            == 0) ==> r matches Err(ProblemError::NoOperations),
        r is Ok <==> jobs@.len() != 0 && exists|i: int|
            0 <= i < jobs@.len() && #[trigger] jobs@[i]@.len() != 0,
        r matches Ok(n) ==> (forall|i: int, j: int|
            0 <= i < jobs@.len() && 0 <= j < jobs@[i]@.len() ==> #[trigger] jobs@[i]@[j].0 < n)
            && (exists|i: int, j: int|
            0 <= i < jobs@.len() && 0 <= j < jobs@[i]@.len() && #[trigger] jobs@[i]@[j].0 + 1
                == n),
{
    if jobs.len() == 0 {
        return Err(ProblemError::JobsEmpty);
    }
    let mut best: Option<usize> = None;
    let mut i: usize = 0;
    while i < jobs.len()
        invariant
            i <= jobs@.len(),
            forall|a: int, b: int|
                0 <= a < jobs@.len() && 0 <= b < jobs@[a]@.len() ==> #[trigger] jobs@[a]@[b].0
                    < usize::MAX,
            best is None <==> forall|a: int| 0 <= a < i ==> #[trigger] jobs@[a]@.len() == 0,
            best matches Some(m) ==> (forall|a: int, b: int|
                0 <= a < i && 0 <= b < jobs@[a]@.len() ==> #[trigger] jobs@[a]@[b].0 <= m) && (
            exists|a: int, b: int|
                0 <= a < i && 0 <= b < jobs@[a]@.len() && #[trigger] jobs@[a]@[b].0 == m),
        decreases jobs.len() - i,
    {
        let job = &jobs[i];
        let mut j: usize = 0;
        while j < job.len()
            invariant
                i < jobs@.len(),
                job == jobs@[i as int],
                j <= job@.len(),
                forall|a: int, b: int|
                    0 <= a < jobs@.len() && 0 <= b < jobs@[a]@.len() ==> #[trigger] jobs@[a]@[b].0
                        < usize::MAX,
                best is None <==> (forall|a: int| 0 <= a < i ==> #[trigger] jobs@[a]@.len() == 0)
                    && j == 0,
                best matches Some(m) ==> (forall|a: int, b: int|
                    (0 <= a < i && 0 <= b < jobs@[a]@.len()) || (a == i && 0 <= b < j)
                        ==> #[trigger] jobs@[a]@[b].0 <= m) && (exists|a: int, b: int|
                    ((0 <= a < i && 0 <= b < jobs@[a]@.len()) || (a == i && 0 <= b < j))
                        && #[trigger] jobs@[a]@[b].0 == m),
            decreases job.len() - j,
        {
            let machine = job[j].0;
            best = match best {
                None => Some(machine),
                Some(m) => if machine > m {
                    Some(machine)
                } else {
                    Some(m)
                },
            };
            j = j + 1;
        }
        i = i + 1;
    }
    match best {
        None => Err(ProblemError::NoOperations),
        Some(m) => {
            proof {
                let (a, b) = choose|a: int, b: int|
                    0 <= a < jobs@.len() && 0 <= b < jobs@[a]@.len() && #[trigger] jobs@[a]@[b].0
                        == m;
                assert(jobs@[a]@[b].0 < usize::MAX);
                assert(jobs@[a]@.len() != 0);
            }
            Ok(m + 1)
        },
    }
}

/// The expression of a monomial keeps its own coefficient: a constant
/// monomial is that coefficient, and any other is the product whose first
/// factor is the coefficient, followed by each of its variables in order.
pub proof fn monomial_expression_keeps_its_coefficient(m: Monomial)
    ensures
        m.vars@.len() == 0 ==> monomial_model(m) == ExprModel::Const(m.coeff_bits),
        m.vars@.len() > 0 ==> (monomial_model(m) matches ExprModel::Mul(fs) && fs.len()
            == m.vars@.len() + 1 && fs[0] == ExprModel::Const(m.coeff_bits) && forall|j: int|
            0 <= j < m.vars@.len() ==> #[trigger] fs[j + 1] == ExprModel::Var(m.vars@[j])),
{
}

/// The expression of a flat polynomial: 0.0 for no terms; for one term
/// `c * x_v`, the product `c * x_v`; for two or more terms, their sum in order,
/// where each term with variables is the product of its own coefficient and its
/// variables, and each constant term is its coefficient.
pub proof fn polynomial_expression_keeps_every_term(poly: Seq<Monomial>)
    ensures
        poly.len() == 0 ==> poly_model(poly) == ExprModel::Const(0),
        poly.len() == 1 && poly[0].vars@.len() == 1 ==> poly_model(poly) == ExprModel::Mul(
            seq![ExprModel::Const(poly[0].coeff_bits), ExprModel::Var(poly[0].vars@[0])],
        ),
        poly.len() == 1 && poly[0].vars@.len() == 0 ==> poly_model(poly) == ExprModel::Const(
            poly[0].coeff_bits,
        ),
        poly.len() >= 2 ==> (poly_model(poly) matches ExprModel::Add(ts) && ts.len() == poly.len()
            && forall|i: int|
            0 <= i < poly.len() ==> {
                &&& poly[i].vars@.len() == 0 ==> #[trigger] ts[i] == ExprModel::Const(
                    poly[i].coeff_bits,
                )
                &&& poly[i].vars@.len() > 0 ==> (ts[i] matches ExprModel::Mul(fs) && fs.len()
                    == poly[i].vars@.len() + 1 && fs[0] == ExprModel::Const(poly[i].coeff_bits)
                    && forall|j: int|
                    0 <= j < poly[i].vars@.len() ==> #[trigger] fs[j + 1] == ExprModel::Var(
                        poly[i].vars@[j],
                    ))
            }),
{
    if poly.len() == 1 && poly[0].vars@.len() == 1 {
        let m = poly[0];
        assert(seq![ExprModel::Const(m.coeff_bits)] + m.vars@.map_values(
            |v: usize| ExprModel::Var(v),
        ) =~= seq![ExprModel::Const(m.coeff_bits), ExprModel::Var(m.vars@[0])]);
    }
}

} // verus!
