//! The constraint negotiator: given the predicates the query planner
//! proposes for a table scan, decide which plan to accept, before anything
//! is scanned.
//!
//! Policy: the one supported pushdown is an equality predicate on the hidden
//! path column (column zero). Any predicate on another column, any other
//! operator on the path column, and a path predicate the planner marks
//! unusable are hard rejections; a proposal with no predicate at all is
//! rejected for missing the required filter.

use vstd::prelude::*;

verus! {

/// A comparison operator the query planner may propose, mirroring the host
/// engine's constraint operator set.
#[derive(Debug, Clone, Copy, PartialEq, Eq, Structural)]
pub enum ConstraintOp {
    Eq,
    Gt,
    Le,
    Lt,
    Ge,
    Match,
    Like,
    Glob,
    Regexp,
    Ne,
    IsNot,
    IsNotNull,
    IsNull,
    Is,
    Limit,
    Offset,
    Function(u8),
}

/// One predicate the planner proposes: which column it targets, whether it
/// is usable in the current plan, and its operator (`None` for an operator
/// the host engine did not recognize).
#[derive(Debug, Clone, Copy, PartialEq, Eq, Structural)]
pub struct PlannerConstraint {
    pub column_index: i32,
    pub usable: bool,
    pub op: Option<ConstraintOp>,
}

/// How an accepted plan treats one proposed predicate: the argument slot its
/// value is bound to, and whether the table consumes it fully (so the engine
/// must not re-check it).
#[derive(Debug, Clone, Copy, PartialEq, Eq, Structural)]
pub struct ConstraintUsage {
    pub argv_index: Option<i32>,
    pub omit: bool,
}

/// An accepted query plan: the opaque plan identifier, fixed cost and row
/// estimates (tuning placeholders that signal an expensive scan), and one
/// usage per proposed predicate, in proposal order.
#[derive(Debug, Clone, PartialEq)]
pub struct IndexPlan {
    pub idx_num: i32,
    pub estimated_cost: i64,
    pub estimated_rows: i64,
    pub usages: Vec<ConstraintUsage>,
}

/// Why a proposal was rejected.
#[derive(Debug, Clone, Copy, PartialEq, Eq, Structural)]
pub enum PlanRejection {
    /// A predicate the table cannot satisfy.
    UnsupportedConstraint,
    /// No usable equality predicate on the path column was proposed.
    MissingPathFilter,
}

/// The hidden path column is always declared first.
pub const PATH_COLUMN_INDEX: i32 = 0;

/// The fixed plan identifier of the one accepted plan shape.
pub const ACCEPTED_PLAN_ID: i32 = 1;

/// The argument slot the path value is bound to.
pub const PATH_ARGUMENT_SLOT: i32 = 1;

/// Fixed cost and row estimates reported for every accepted plan.
pub const ESTIMATED_COST: i64 = 100000;

pub const ESTIMATED_ROWS: i64 = 100000;

/// A predicate the negotiator can satisfy: a usable equality on the hidden
/// path column.
pub open spec fn is_usable_path_eq(c: PlannerConstraint) -> bool {
    &&& c.column_index == PATH_COLUMN_INDEX as i32
    &&& c.usable
    &&& c.op == Some(ConstraintOp::Eq)
}

/// When a proposal is accepted: it holds at least one predicate, and every
/// predicate is a usable equality on the path column.
pub open spec fn negotiation_accepts(cs: Seq<PlannerConstraint>) -> bool {
    cs.len() > 0 && forall|i: int| 0 <= i < cs.len() ==> is_usable_path_eq(cs[i])
}

/// What an accepted plan looks like: the fixed identifier and estimates, and
/// every proposed predicate bound to the path argument slot and consumed.
pub open spec fn accepted_plan(plan: IndexPlan, n_constraints: int) -> bool {
    &&& plan.idx_num == ACCEPTED_PLAN_ID as i32
    &&& plan.estimated_cost == ESTIMATED_COST as i64
    &&& plan.estimated_rows == ESTIMATED_ROWS as i64
    &&& plan.usages@.len() == n_constraints
    &&& forall|i: int|
        0 <= i < n_constraints ==> (#[trigger] plan.usages@[i]) == (ConstraintUsage {
            argv_index: Some(PATH_ARGUMENT_SLOT as i32),
            omit: true,
        })
}

/// The full outcome of a path-filter negotiation: acceptance exactly on the
/// all-path-equality proposals, each rejection tied to its cause, and the
/// accepted plan's exact shape.
pub open spec fn path_negotiation_post(
    cs: Seq<PlannerConstraint>,
    r: Result<IndexPlan, PlanRejection>,
) -> bool {
    &&& r is Ok <==> negotiation_accepts(cs)
    &&& (r == Err::<IndexPlan, PlanRejection>(PlanRejection::MissingPathFilter) <==> cs.len() == 0)
    &&& (r == Err::<IndexPlan, PlanRejection>(PlanRejection::UnsupportedConstraint) <==> exists|i: int|
        0 <= i < cs.len() && !is_usable_path_eq(#[trigger] cs[i]))
    &&& (r matches Ok(plan) ==> accepted_plan(plan, cs.len() as int))
}

/// Negotiate a plan for a table whose only pushdown is the path equality:
/// accept exactly the proposals made of usable path equalities (at least
/// one), reject anything else as unsupported, and reject an empty proposal
/// for missing the required filter.
pub fn negotiate_path_filter(constraints: &Vec<PlannerConstraint>) -> (r: Result<
    IndexPlan,
    PlanRejection,
>)
    ensures
        path_negotiation_post(constraints@, r),
{
    let mut usages: Vec<ConstraintUsage> = Vec::new();
    let mut i: usize = 0;
    while i < constraints.len()
        invariant
            i <= constraints@.len(),
            usages@.len() == i,
            forall|j: int| 0 <= j < i ==> is_usable_path_eq(#[trigger] constraints@[j]),
            forall|j: int|
                0 <= j < i ==> (#[trigger] usages@[j]) == (ConstraintUsage {
                    argv_index: Some(PATH_ARGUMENT_SLOT as i32),
                    omit: true,
                }),
        decreases constraints@.len() - i,
    {
        let c = constraints[i];
        let op_is_eq = match c.op {
            Some(ConstraintOp::Eq) => true,
            _ => false,
        };
        if !(c.column_index == PATH_COLUMN_INDEX && c.usable && op_is_eq) {
            return Err(PlanRejection::UnsupportedConstraint);
        }
        usages.push(ConstraintUsage { argv_index: Some(PATH_ARGUMENT_SLOT), omit: true });
        i = i + 1;
    }
    if constraints.len() == 0 {
        return Err(PlanRejection::MissingPathFilter);
    }
    Ok(
        IndexPlan {
            idx_num: ACCEPTED_PLAN_ID,
            estimated_cost: ESTIMATED_COST,
            estimated_rows: ESTIMATED_ROWS,
            usages,
        },
    )
}

/// A proposal that lacks a usable equality predicate on the path column is
/// never accepted: the scan is rejected at plan time. (The row-scan table is
/// exempt from this policy — its path is fixed when the table is created —
/// and negotiates through `row_scan_plan` instead.)
pub proof fn lemma_missing_path_filter_rejected(cs: Seq<PlannerConstraint>)
    requires
        forall|i: int| 0 <= i < cs.len() ==> !is_usable_path_eq(#[trigger] cs[i]),
    ensures
        !negotiation_accepts(cs),
{
    if cs.len() > 0 {
        assert(!is_usable_path_eq(cs[0]));
    }
}

/// What the row-scan table's plan looks like: the fixed identifier and
/// estimates, with no predicate consumed.
pub open spec fn row_scan_plan_shape(plan: IndexPlan, n_constraints: int) -> bool {
    &&& plan.idx_num == ACCEPTED_PLAN_ID as i32
    &&& plan.estimated_cost == ESTIMATED_COST as i64
    &&& plan.estimated_rows == ESTIMATED_ROWS as i64
    &&& plan.usages@.len() == n_constraints
    &&& forall|i: int|
        0 <= i < n_constraints ==> (#[trigger] plan.usages@[i]) == (ConstraintUsage {
            argv_index: None,
            omit: false,
        })
}

/// Negotiate a plan for the row-scan table, whose file is fixed at table
/// creation: every proposal is accepted, no predicate is consumed, and the
/// fixed estimates signal an expensive scan.
pub fn row_scan_plan(n_constraints: usize) -> (plan: IndexPlan)
    ensures
        row_scan_plan_shape(plan, n_constraints as int),
{
    let mut usages: Vec<ConstraintUsage> = Vec::new();
    let mut i: usize = 0;
    while i < n_constraints
        invariant
            i <= n_constraints,
            usages@.len() == i,
            forall|j: int|
                0 <= j < i ==> (#[trigger] usages@[j]) == (ConstraintUsage {
                    argv_index: None,
                    omit: false,
                }),
        decreases n_constraints - i,
    {
        usages.push(ConstraintUsage { argv_index: None, omit: false });
        i = i + 1;
    }
    IndexPlan {
        idx_num: ACCEPTED_PLAN_ID,
        estimated_cost: ESTIMATED_COST,
        estimated_rows: ESTIMATED_ROWS,
        usages,
    }
}

} // verus!
