//! Category rules and the reimbursement they grant on a cost.
//!
//! Amounts are whole numbers of the currency's minor unit; a percentage is a
//! whole number of percent. A share that falls between two minor units is
//! rounded down.

use vstd::prelude::*;
use crate::error::ErrorKind;
use crate::role::{Role, role_meets};

verus! {

/// Whether a percentage and a cap form a valid rule.
pub open spec fn valid_rule(percentage: int, max_reimbursement: int) -> bool {
    0 <= percentage <= 100 && max_reimbursement >= 0
}

/// `min(max, percentage * cost / 100)`.
pub open spec fn reimbursement(percentage: int, max_reimbursement: int, cost: int) -> int {
    let share = percentage * cost / 100;
    if share > max_reimbursement {
        max_reimbursement
    } else {
        share
    }
}

/// A reimbursement rule: a percentage of each cost, capped per item.
#[derive(Debug)]
pub struct Category {
    id: i32,
    name: String,
    percentage: i64,
    max_reimbursement: i64,
}

impl Category {
    #[verifier::type_invariant]
    spec fn wf(self) -> bool {
        valid_rule(self.percentage as int, self.max_reimbursement as int)
    }

    pub closed spec fn spec_id(self) -> i32 {
        self.id
    }

    pub closed spec fn spec_name(self) -> Seq<char> {
        self.name@
    }

    /// The percentage. The type invariant keeps the field in [0, 100], so the
    /// clamp never changes it; it makes the bound visible of every value.
    pub closed spec fn spec_percentage(self) -> int {
        if self.percentage < 0 {
            0
        } else if self.percentage > 100 {
            100
        } else {
            self.percentage as int
        }
    }

    /// The cap. The type invariant keeps the field at 0 or above, so the clamp
    /// never changes it.
    pub closed spec fn spec_max_reimbursement(self) -> int {
        if self.max_reimbursement < 0 {
            0
        } else {
            self.max_reimbursement as int
        }
    }

    /// Every category holds a valid rule.
    pub proof fn lemma_rule_valid(c: Category)
        ensures
            valid_rule(c.spec_percentage(), c.spec_max_reimbursement()),
            c.spec_max_reimbursement() <= i64::MAX,
    {
    }

    /// Builds a category; refused when the percentage or the cap is out of range.
    pub fn new(id: i32, name: String, percentage: i64, max_reimbursement: i64) -> (r: Result<
        Category,
        ErrorKind,
    >)
        ensures
            valid_rule(percentage as int, max_reimbursement as int) <==> r is Ok,
            r matches Ok(c) ==> c.spec_id() == id && c.spec_name() == name@
                && c.spec_percentage() == percentage as int
                && c.spec_max_reimbursement() == max_reimbursement as int,
            r matches Err(e) ==> e == ErrorKind::ValidationFailed,
    {
        if validate_percentage(percentage).is_err() || validate_max_reimburstment(
            max_reimbursement,
        ).is_err() {
            return Err(ErrorKind::ValidationFailed);
        }
        Ok(Category { id, name, percentage, max_reimbursement })
    }

    pub fn id(&self) -> (r: i32)
        ensures
            r == self.spec_id(),
    {
        self.id
    }

    pub fn name(&self) -> (r: &str)
        ensures
            r@ == self.spec_name(),
    {
        self.name.as_str()
    }

    pub fn percentage(&self) -> (r: i64)
        ensures
            r as int == self.spec_percentage(),
            0 <= r <= 100,
    {
        proof {
            use_type_invariant(self);
        }
        self.percentage
    }

    pub fn max_reimbursement(&self) -> (r: i64)
        ensures
            r as int == self.spec_max_reimbursement(),
            r >= 0,
    {
        proof {
            use_type_invariant(self);
        }
        self.max_reimbursement
    }
}

impl Clone for Category {
    fn clone(&self) -> (r: Category)
        ensures
            r.spec_id() == self.spec_id(),
            r.spec_name() == self.spec_name(),
            r.spec_percentage() == self.spec_percentage(),
            r.spec_max_reimbursement() == self.spec_max_reimbursement(),
    {
        proof {
            use_type_invariant(self);
        }
        Category {
            id: self.id,
            name: self.name.clone(),
            percentage: self.percentage,
            max_reimbursement: self.max_reimbursement,
        }
    }
}

/// A percentage must lie in [0, 100].
pub fn validate_percentage(value: i64) -> (r: Result<(), ErrorKind>)
    ensures
        r is Ok <==> 0 <= value <= 100,
        r matches Err(e) ==> e == ErrorKind::ValidationFailed,
{
    if value < 0 || value > 100 {
        Err(ErrorKind::ValidationFailed)
    } else {
        Ok(())
    }
}

/// A cap must not be negative.
pub fn validate_max_reimburstment(value: i64) -> (r: Result<(), ErrorKind>)
    ensures
        r is Ok <==> value >= 0,
        r matches Err(e) ==> e == ErrorKind::ValidationFailed,
{
    if value < 0 {
        Err(ErrorKind::ValidationFailed)
    } else {
        Ok(())
    }
}

/// A claimed cost must be strictly positive.
pub fn validate_cost(cost: i64) -> (r: Result<(), ErrorKind>)
    ensures
        r is Ok <==> cost > 0,
        r matches Err(e) ==> e == ErrorKind::ValidationFailed,
{
    if cost <= 0 {
        Err(ErrorKind::ValidationFailed)
    } else {
        Ok(())
    }
}

/// The reimbursement that `category` grants on `cost`: the percentage of the
/// cost, capped at the category's maximum.
pub fn estimate(category: &Category, cost: i64) -> (r: i64)
    requires
        cost >= 0,
    ensures
        r as int == reimbursement(
            category.spec_percentage(),
            category.spec_max_reimbursement(),
            cost as int,
        ),
        0 <= r <= cost,
{
    proof {
        use_type_invariant(category);
    }
    let p = category.percentage as u128;
    let c = cost as u128;
    assert(p * c <= 100 * c) by (nonlinear_arith)
        requires
            p <= 100,
    ;
    let share = p * c / 100;
    assert(share <= c);
    let share = share as i64;
    if share > category.max_reimbursement {
        category.max_reimbursement
    } else {
        share
    }
}

/// A category as entered by an administrator.
#[derive(Debug, Clone)]
pub struct CategoryForm {
    pub name: String,
    pub percentage: i64,
    pub max_reimbursement: i64,
}

impl CategoryForm {
    /// The name must not be empty and the rule must be valid.
    pub fn validate(&self) -> (r: Result<(), ErrorKind>)
        ensures
            r is Ok <==> self.name@.len() > 0 && valid_rule(
                self.percentage as int,
                self.max_reimbursement as int,
            ),
            r matches Err(e) ==> e == ErrorKind::ValidationFailed,
    {
        if self.name.as_str().is_empty() {
            return Err(ErrorKind::ValidationFailed);
        }
        validate_percentage(self.percentage)?;
        validate_max_reimburstment(self.max_reimbursement)
    }
}

/// Checks a request to create a category: only an Admin may, and the form
/// must be valid.
pub fn create_category(actor: Role, form: &CategoryForm) -> (r: Result<(), ErrorKind>)
    ensures
        !role_meets(actor, Role::Admin) ==> r == Err::<(), ErrorKind>(ErrorKind::Forbidden),
        role_meets(actor, Role::Admin) ==> (r is Ok <==> form.name@.len() > 0 && valid_rule(
            form.percentage as int,
            form.max_reimbursement as int,
        )),
        role_meets(actor, Role::Admin) && r is Err ==> r == Err::<(), ErrorKind>(
            ErrorKind::ValidationFailed,
        ),
{
    if !actor.meets(Role::Admin) {
        return Err(ErrorKind::Forbidden);
    }
    form.validate()
}

/// A partial change to a category's rule: a field left `None` keeps its value.
#[derive(Debug, Clone, Copy)]
pub struct UpdateCategory {
    pub percentage: Option<i64>,
    pub max_reimbursement: Option<i64>,
}

/// The value a partial update leaves in a field.
pub open spec fn updated(new: Option<i64>, prior: int) -> int {
    match new {
        Some(v) => v as int,
        None => prior,
    }
}

/// Applies a partial update to a loaded category: only an Admin may, the
/// category must exist, and the resulting rule must be valid.
pub fn update_category(actor: Role, current: Option<Category>, updates: UpdateCategory) -> (r:
    Result<Category, ErrorKind>)
    ensures
        !role_meets(actor, Role::Admin) ==> r matches Err(ErrorKind::Forbidden),
        role_meets(actor, Role::Admin) ==> match current {
            None => r matches Err(ErrorKind::NotFound),
            Some(c) => {
                let p = updated(updates.percentage, c.spec_percentage());
                let m = updated(updates.max_reimbursement, c.spec_max_reimbursement());
                &&& valid_rule(p, m) ==> (r matches Ok(n) && n.spec_id() == c.spec_id()
                    && n.spec_name() == c.spec_name() && n.spec_percentage() == p
                    && n.spec_max_reimbursement() == m)
                &&& !valid_rule(p, m) ==> (r matches Err(ErrorKind::ValidationFailed))
            },
        },
{
    if !actor.meets(Role::Admin) {
        return Err(ErrorKind::Forbidden);
    }
    match current {
        None => Err(ErrorKind::NotFound),
        Some(c) => {
            let percentage = match updates.percentage {
                Some(v) => v,
                None => c.percentage(),
            };
            let max_reimbursement = match updates.max_reimbursement {
                Some(v) => v,
                None => c.max_reimbursement(),
            };
            let id = c.id();
            Category::new(id, c.name, percentage, max_reimbursement)
        }
    }
}

} // verus!
