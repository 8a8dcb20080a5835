//! The claim lifecycle: building a claim from its items, and the single
//! approval transition Pending -> Accepted | Rejected.

use vstd::prelude::*;
use crate::category::{Category, estimate, reimbursement, validate_cost};
use crate::error::ErrorKind;
use crate::role::{Role, role_meets};
use crate::text::same_text;

verus! {

/// Where a claim stands; Accepted and Rejected are terminal.
#[derive(Debug, Clone, Copy, PartialEq, Eq, Structural)]
pub enum ClaimStatus {
    Pending,
    Accepted,
    Rejected,
}

/// The stored name of a status.
pub open spec fn status_name(s: ClaimStatus) -> Seq<char> {
    match s {
        ClaimStatus::Pending => "Pending"@,
        ClaimStatus::Accepted => "Accepted"@,
        ClaimStatus::Rejected => "Rejected"@,
    }
}

/// The status whose stored name is `s`, if any.
pub open spec fn status_named(s: Seq<char>) -> Option<ClaimStatus> {
    if s == "Pending"@ {
        Some(ClaimStatus::Pending)
    } else if s == "Accepted"@ {
        Some(ClaimStatus::Accepted)
    } else if s == "Rejected"@ {
        Some(ClaimStatus::Rejected)
    } else {
        None
    }
}

impl ClaimStatus {
    /// Decodes a stored status name; an unknown name is refused, not defaulted.
    pub fn from_name(name: &str) -> (r: Option<ClaimStatus>)
        ensures
            r == status_named(name@),
    {
        if same_text(name, "Pending") {
            Some(ClaimStatus::Pending)
        } else if same_text(name, "Accepted") {
            Some(ClaimStatus::Accepted)
        } else if same_text(name, "Rejected") {
            Some(ClaimStatus::Rejected)
        } else {
            None
        }
    }

    /// The stored name of the status.
    pub fn to_string(&self) -> (r: String)
        ensures
            r@ == status_name(*self),
    {
        match self {
            ClaimStatus::Pending => String::from_str("Pending"),
            ClaimStatus::Accepted => String::from_str("Accepted"),
            ClaimStatus::Rejected => String::from_str("Rejected"),
        }
    }
}

/// A stored claim. The totals are `None` only while the claim is being built.
#[derive(Debug, Clone, Copy, PartialEq, Eq, Structural)]
pub struct Claim {
    pub id: i32,
    pub user_id: i32,
    pub total_cost: Option<i128>,
    pub reimbursement: Option<i128>,
    pub status: ClaimStatus,
}

/// A stored claim line.
#[derive(Debug, Clone, Copy, PartialEq, Eq, Structural)]
pub struct Item {
    pub id: i32,
    pub claim_id: i32,
    pub category_id: i32,
    pub cost: i64,
    pub reimbursement: i64,
}

/// One line of a claim as submitted.
#[derive(Debug, Clone, Copy, PartialEq, Eq, Structural)]
pub struct ItemForm {
    pub category_id: i32,
    pub cost: i64,
}

impl ItemForm {
    /// The cost must be strictly positive.
    pub fn validate(&self) -> (r: Result<(), ErrorKind>)
        ensures
            r is Ok <==> self.cost > 0,
            r matches Err(e) ==> e == ErrorKind::ValidationFailed,
    {
        validate_cost(self.cost)
    }
}

/// Whether every submitted line has a strictly positive cost.
pub open spec fn items_valid(items: Seq<ItemForm>) -> bool {
    forall|i: int| 0 <= i < items.len() ==> #[trigger] items[i].cost > 0
}

/// Accepts a list of lines only when every line is valid.
pub fn validate_items(items: &Vec<ItemForm>) -> (r: Result<(), ErrorKind>)
    ensures
        r is Ok <==> items_valid(items@),
        r matches Err(e) ==> e == ErrorKind::ValidationFailed,
{
    let mut i: usize = 0;
    while i < items.len()
        invariant
            i <= items@.len(),
            forall|j: int| 0 <= j < i ==> #[trigger] items@[j].cost > 0,
        decreases items@.len() - i,
    {
        if items[i].validate().is_err() {
            return Err(ErrorKind::ValidationFailed);
        }
        i = i + 1;
    }
    Ok(())
}

/// A claim as submitted.
#[derive(Debug, Clone)]
pub struct ClaimForm {
    pub user_id: i32,
    pub auth_token: String,
    pub items: Vec<ItemForm>,
}

impl ClaimForm {
    /// Every line must be valid.
    pub fn validate(&self) -> (r: Result<(), ErrorKind>)
        ensures
            r is Ok <==> items_valid(self.items@),
            r matches Err(e) ==> e == ErrorKind::ValidationFailed,
    {
        validate_items(&self.items)
    }
}

/// A submitted line together with its category as found in storage.
#[derive(Debug, Clone)]
pub struct ClaimLine {
    pub item: ItemForm,
    pub category: Option<Category>,
}

/// A claim line ready to be stored.
#[derive(Debug, Clone, Copy, PartialEq, Eq, Structural)]
pub struct ItemDraft {
    pub category_id: i32,
    pub cost: i64,
    pub reimbursement: i64,
}

/// A claim ready to be stored, with its lines and final totals. The totals
/// are wide enough for any number of lines.
#[derive(Debug, Clone)]
pub struct ClaimDraft {
    pub user_id: i32,
    pub total_cost: i128,
    pub reimbursement: i128,
    pub status: ClaimStatus,
    pub items: Vec<ItemDraft>,
}

/// The reimbursement of one resolved line.
pub open spec fn line_reimbursement(line: ClaimLine) -> int {
    match line.category {
        Some(c) => reimbursement(
            c.spec_percentage(),
            c.spec_max_reimbursement(),
            line.item.cost as int,
        ),
        None => 0,
    }
}

/// Whether `d` stores `line`: its category and cost, and its reimbursement.
pub open spec fn drafted_from(d: ItemDraft, line: ClaimLine) -> bool {
    &&& d.category_id == line.item.category_id
    &&& d.cost == line.item.cost
    &&& d.reimbursement as int == line_reimbursement(line)
}

/// Σ cost over the lines.
pub open spec fn sum_costs(lines: Seq<ClaimLine>) -> int
    decreases lines.len(),
{
    if lines.len() == 0 {
        0
    } else {
        sum_costs(lines.drop_last()) + lines.last().item.cost
    }
}

/// Σ reimbursement over the lines.
pub open spec fn sum_reimbursements(lines: Seq<ClaimLine>) -> int
    decreases lines.len(),
{
    if lines.len() == 0 {
        0
    } else {
        sum_reimbursements(lines.drop_last()) + line_reimbursement(lines.last())
    }
}

/// Whether every line has a strictly positive cost.
pub open spec fn lines_valid(lines: Seq<ClaimLine>) -> bool {
    forall|i: int| 0 <= i < lines.len() ==> #[trigger] lines[i].item.cost > 0
}

/// Whether every line's category was found.
pub open spec fn lines_resolved(lines: Seq<ClaimLine>) -> bool {
    forall|i: int| 0 <= i < lines.len() ==> #[trigger] lines[i].category is Some
}

proof fn lemma_total_fits(i: int, total: int, cost: int)
    requires
        0 <= i < 0x1_0000_0000_0000_0000,
        0 <= total <= i * (i64::MAX as int),
        0 <= cost <= i64::MAX,
    ensures
        total + cost <= (i + 1) * (i64::MAX as int),
        (i + 1) * (i64::MAX as int) <= i128::MAX,
{
    assert((i + 1) * (i64::MAX as int) <= 0x1_0000_0000_0000_0000 * (i64::MAX as int))
        by (nonlinear_arith)
        requires
            i + 1 <= 0x1_0000_0000_0000_0000,
    ;
}

/// Builds a claim owned by `owner` from its lines, each paired with the
/// category found for it. Nothing is built unless every cost is positive and
/// every category exists; the totals are the sums over the lines, and each
/// line's reimbursement is `estimate` of its category and cost.
pub fn create_claim(owner: i32, lines: &Vec<ClaimLine>) -> (r: Result<ClaimDraft, ErrorKind>)
    ensures
        !lines_valid(lines@) ==> r matches Err(ErrorKind::ValidationFailed),
        lines_valid(lines@) && !lines_resolved(lines@) ==> r matches Err(ErrorKind::NotFound),
        lines_valid(lines@) && lines_resolved(lines@) ==> (r matches Ok(d) && d.user_id == owner
            && d.status == ClaimStatus::Pending && d.total_cost == sum_costs(lines@)
            && d.reimbursement == sum_reimbursements(lines@) && d.items@.len() == lines@.len()
            && forall|j: int|
            0 <= j < lines@.len() ==> #[trigger] drafted_from(d.items@[j], lines@[j])),
{
    let n = lines.len();
    let mut i: usize = 0;
    while i < n
        invariant
            n == lines@.len(),
            i <= n,
            forall|j: int| 0 <= j < i ==> #[trigger] lines@[j].item.cost > 0,
        decreases n - i,
    {
        if lines[i].item.validate().is_err() {
            return Err(ErrorKind::ValidationFailed);
        }
        i = i + 1;
    }
    i = 0;
    while i < n
        invariant
            n == lines@.len(),
            i <= n,
            lines_valid(lines@),
            forall|j: int| 0 <= j < i ==> #[trigger] lines@[j].category is Some,
        decreases n - i,
    {
        if lines[i].category.is_none() {
            return Err(ErrorKind::NotFound);
        }
        i = i + 1;
    }
    let mut total_cost: i128 = 0;
    let mut total_reimbursement: i128 = 0;
    let mut items: Vec<ItemDraft> = Vec::new();
    i = 0;
    while i < n
        invariant
            n == lines@.len(),
            i <= n,
            lines_valid(lines@),
            lines_resolved(lines@),
            total_cost == sum_costs(lines@.subrange(0, i as int)),
            total_reimbursement == sum_reimbursements(lines@.subrange(0, i as int)),
            0 <= total_reimbursement <= total_cost <= i * (i64::MAX as int),
            items@.len() == i,
            forall|j: int| 0 <= j < i ==> #[trigger] drafted_from(items@[j], lines@[j]),
        decreases n - i,
    {
        let line = &lines[i];
        let cost = line.item.cost;
        let share = match &line.category {
            Some(c) => estimate(c, cost),
            None => {
                return Err(ErrorKind::NotFound);
            },
        };
        proof {
            let next = lines@.subrange(0, i + 1);
            assert(next.drop_last() =~= lines@.subrange(0, i as int));
            assert(next.last() == lines@[i as int]);
            lemma_total_fits(i as int, total_cost as int, cost as int);
        }
        total_cost = total_cost + cost as i128;
        total_reimbursement = total_reimbursement + share as i128;
        items.push(ItemDraft { category_id: line.item.category_id, cost, reimbursement: share });
        i = i + 1;
    }
    assert(lines@.subrange(0, n as int) =~= lines@);
    Ok(ClaimDraft {
        user_id: owner,
        total_cost,
        reimbursement: total_reimbursement,
        status: ClaimStatus::Pending,
        items,
    })
}

/// The result of a cost preview.
#[derive(Debug, Clone, Copy, PartialEq, Eq, Structural)]
pub struct EstimateResult {
    pub reimbursement: i64,
}

/// Previews the reimbursement of one line: the same computation as a claim
/// line gets.
pub fn estimate_item(item: &ItemForm, category: Option<&Category>) -> (r: Result<
    EstimateResult,
    ErrorKind,
>)
    ensures
        item.cost <= 0 ==> r matches Err(ErrorKind::ValidationFailed),
        item.cost > 0 && category is None ==> r matches Err(ErrorKind::NotFound),
        item.cost > 0 ==> match category {
            Some(c) => r matches Ok(e) && e.reimbursement == reimbursement(
                c.spec_percentage(),
                c.spec_max_reimbursement(),
                item.cost as int,
            ),
            None => true,
        },
{
    item.validate()?;
    match category {
        None => Err(ErrorKind::NotFound),
        Some(c) => Ok(EstimateResult { reimbursement: estimate(c, item.cost) }),
    }
}

/// The status of a claim that may be missing.
pub open spec fn status_of(claim: Option<Claim>) -> Option<ClaimStatus> {
    match claim {
        Some(c) => Some(c.status),
        None => None,
    }
}

/// The outcome of an approval: the new status, or why there is none.
pub open spec fn approval_outcome(actor: Role, current: Option<ClaimStatus>, accept: bool) -> Result<
    ClaimStatus,
    ErrorKind,
> {
    if !role_meets(actor, Role::Manager) {
        Err(ErrorKind::Forbidden)
    } else {
        match current {
            None => Err(ErrorKind::NotFound),
            Some(s) => if s != ClaimStatus::Pending {
                Err(ErrorKind::AlreadyProcessed)
            } else if accept {
                Ok(ClaimStatus::Accepted)
            } else {
                Ok(ClaimStatus::Rejected)
            },
        }
    }
}

/// The claim as stored after an approval attempt: only the status changes,
/// and only when the attempt succeeds.
pub open spec fn claim_after(actor: Role, claim: Claim, accept: bool) -> Claim {
    match approval_outcome(actor, Some(claim.status), accept) {
        Ok(s) => Claim { status: s, ..claim },
        Err(_) => claim,
    }
}

/// Decides an approval of a claim loaded in the same unit of work that will
/// store the result: only a Manager or above may, the claim must exist and be
/// Pending. The totals are left as they are.
pub fn approve_claim(actor: Role, claim: Option<Claim>, accept: bool) -> (r: Result<Claim, ErrorKind>)
    ensures
        match approval_outcome(actor, status_of(claim), accept) {
            Ok(s) => r == Ok::<Claim, ErrorKind>(Claim { status: s, ..claim.unwrap() }),
            Err(e) => r == Err::<Claim, ErrorKind>(e),
        },
{
    if !actor.meets(Role::Manager) {
        return Err(ErrorKind::Forbidden);
    }
    match claim {
        None => Err(ErrorKind::NotFound),
        Some(c) => {
            if c.status != ClaimStatus::Pending {
                return Err(ErrorKind::AlreadyProcessed);
            }
            let status = if accept {
                ClaimStatus::Accepted
            } else {
                ClaimStatus::Rejected
            };
            Ok(Claim { status, ..c })
        },
    }
}

/// Once a claim is Accepted or Rejected, a further approval by a Manager or
/// above fails with AlreadyProcessed and leaves the claim unchanged.
pub proof fn lemma_terminal_is_final(actor: Role, claim: Claim, accept: bool)
    requires
        claim.status != ClaimStatus::Pending,
        role_meets(actor, Role::Manager),
    ensures
        approval_outcome(actor, Some(claim.status), accept) == Err::<ClaimStatus, ErrorKind>(
            ErrorKind::AlreadyProcessed,
        ),
        claim_after(actor, claim, accept) == claim,
{
}

/// Two approvals of one Pending claim, each run in its own unit of work, one
/// after the other: the first succeeds and the second fails with
/// AlreadyProcessed, whatever each asks for.
pub proof fn lemma_approved_once(
    first: Role,
    second: Role,
    claim: Claim,
    accept_first: bool,
    accept_second: bool,
)
    requires
        claim.status == ClaimStatus::Pending,
        role_meets(first, Role::Manager),
        role_meets(second, Role::Manager),
    ensures
        approval_outcome(first, Some(claim.status), accept_first) is Ok,
        approval_outcome(
            second,
            Some(claim_after(first, claim, accept_first).status),
            accept_second,
        ) == Err::<ClaimStatus, ErrorKind>(ErrorKind::AlreadyProcessed),
        claim_after(second, claim_after(first, claim, accept_first), accept_second)
            == claim_after(first, claim, accept_first),
{
}

/// The reimbursement of a claim line is what `estimate` gives for its
/// category and cost, and lies between zero and the cost.
pub proof fn lemma_line_matches_estimate(line: ClaimLine, category: Category)
    requires
        line.category == Some(category),
        line.item.cost >= 0,
    ensures
        line_reimbursement(line) == reimbursement(
            category.spec_percentage(),
            category.spec_max_reimbursement(),
            line.item.cost as int,
        ),
        0 <= line_reimbursement(line) <= line.item.cost,
{
    Category::lemma_rule_valid(category);
    let p = category.spec_percentage();
    let c = line.item.cost as int;
    assert(0 <= p * c <= 100 * c) by (nonlinear_arith)
        requires
            0 <= p <= 100,
            c >= 0,
    ;
}

} // verus!
