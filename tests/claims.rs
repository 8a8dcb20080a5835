use recalc::category::{
    create_category, estimate, update_category, validate_cost, validate_max_reimburstment,
    validate_percentage, Category, CategoryForm, UpdateCategory,
};
use recalc::claim::{
    approve_claim, create_claim, estimate_item, validate_items, Claim, ClaimForm, ClaimLine,
    ClaimStatus, ItemForm,
};
use recalc::error::ErrorKind;
use recalc::role::Role;

fn category(id: i32, pct: i64, max: i64) -> Category {
    Category::new(id, format!("category {}", id), pct, max).unwrap()
}

fn line(category_id: i32, cost: i64, cat: Option<Category>) -> ClaimLine {
    ClaimLine { item: ItemForm { category_id, cost }, category: cat }
}

fn pending_claim() -> Claim {
    Claim {
        id: 7,
        user_id: 3,
        total_cost: Some(150),
        reimbursement: Some(25),
        status: ClaimStatus::Pending,
    }
}

#[test]
fn estimate_capped_and_uncapped() {
    assert_eq!(estimate(&category(1, 50, 20), 100), 20);
    assert_eq!(estimate(&category(2, 10, 100), 50), 5);
}

#[test]
fn estimate_rounds_down_and_handles_edges() {
    assert_eq!(estimate(&category(1, 33, 1000), 10), 3);
    assert_eq!(estimate(&category(1, 0, 1000), 10), 0);
    assert_eq!(estimate(&category(1, 100, 1000), 10), 10);
    assert_eq!(estimate(&category(1, 100, 0), 10), 0);
    assert_eq!(estimate(&category(1, 100, i64::MAX), i64::MAX), i64::MAX);
    assert_eq!(estimate(&category(1, 50, 20), 0), 0);
}

#[test]
fn category_rule_validation() {
    assert_eq!(Category::new(1, "x".to_string(), 101, 5).unwrap_err(), ErrorKind::ValidationFailed);
    assert_eq!(Category::new(1, "x".to_string(), -1, 5).unwrap_err(), ErrorKind::ValidationFailed);
    assert_eq!(Category::new(1, "x".to_string(), 5, -1).unwrap_err(), ErrorKind::ValidationFailed);
    let c = Category::new(4, "Meals".to_string(), 100, 0).unwrap();
    assert_eq!((c.id(), c.name(), c.percentage(), c.max_reimbursement()), (4, "Meals", 100, 0));
    assert_eq!(validate_percentage(100), Ok(()));
    assert_eq!(validate_percentage(101), Err(ErrorKind::ValidationFailed));
    assert_eq!(validate_max_reimburstment(0), Ok(()));
    assert_eq!(validate_max_reimburstment(-3), Err(ErrorKind::ValidationFailed));
    assert_eq!(validate_cost(0), Err(ErrorKind::ValidationFailed));
    assert_eq!(validate_cost(1), Ok(()));
}

#[test]
fn estimate_item_matches_claim_line() {
    let c = category(1, 50, 20);
    let preview = estimate_item(&ItemForm { category_id: 1, cost: 30 }, Some(&c)).unwrap();
    let draft = create_claim(9, &vec![line(1, 30, Some(c.clone()))]).unwrap();
    assert_eq!(preview.reimbursement, 15);
    assert_eq!(draft.items[0].reimbursement, preview.reimbursement);
}

#[test]
fn estimate_item_errors() {
    let c = category(1, 50, 20);
    assert_eq!(
        estimate_item(&ItemForm { category_id: 1, cost: 0 }, Some(&c)),
        Err(ErrorKind::ValidationFailed)
    );
    assert_eq!(estimate_item(&ItemForm { category_id: 1, cost: 5 }, None), Err(ErrorKind::NotFound));
}

#[test]
fn create_claim_sums_items() {
    let travel = category(1, 50, 20);
    let meals = category(2, 10, 100);
    let lines = vec![
        line(1, 100, Some(travel.clone())),
        line(2, 50, Some(meals.clone())),
        line(1, 10, Some(travel)),
    ];
    let draft = create_claim(3, &lines).unwrap();
    assert_eq!(draft.user_id, 3);
    assert_eq!(draft.status, ClaimStatus::Pending);
    assert_eq!(draft.total_cost, 160);
    assert_eq!(draft.reimbursement, 20 + 5 + 5);
    assert_eq!(draft.items.len(), 3);
    assert_eq!((draft.items[1].category_id, draft.items[1].cost, draft.items[1].reimbursement), (2, 50, 5));
}

#[test]
fn create_claim_empty() {
    let draft = create_claim(3, &vec![]).unwrap();
    assert_eq!((draft.total_cost, draft.reimbursement, draft.items.len()), (0, 0, 0));
}

#[test]
fn create_claim_rejects_whole_request() {
    let c = category(1, 50, 20);
    let bad_cost = vec![line(1, 10, Some(c.clone())), line(1, -5, Some(c.clone()))];
    assert_eq!(create_claim(3, &bad_cost).unwrap_err(), ErrorKind::ValidationFailed);
    let missing = vec![line(1, 10, Some(c.clone())), line(2, 5, None)];
    assert_eq!(create_claim(3, &missing).unwrap_err(), ErrorKind::NotFound);
    // Validation comes before category resolution.
    let both = vec![line(2, 5, None), line(1, 0, Some(c.clone()))];
    assert_eq!(create_claim(3, &both).unwrap_err(), ErrorKind::ValidationFailed);
}

#[test]
fn create_claim_totals_beyond_i64() {
    let c = category(1, 100, i64::MAX);
    let lines = vec![line(1, i64::MAX, Some(c.clone())), line(1, 1, Some(c))];
    let draft = create_claim(3, &lines).unwrap();
    assert_eq!(draft.total_cost, i64::MAX as i128 + 1);
    assert_eq!(draft.reimbursement, i64::MAX as i128 + 1);
}

#[test]
fn claim_form_validation() {
    let form = ClaimForm {
        user_id: 1,
        auth_token: "t".to_string(),
        items: vec![ItemForm { category_id: 1, cost: 3 }, ItemForm { category_id: 2, cost: 0 }],
    };
    assert_eq!(form.validate(), Err(ErrorKind::ValidationFailed));
    assert_eq!(validate_items(&vec![ItemForm { category_id: 1, cost: 3 }]), Ok(()));
    assert_eq!(validate_items(&vec![]), Ok(()));
}

#[test]
fn approve_sets_status_only() {
    let accepted = approve_claim(Role::Manager, Some(pending_claim()), true).unwrap();
    assert_eq!(accepted, Claim { status: ClaimStatus::Accepted, ..pending_claim() });
    let rejected = approve_claim(Role::Admin, Some(pending_claim()), false).unwrap();
    assert_eq!(rejected.status, ClaimStatus::Rejected);
    assert_eq!(rejected.total_cost, Some(150));
}

#[test]
fn approve_errors() {
    assert_eq!(approve_claim(Role::User, Some(pending_claim()), true), Err(ErrorKind::Forbidden));
    assert_eq!(approve_claim(Role::Manager, None, true), Err(ErrorKind::NotFound));
}

#[test]
fn terminal_claim_is_final() {
    for status in [ClaimStatus::Accepted, ClaimStatus::Rejected] {
        let done = Claim { status, ..pending_claim() };
        for accept in [true, false] {
            assert_eq!(approve_claim(Role::Manager, Some(done), accept), Err(ErrorKind::AlreadyProcessed));
        }
    }
}

#[test]
fn two_approvals_one_success() {
    let first = approve_claim(Role::Manager, Some(pending_claim()), true);
    let stored = first.unwrap();
    let second = approve_claim(Role::Admin, Some(stored), false);
    assert_eq!(second, Err(ErrorKind::AlreadyProcessed));
    assert_eq!(stored.status, ClaimStatus::Accepted);
}

#[test]
fn claim_status_names() {
    assert_eq!(ClaimStatus::from_name("Accepted"), Some(ClaimStatus::Accepted));
    assert_eq!(ClaimStatus::from_name("Pending"), Some(ClaimStatus::Pending));
    assert_eq!(ClaimStatus::from_name("pending"), None);
    assert_eq!(ClaimStatus::Rejected.to_string(), "Rejected");
}

#[test]
fn category_admin_operations() {
    let form = CategoryForm { name: "Taxi".to_string(), percentage: 80, max_reimbursement: 50 };
    assert_eq!(create_category(Role::Manager, &form), Err(ErrorKind::Forbidden));
    assert_eq!(create_category(Role::Admin, &form), Ok(()));
    let empty = CategoryForm { name: String::new(), ..form.clone() };
    assert_eq!(create_category(Role::Admin, &empty), Err(ErrorKind::ValidationFailed));

    let keep_max = UpdateCategory { percentage: Some(30), max_reimbursement: None };
    let updated = update_category(Role::Admin, Some(category(5, 50, 20)), keep_max).unwrap();
    assert_eq!((updated.id(), updated.percentage(), updated.max_reimbursement()), (5, 30, 20));
    assert_eq!(
        update_category(Role::Manager, Some(category(5, 50, 20)), keep_max).unwrap_err(),
        ErrorKind::Forbidden
    );
    assert_eq!(update_category(Role::Admin, None, keep_max).unwrap_err(), ErrorKind::NotFound);
    let bad = UpdateCategory { percentage: None, max_reimbursement: Some(-1) };
    assert_eq!(
        update_category(Role::Admin, Some(category(5, 50, 20)), bad).unwrap_err(),
        ErrorKind::ValidationFailed
    );
}
