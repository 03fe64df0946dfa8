use bcrypt_bridge::cost::{validate_cost, CostArg};
use bcrypt_bridge::errors::HashError;
use bcrypt_bridge::{DEFAULT_COST, MAX_COST, MIN_COST};

#[test]
fn exported_constants() {
    assert_eq!(MIN_COST, 4);
    assert_eq!(MAX_COST, 32);
    assert_eq!(DEFAULT_COST, 10);
}

#[test]
fn absent_cost_resolves_to_default() {
    assert_eq!(validate_cost(CostArg::Absent), Ok(10));
}

#[test]
fn non_numeric_cost_is_a_type_error() {
    assert_eq!(
        validate_cost(CostArg::NonNumeric),
        Err(HashError::ArgumentTypeError)
    );
}

#[test]
fn boundary_costs_are_accepted() {
    assert_eq!(validate_cost(CostArg::Numeric(4)), Ok(4));
    assert_eq!(validate_cost(CostArg::Numeric(32)), Ok(32));
    assert_eq!(validate_cost(CostArg::Numeric(10)), Ok(10));
}

#[test]
fn out_of_range_costs_are_rejected() {
    for n in [3, 33, 0, -1, 1_000_000, i64::MIN, i64::MAX] {
        assert_eq!(
            validate_cost(CostArg::Numeric(n)),
            Err(HashError::CostOutOfRange),
            "cost {n} should be out of range"
        );
    }
}

#[test]
fn out_of_range_message_names_the_interval() {
    let e = validate_cost(CostArg::Numeric(0)).unwrap_err();
    assert_eq!(e, HashError::CostOutOfRange);
    assert!(e.message().contains("[4,32]"));
}
