use bcrypt_bridge::bridge::{compare_async, compare_sync, hash_async, hash_sync};
use bcrypt_bridge::cost::CostArg;
use bcrypt_bridge::errors::HashError;

#[test]
fn hash_then_verify_is_true() {
    for cost in [4, 5] {
        let h = hash_sync("correct horse battery staple", CostArg::Numeric(cost)).unwrap();
        assert_eq!(
            compare_sync("correct horse battery staple", &h),
            Ok(true),
            "cost {cost}"
        );
    }
}

#[test]
fn absent_cost_hashes_at_the_default() {
    let h = hash_sync("abc", CostArg::Absent).unwrap();
    // The produced hash embeds its cost; the default is ten.
    assert_eq!(&h[..7], "$2b$10$");
    assert_eq!(compare_sync("abc", &h), Ok(true));
}

#[test]
fn two_hashes_of_one_password_differ_yet_both_verify() {
    let h1 = hash_sync("abc", CostArg::Numeric(4)).unwrap();
    let h2 = hash_sync("abc", CostArg::Numeric(4)).unwrap();
    assert_ne!(h1, h2);
    assert_eq!(compare_sync("abc", &h1), Ok(true));
    assert_eq!(compare_sync("abc", &h2), Ok(true));
}

#[test]
fn wrong_password_is_a_false_result_not_an_error() {
    let h = hash_sync("abc", CostArg::Numeric(4)).unwrap();
    assert_eq!(compare_sync("abd", &h), Ok(false));
    assert_eq!(compare_sync("", &h), Ok(false));
}

#[test]
fn malformed_hash_is_an_error_not_false() {
    assert_eq!(
        compare_sync("abc", "not-a-valid-hash"),
        Err(HashError::MalformedHash)
    );
    assert_eq!(compare_sync("abc", ""), Err(HashError::MalformedHash));
    // A truncated but otherwise genuine hash is malformed too.
    let h = hash_sync("abc", CostArg::Numeric(4)).unwrap();
    assert_eq!(
        compare_sync("abc", &h[..h.len() - 1]),
        Err(HashError::MalformedHash)
    );
}

#[test]
fn out_of_range_cost_is_rejected_before_hashing() {
    for n in [3, 33, 0, -7, 100] {
        assert_eq!(
            hash_sync("abc", CostArg::Numeric(n)),
            Err(HashError::CostOutOfRange),
            "cost {n}"
        );
    }
}

#[test]
fn non_numeric_cost_is_rejected_before_hashing() {
    assert_eq!(
        hash_sync("abc", CostArg::NonNumeric),
        Err(HashError::ArgumentTypeError)
    );
}

#[test]
fn produced_hash_is_sixty_characters_and_not_the_password() {
    let h = hash_sync("abc", CostArg::Numeric(4)).unwrap();
    assert_eq!(h.len(), 60);
    assert_ne!(h, "abc");
}

#[test]
fn library_hash_verifies_under_the_engine_directly() {
    // The produced hash is a genuine bcrypt hash, not private framing.
    let h = hash_sync("abc", CostArg::Numeric(4)).unwrap();
    assert_eq!(bcrypt::verify("abc", &h).unwrap(), true);
    // And a hash the engine produced on its own verifies through the library.
    let raw = bcrypt::hash("abc", 4).unwrap();
    assert_eq!(compare_sync("abc", &raw), Ok(true));
}

#[test]
fn engine_cap_surfaces_as_engine_failure() {
    // A cost of thirty-two passes validation but exceeds the engine's own
    // cap of thirty-one, so the failure comes from the engine, not the
    // validator.
    assert_eq!(
        hash_sync("abc", CostArg::Numeric(32)),
        Err(HashError::EngineFailure)
    );
}

#[test]
fn async_hash_agrees_with_sync() {
    let pending = hash_async("abc", CostArg::Numeric(4)).unwrap();
    let h = pending.settle().unwrap();
    assert_eq!(compare_sync("abc", &h), Ok(true));
    assert_eq!(compare_sync("abd", &h), Ok(false));
}

#[test]
fn async_hash_rejects_eagerly_like_sync() {
    let sync_err = hash_sync("abc", CostArg::Numeric(100)).unwrap_err();
    let async_err = hash_async("abc", CostArg::Numeric(100)).unwrap_err();
    assert_eq!(sync_err, async_err);
    assert_eq!(sync_err, HashError::CostOutOfRange);
    assert_eq!(
        hash_async("abc", CostArg::NonNumeric).unwrap_err(),
        hash_sync("abc", CostArg::NonNumeric).unwrap_err()
    );
}

#[test]
fn async_compare_agrees_with_sync() {
    let h = hash_sync("abc", CostArg::Numeric(4)).unwrap();
    assert_eq!(compare_async("abc", &h).settle(), compare_sync("abc", &h));
    assert_eq!(compare_async("abd", &h).settle(), Ok(false));
    assert_eq!(
        compare_async("abc", "not-a-valid-hash").settle(),
        Err(HashError::MalformedHash)
    );
}

#[test]
fn concrete_scenario() {
    let h = hash_sync("abc", CostArg::Numeric(4)).unwrap();
    assert_eq!(compare_sync("abc", &h), Ok(true));
    assert_eq!(compare_sync("abd", &h), Ok(false));
    let e = hash_sync("abc", CostArg::Numeric(0)).unwrap_err();
    assert_eq!(e, HashError::CostOutOfRange);
    assert!(e.message().contains("[4,32]"));
}
