use agent_tools_core::ExitCode;

#[test]
fn table_matches_latch_docs() {
    assert_eq!(ExitCode::Success.code(), 0);
    assert_eq!(ExitCode::Validation.code(), 1);
    assert_eq!(ExitCode::ClaimConflict.code(), 2);
    assert_eq!(ExitCode::NotFound.code(), 3);
    assert_eq!(ExitCode::Storage.code(), 4);
    assert_eq!(ExitCode::GateAct.code(), 10);
    assert_eq!(ExitCode::GateReview.code(), 20);
    assert_eq!(ExitCode::GateStop.code(), 30);
    let as_i32: i32 = ExitCode::NotFound.into();
    assert_eq!(as_i32, 3);
}

#[test]
fn into_i32_agrees_with_code_for_every_variant() {
    let all = [
        ExitCode::Success,
        ExitCode::Validation,
        ExitCode::ClaimConflict,
        ExitCode::NotFound,
        ExitCode::Storage,
        ExitCode::GateAct,
        ExitCode::GateReview,
        ExitCode::GateStop,
    ];
    for c in all {
        let n: i32 = c.into();
        assert_eq!(n, c.code());
    }
}

#[test]
fn codes_are_distinct() {
    let all = [
        ExitCode::Success,
        ExitCode::Validation,
        ExitCode::ClaimConflict,
        ExitCode::NotFound,
        ExitCode::Storage,
        ExitCode::GateAct,
        ExitCode::GateReview,
        ExitCode::GateStop,
    ];
    for (i, a) in all.iter().enumerate() {
        for (j, b) in all.iter().enumerate() {
            assert_eq!(a.code() == b.code(), i == j);
        }
    }
}
