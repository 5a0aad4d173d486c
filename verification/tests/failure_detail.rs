use std::cell::Cell;

use leanvm_xmss::{
    aggregation_error, clear_last_error, pq_take_last_error_message,
    pq_xmss_aggregation_setup_prover, pq_xmss_aggregation_setup_prover_without_arena,
    pq_xmss_aggregation_setup_verifier, set_last_error, LastError, PQSigningError,
};

fn taken(last_error: &mut LastError) -> Option<String> {
    pq_take_last_error_message(last_error).map(|bytes| String::from_utf8(bytes).unwrap())
}

#[test]
fn a_detail_is_taken_once() {
    let mut last_error = LastError::new();
    assert_eq!(pq_take_last_error_message(&mut last_error), None);
    set_last_error(&mut last_error, "first".to_string());
    set_last_error(&mut last_error, "second".to_string());
    assert_eq!(taken(&mut last_error), Some("second".to_string()));
    assert_eq!(pq_take_last_error_message(&mut last_error), None);
}

#[test]
fn a_detail_can_be_forgotten() {
    let mut last_error = LastError::new();
    set_last_error(&mut last_error, "gone".to_string());
    clear_last_error(&mut last_error);
    assert_eq!(pq_take_last_error_message(&mut last_error), None);
}

#[test]
fn a_refusal_is_described() {
    let mut last_error = LastError::new();
    assert_eq!(
        aggregation_error(&mut last_error, "merge_many_type_1", "too many"),
        PQSigningError::UnknownError
    );
    assert_eq!(
        taken(&mut last_error),
        Some("leanvm-xmss: merge_many_type_1 failed: too many".to_string())
    );
}

#[test]
fn a_c_string_is_not_cut_short() {
    let mut last_error = LastError::new();
    set_last_error(&mut last_error, "a\0b\0\u{e9}".to_string());
    assert_eq!(
        pq_take_last_error_message(&mut last_error),
        Some("a b \u{e9}".as_bytes().to_vec())
    );
}

#[test]
fn prover_setup_reports_a_panic() {
    let mut last_error = LastError::new();
    set_last_error(&mut last_error, "old".to_string());
    pq_xmss_aggregation_setup_prover(&mut last_error, || Err(()));
    assert_eq!(
        taken(&mut last_error),
        Some("leanvm-xmss: prover setup failed".to_string())
    );
    pq_xmss_aggregation_setup_prover_without_arena(&mut last_error, || Err(()));
    assert_eq!(
        taken(&mut last_error),
        Some("leanvm-xmss: prover setup failed".to_string())
    );
}

#[test]
fn prover_setup_forgets_an_old_detail() {
    let mut last_error = LastError::new();
    set_last_error(&mut last_error, "old".to_string());
    pq_xmss_aggregation_setup_prover(&mut last_error, || Ok(()));
    assert_eq!(taken(&mut last_error), None);
    set_last_error(&mut last_error, "old".to_string());
    pq_xmss_aggregation_setup_prover_without_arena(&mut last_error, || Ok(()));
    assert_eq!(taken(&mut last_error), None);
}

#[test]
fn verifier_setup_runs() {
    let runs = Cell::new(0);
    pq_xmss_aggregation_setup_verifier(|| {
        runs.set(runs.get() + 1);
        Err(())
    });
    assert_eq!(runs.get(), 1);
}
