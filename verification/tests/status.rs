use leanvm_xmss::{pq_error_description, PQSigningError};

#[test]
fn codes_are_those_of_the_c_interface() {
    assert_eq!(PQSigningError::Success.code(), 0);
    assert_eq!(PQSigningError::EncodingAttemptsExceeded.code(), 1);
    assert_eq!(PQSigningError::InvalidPointer.code(), 2);
    assert_eq!(PQSigningError::InvalidMessageLength.code(), 3);
    assert_eq!(PQSigningError::InvalidEpoch.code(), 4);
    assert_eq!(PQSigningError::UnknownError.code(), 99);
}

#[test]
fn every_code_has_a_description() {
    assert_eq!(pq_error_description(PQSigningError::Success), "Success");
    assert_eq!(
        pq_error_description(PQSigningError::EncodingAttemptsExceeded),
        "Encoding attempts exceeded"
    );
    assert_eq!(
        pq_error_description(PQSigningError::InvalidPointer),
        "Invalid pointer"
    );
    assert_eq!(
        pq_error_description(PQSigningError::InvalidMessageLength),
        "Invalid message length"
    );
    assert_eq!(
        pq_error_description(PQSigningError::InvalidEpoch),
        "Invalid epoch"
    );
    assert_eq!(
        pq_error_description(PQSigningError::UnknownError),
        "Unknown error"
    );
}
