//! XMSS signatures and their aggregation behind a C-style interface.
//!
//! The signature scheme and the proof system are not part of this library: every function
//! that needs one of their operations takes it as an argument, and its contract says what
//! is handed to the operation and what the caller gets for each answer.
//!
//! A nullable pointer is an `Option`: `None` is the null pointer, `Some(memory)` is a
//! pointer to `memory`. A length or a count that comes with a pointer is an argument of
//! its own, as it is in C; the memory behind the pointer holds at least that much.
pub mod codec;
pub mod collect;
pub mod error;
pub mod handles;
pub mod input;
pub mod keys;
pub mod last_error;
pub mod laws;
pub mod memory;
pub mod outcomes;
pub mod proving;
pub mod verifying;
pub mod wipe;

pub use codec::{
    pq_public_key_deserialize, pq_public_key_from_json, pq_public_key_serialize,
    pq_secret_key_deserialize, pq_secret_key_from_json, pq_secret_key_serialize,
    pq_signature_deserialize, pq_signature_from_json, pq_signature_serialize,
};
pub use error::{pq_error_description, PQSigningError};
pub use handles::{
    AggregateInfo, MultiMessageAggregate, PQAggregatedSignatureChild, PQRange, PQRawXmssSignature,
    PQSignature, PQSignatureSchemePublicKey, PQSignatureSchemeSecretKey, PQTypeTwoComponent,
    PQTypeTwoMessageBinding, SingleMessageAggregate, XmssSecretKey,
};
pub use input::{
    epoch_to_u32, message_from_ptr, normalize_signature_bytes, MESSAGE_LENGTH, PUBLIC_KEY_SIZE,
    SIGNATURE_SIZE,
};
pub use keys::{
    pq_advance_preparation, pq_get_activation_interval, pq_get_lifetime, pq_get_prepared_interval,
    pq_get_public_key_size, pq_get_signature_size, pq_key_gen, pq_sign, KeyGenAnswer, SignAnswer,
    XmssSignatureError,
};
pub use last_error::{
    aggregation_error, clear_last_error, pq_take_last_error_message,
    pq_xmss_aggregation_setup_prover, pq_xmss_aggregation_setup_prover_without_arena,
    pq_xmss_aggregation_setup_verifier, set_last_error, LastError,
};
pub use proving::{
    pq_aggregate_signatures, pq_aggregate_signatures_recursive,
    pq_aggregate_signatures_recursive_unverified, pq_aggregate_signatures_unverified,
    pq_merge_many_type_1, pq_split_type_2_by_message, ProvingAnswer,
};
pub use verifying::{
    pq_verify, pq_verify_aggregated_signatures, pq_verify_ssz, pq_verify_type_2_with_messages,
};
pub use wipe::{pq_secret_key_free, Reallocation, WipeDeallocationGuard, WipingAllocator};
