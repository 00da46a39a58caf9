//! An in-memory store of advice records and the request decisions of a small
//! HTTP service that lists, creates and deletes them.
mod advice;
mod ident;
mod laws;
mod payload;
mod service;
mod store;

pub use advice::Advice;
pub use ident::{all_digits, decimal_i64, digit_value, digits_value, has_sign, is_ascii_digit};
pub use store::{apply_op, apply_ops, lists_exactly, Store, StoreOp};
pub use laws::{
    distinct_ids, inserted_and_kept, inserts_of, lemma_delete_after_create,
    lemma_distinct_inserts_kept, lemma_inserted_is_listed, lemma_list_after_ops,
    lemma_remove_absent,
};
pub use payload::{advice_from_payload, record_at, record_key};
pub use service::{
    advices_create, advices_delete, advices_index, create_status, delete_outcome, delete_status, delete_status_of,
    failure_for, status_of, ServiceError, STATUS_BAD_GATEWAY, STATUS_BAD_REQUEST, STATUS_CREATED,
    STATUS_INTERNAL_SERVER_ERROR, STATUS_NOT_FOUND, STATUS_NO_CONTENT, STATUS_OK,
    STATUS_REQUEST_TIMEOUT,
};
