use vstd::prelude::*;
use crate::task::{is_upper_hex_digit, TaskId};

verus! {

/// Relies on `uuid::Uuid::new_v4` for 128 random bits and on
/// `uuid::fmt::Simple::encode_upper` for their textual form: the simple
/// encoding is exactly thirty-two hexadecimal digits, uppercase in the
/// upper variant (`Uuid::encode_buffer` is large enough, so the call
/// cannot panic). The value drawn is random, so nothing relates the
/// results of two calls.
#[verifier::external_body]
fn fresh_id_text() -> (r: String)
    ensures
        r@.len() == 32,
        forall|i: int| 0 <= i < r@.len() ==> is_upper_hex_digit(#[trigger] r@[i]),
{
    uuid::Uuid::new_v4().simple().encode_upper(&mut uuid::Uuid::encode_buffer()).to_owned()
}

impl TaskId {
    /// A fresh identifier drawn from 128 bits of entropy. Uniqueness across
    /// calls is probabilistic, not recorded in a registry, so nothing here
    /// claims that two calls differ.
    pub fn new() -> (r: TaskId)
        ensures
            r.wf(),
    {
        TaskId { uuid: fresh_id_text() }
    }
}

} // verus!
