//! What the routes answer with, before it goes on the wire.

use crate::common::code_spec;
use crate::common::success_message_spec;
use crate::common::ApiResult;
use crate::decimal::decimal_spec;
use crate::id_service::IdService;
use crate::layout::parse_spec;
use vstd::prelude::*;

verus! {

/// The parts of an id.
#[derive(Clone, Copy, Debug, PartialEq, Eq, Structural)]
pub struct IdStruct {
    /// Milliseconds since the Unix epoch.
    pub timestamp: u64,
    /// The machine that issued the id.
    pub worker_id: u64,
    /// The id's number within its millisecond.
    pub sequence: u64,
}

/// The parts of the id `value`.
pub open spec fn id_struct_spec(value: u64) -> IdStruct {
    IdStruct {
        timestamp: parse_spec(value).0,
        worker_id: parse_spec(value).1,
        sequence: parse_spec(value).2,
    }
}

/// The answer to a request for the parts of an id written in decimal.
pub fn id_parse(id_service: &IdService, id: &String) -> (result: ApiResult<IdStruct>)
    requires
        decimal_spec(id@) is Some,
    ensures
        result.code@ == code_spec(),
        result.message@ == success_message_spec(),
        decimal_spec(id@) matches Some(value) && result.data == Some(id_struct_spec(value)),
{
    let (timestamp, worker_id, sequence) = id_service.parse(id);
    ApiResult::success(IdStruct { timestamp, worker_id, sequence })
}

} // verus!
