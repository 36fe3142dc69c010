//! Responses from the network, the completion events they resolve to,
//! and the adapters that turn an event into the result a caller awaits.
//!
//! `spec_event_of` is the classification table of the event loop: it
//! says, for every response, which event completes the matching
//! request.  The adapters extract the payload a given verb expects and
//! answer `ReceivedUnexpectedEvent` on a mismatch.

use vstd::prelude::*;

use crate::data::{Data, DataV};
use crate::errors::{
    parse_get_err, parse_mutation_err, spec_parse_get_error, spec_parse_mutation_error,
    CoreError, CoreErrorV,
};
use crate::types::{DataIdV, DataIdentifier, MessageId};

verus! {

/// The completion value a response resolves to.
#[derive(PartialEq, Eq, Debug)]
pub enum CoreEvent {
    Get(Result<Data, CoreError>),
    Mutation(Result<(), CoreError>),
    AccountInfo(Result<(u64, u64), CoreError>),
}

/// Mathematical model of a `CoreEvent`.
pub enum CoreEventV {
    Get(Result<DataV, CoreErrorV>),
    Mutation(Result<(), CoreErrorV>),
    AccountInfo(Result<(u64, u64), CoreErrorV>),
}

impl View for CoreEvent {
    type V = CoreEventV;

    open spec fn view(&self) -> CoreEventV {
        match self {
            CoreEvent::Get(res) => CoreEventV::Get(
                match res {
                    Ok(d) => Ok(d@),
                    Err(e) => Err(e@),
                },
            ),
            CoreEvent::Mutation(res) => CoreEventV::Mutation(
                match res {
                    Ok(u) => Ok(*u),
                    Err(e) => Err(e@),
                },
            ),
            CoreEvent::AccountInfo(res) => CoreEventV::AccountInfo(
                match res {
                    Ok(p) => Ok(*p),
                    Err(e) => Err(e@),
                },
            ),
        }
    }
}

/// A response delivered by the network, tagged with the message id of
/// the request it answers.  Failures carry the opaque error indicator.
#[derive(PartialEq, Eq, Debug)]
pub enum Response {
    GetSuccess(Data, MessageId),
    GetFailure { id: MessageId, data_id: DataIdentifier, external_error_indicator: Vec<u8> },
    PutSuccess(DataIdentifier, MessageId),
    PutFailure { id: MessageId, data_id: DataIdentifier, external_error_indicator: Vec<u8> },
    PostSuccess(DataIdentifier, MessageId),
    PostFailure { id: MessageId, data_id: DataIdentifier, external_error_indicator: Vec<u8> },
    DeleteSuccess(DataIdentifier, MessageId),
    DeleteFailure { id: MessageId, data_id: DataIdentifier, external_error_indicator: Vec<u8> },
    AppendSuccess(DataIdentifier, MessageId),
    AppendFailure { id: MessageId, data_id: DataIdentifier, external_error_indicator: Vec<u8> },
    GetAccountInfoSuccess { id: MessageId, data_stored: u64, space_available: u64 },
    GetAccountInfoFailure { id: MessageId, external_error_indicator: Vec<u8> },
}

/// Mathematical model of a `Response`.
pub enum ResponseV {
    GetSuccess(DataV, MessageId),
    GetFailure { id: MessageId, data_id: DataIdV, external_error_indicator: Seq<u8> },
    PutSuccess(DataIdV, MessageId),
    PutFailure { id: MessageId, data_id: DataIdV, external_error_indicator: Seq<u8> },
    PostSuccess(DataIdV, MessageId),
    PostFailure { id: MessageId, data_id: DataIdV, external_error_indicator: Seq<u8> },
    DeleteSuccess(DataIdV, MessageId),
    DeleteFailure { id: MessageId, data_id: DataIdV, external_error_indicator: Seq<u8> },
    AppendSuccess(DataIdV, MessageId),
    AppendFailure { id: MessageId, data_id: DataIdV, external_error_indicator: Seq<u8> },
    GetAccountInfoSuccess { id: MessageId, data_stored: u64, space_available: u64 },
    GetAccountInfoFailure { id: MessageId, external_error_indicator: Seq<u8> },
}

impl ResponseV {
    /// The message id the response answers.
    pub open spec fn id(self) -> MessageId {
        match self {
            ResponseV::GetSuccess(_, id) => id,
            ResponseV::GetFailure { id, .. } => id,
            ResponseV::PutSuccess(_, id) => id,
            ResponseV::PutFailure { id, .. } => id,
            ResponseV::PostSuccess(_, id) => id,
            ResponseV::PostFailure { id, .. } => id,
            ResponseV::DeleteSuccess(_, id) => id,
            ResponseV::DeleteFailure { id, .. } => id,
            ResponseV::AppendSuccess(_, id) => id,
            ResponseV::AppendFailure { id, .. } => id,
            ResponseV::GetAccountInfoSuccess { id, .. } => id,
            ResponseV::GetAccountInfoFailure { id, .. } => id,
        }
    }
}

impl View for Response {
    type V = ResponseV;

    open spec fn view(&self) -> ResponseV {
        match self {
            Response::GetSuccess(d, id) => ResponseV::GetSuccess(d@, *id),
            Response::GetFailure { id, data_id, external_error_indicator } =>
                ResponseV::GetFailure {
                id: *id,
                data_id: data_id@,
                external_error_indicator: external_error_indicator@,
            },
            Response::PutSuccess(d, id) => ResponseV::PutSuccess(d@, *id),
            Response::PutFailure { id, data_id, external_error_indicator } =>
                ResponseV::PutFailure {
                id: *id,
                data_id: data_id@,
                external_error_indicator: external_error_indicator@,
            },
            Response::PostSuccess(d, id) => ResponseV::PostSuccess(d@, *id),
            Response::PostFailure { id, data_id, external_error_indicator } =>
                ResponseV::PostFailure {
                id: *id,
                data_id: data_id@,
                external_error_indicator: external_error_indicator@,
            },
            Response::DeleteSuccess(d, id) => ResponseV::DeleteSuccess(d@, *id),
            Response::DeleteFailure { id, data_id, external_error_indicator } =>
                ResponseV::DeleteFailure {
                id: *id,
                data_id: data_id@,
                external_error_indicator: external_error_indicator@,
            },
            Response::AppendSuccess(d, id) => ResponseV::AppendSuccess(d@, *id),
            Response::AppendFailure { id, data_id, external_error_indicator } =>
                ResponseV::AppendFailure {
                id: *id,
                data_id: data_id@,
                external_error_indicator: external_error_indicator@,
            },
            Response::GetAccountInfoSuccess { id, data_stored, space_available } =>
                ResponseV::GetAccountInfoSuccess {
                id: *id,
                data_stored: *data_stored,
                space_available: *space_available,
            },
            Response::GetAccountInfoFailure { id, external_error_indicator } =>
                ResponseV::GetAccountInfoFailure {
                id: *id,
                external_error_indicator: external_error_indicator@,
            },
        }
    }
}

impl Response {
    /// The message id the response answers.
    pub fn id(&self) -> (r: MessageId)
        ensures
            r == self@.id(),
    {
        match self {
            Response::GetSuccess(_, id) => *id,
            Response::GetFailure { id, .. } => *id,
            Response::PutSuccess(_, id) => *id,
            Response::PutFailure { id, .. } => *id,
            Response::PostSuccess(_, id) => *id,
            Response::PostFailure { id, .. } => *id,
            Response::DeleteSuccess(_, id) => *id,
            Response::DeleteFailure { id, .. } => *id,
            Response::AppendSuccess(_, id) => *id,
            Response::AppendFailure { id, .. } => *id,
            Response::GetAccountInfoSuccess { id, .. } => *id,
            Response::GetAccountInfoFailure { id, .. } => *id,
        }
    }
}

/// The classification table of the event loop: the completion event
/// each response resolves to.
pub open spec fn spec_event_of(resp: ResponseV) -> CoreEventV {
    match resp {
        ResponseV::GetSuccess(d, _) => CoreEventV::Get(Ok(d)),
        ResponseV::GetFailure { data_id, external_error_indicator, .. } => CoreEventV::Get(
            Err(
                CoreErrorV::GetFailure {
                    data_id,
                    reason: spec_parse_get_error(external_error_indicator),
                },
            ),
        ),
        ResponseV::PutSuccess(_, _) => CoreEventV::Mutation(Ok(())),
        ResponseV::PutFailure { data_id, external_error_indicator, .. } => CoreEventV::Mutation(
            Err(
                CoreErrorV::MutationFailure {
                    data_id,
                    reason: spec_parse_mutation_error(external_error_indicator),
                },
            ),
        ),
        ResponseV::PostSuccess(_, _) => CoreEventV::Mutation(Ok(())),
        ResponseV::PostFailure { data_id, external_error_indicator, .. } => CoreEventV::Mutation(
            Err(
                CoreErrorV::MutationFailure {
                    data_id,
                    reason: spec_parse_mutation_error(external_error_indicator),
                },
            ),
        ),
        ResponseV::DeleteSuccess(_, _) => CoreEventV::Mutation(Ok(())),
        ResponseV::DeleteFailure { data_id, external_error_indicator, .. } =>
            CoreEventV::Mutation(
            Err(
                CoreErrorV::MutationFailure {
                    data_id,
                    reason: spec_parse_mutation_error(external_error_indicator),
                },
            ),
        ),
        ResponseV::AppendSuccess(_, _) => CoreEventV::Mutation(Ok(())),
        ResponseV::AppendFailure { data_id, external_error_indicator, .. } =>
            CoreEventV::Mutation(
            Err(
                CoreErrorV::MutationFailure {
                    data_id,
                    reason: spec_parse_mutation_error(external_error_indicator),
                },
            ),
        ),
        ResponseV::GetAccountInfoSuccess { data_stored, space_available, .. } =>
            CoreEventV::AccountInfo(Ok((data_stored, space_available))),
        ResponseV::GetAccountInfoFailure { external_error_indicator, .. } =>
            CoreEventV::AccountInfo(
            Err(
                CoreErrorV::GetAccountInfoFailure {
                    reason: spec_parse_get_error(external_error_indicator),
                },
            ),
        ),
    }
}

/// Turns a response into the completion event it resolves to.
pub fn event_of_response(resp: Response) -> (r: CoreEvent)
    ensures
        r@ == spec_event_of(resp@),
{
    match resp {
        Response::GetSuccess(d, _) => CoreEvent::Get(Ok(d)),
        Response::GetFailure { data_id, external_error_indicator, .. } => CoreEvent::Get(
            Err(
                CoreError::GetFailure {
                    data_id,
                    reason: parse_get_err(&external_error_indicator),
                },
            ),
        ),
        Response::PutSuccess(_, _) => CoreEvent::Mutation(Ok(())),
        Response::PutFailure { data_id, external_error_indicator, .. } => CoreEvent::Mutation(
            Err(
                CoreError::MutationFailure {
                    data_id,
                    reason: parse_mutation_err(&external_error_indicator),
                },
            ),
        ),
        Response::PostSuccess(_, _) => CoreEvent::Mutation(Ok(())),
        Response::PostFailure { data_id, external_error_indicator, .. } => CoreEvent::Mutation(
            Err(
                CoreError::MutationFailure {
                    data_id,
                    reason: parse_mutation_err(&external_error_indicator),
                },
            ),
        ),
        Response::DeleteSuccess(_, _) => CoreEvent::Mutation(Ok(())),
        Response::DeleteFailure { data_id, external_error_indicator, .. } => CoreEvent::Mutation(
            Err(
                CoreError::MutationFailure {
                    data_id,
                    reason: parse_mutation_err(&external_error_indicator),
                },
            ),
        ),
        Response::AppendSuccess(_, _) => CoreEvent::Mutation(Ok(())),
        Response::AppendFailure { data_id, external_error_indicator, .. } => CoreEvent::Mutation(
            Err(
                CoreError::MutationFailure {
                    data_id,
                    reason: parse_mutation_err(&external_error_indicator),
                },
            ),
        ),
        Response::GetAccountInfoSuccess { data_stored, space_available, .. } =>
            CoreEvent::AccountInfo(Ok((data_stored, space_available))),
        Response::GetAccountInfoFailure { external_error_indicator, .. } =>
            CoreEvent::AccountInfo(
            Err(
                CoreError::GetAccountInfoFailure {
                    reason: parse_get_err(&external_error_indicator),
                },
            ),
        ),
    }
}

/// Extracts what a GET caller awaits: the data, the carried failure, or
/// `ReceivedUnexpectedEvent` for an event of another kind.
pub fn get_result_of_event(event: CoreEvent) -> (r: Result<Data, CoreError>)
    ensures
        ({
            match event@ {
                CoreEventV::Get(res) => match (r, res) {
                    (Ok(d), Ok(dv)) => d@ == dv,
                    (Err(e), Err(ev)) => e@ == ev,
                    _ => false,
                },
                _ => r matches Err(e) && e@ is ReceivedUnexpectedEvent,
            }
        }),
{
    match event {
        CoreEvent::Get(res) => res,
        _ => Err(CoreError::ReceivedUnexpectedEvent),
    }
}

/// Extracts what a mutation caller awaits.
pub fn mutation_result_of_event(event: CoreEvent) -> (r: Result<(), CoreError>)
    ensures
        ({
            match event@ {
                CoreEventV::Mutation(res) => match (r, res) {
                    (Ok(()), Ok(())) => true,
                    (Err(e), Err(ev)) => e@ == ev,
                    _ => false,
                },
                _ => r matches Err(e) && e@ is ReceivedUnexpectedEvent,
            }
        }),
{
    match event {
        CoreEvent::Mutation(res) => res,
        _ => Err(CoreError::ReceivedUnexpectedEvent),
    }
}

/// Extracts what an account-info caller awaits.
pub fn account_info_result_of_event(event: CoreEvent) -> (r: Result<(u64, u64), CoreError>)
    ensures
        ({
            match event@ {
                CoreEventV::AccountInfo(res) => match (r, res) {
                    (Ok(p), Ok(pv)) => p == pv,
                    (Err(e), Err(ev)) => e@ == ev,
                    _ => false,
                },
                _ => r matches Err(e) && e@ is ReceivedUnexpectedEvent,
            }
        }),
{
    match event {
        CoreEvent::AccountInfo(res) => res,
        _ => Err(CoreError::ReceivedUnexpectedEvent),
    }
}

} // verus!
