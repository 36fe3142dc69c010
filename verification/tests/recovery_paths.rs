//! The recovery decisions branch by branch, and the remaining verbs.

use safe_core::client::{Client, GetStart, PendingRequest};
use safe_core::data::{AppendWrapper, AppendableData, Data, ImmutableData, StructuredData};
use safe_core::errors::{encode_get_error, CoreError, GetError, MutationError};
use safe_core::events::{account_info_result_of_event, get_result_of_event, CoreEvent, Response};
use safe_core::recovery::{
    put_recover_on_get_result, put_recover_on_put_result, version_or_zero, PutRecoverAction,
    PutRecoverStep,
};
use safe_core::types::{DataIdentifier, XorName};

fn name_of(n: u8) -> XorName {
    let mut v = vec![0u8; 32];
    v[0] = n;
    XorName::from_bytes(v)
}

fn invalid_successor(data_id: DataIdentifier) -> CoreError {
    CoreError::MutationFailure { data_id, reason: MutationError::InvalidSuccessor }
}

fn sample_sd(name: u8, version: u64, payload: Vec<u8>, owners: Vec<Vec<u8>>) -> StructuredData {
    StructuredData::new(500, name_of(name), version, payload, owners, vec![], None)
}

#[test]
fn put_recover_success_resolves_with_declared_version() {
    let sd = sample_sd(1, 5, vec![1], vec![vec![9u8; 32]]);
    let data = Data::Structured(sd);
    assert_eq!(version_or_zero(&data), 5);
    match put_recover_on_put_result(&data, Ok(())) {
        PutRecoverStep::Resolve(Ok(5)) => (),
        _ => panic!("expected the declared version"),
    }
}

#[test]
fn put_recover_ignores_unversioned_data() {
    // Recovery never applies to immutable data: the failure propagates.
    let data = Data::Immutable(ImmutableData::new(vec![1, 2]));
    assert_eq!(version_or_zero(&data), 0);
    let err = invalid_successor(data.identifier());
    match put_recover_on_put_result(&data, Err(err)) {
        PutRecoverStep::Resolve(Err(CoreError::MutationFailure {
            reason: MutationError::InvalidSuccessor,
            ..
        })) => (),
        _ => panic!("expected the original failure"),
    }
}

#[test]
fn put_recover_opens_on_invalid_successor() {
    let data = Data::Structured(sample_sd(2, 0, vec![1], vec![vec![9u8; 32]]));
    let err = invalid_successor(data.identifier());
    match put_recover_on_put_result(&data, Err(err)) {
        PutRecoverStep::FetchExisting { data_id, put_err } => {
            assert_eq!(data_id, data.identifier());
            assert!(matches!(
                put_err,
                CoreError::MutationFailure { reason: MutationError::InvalidSuccessor, .. }
            ));
        },
        _ => panic!("expected recovery to open"),
    }
}

#[test]
fn put_recover_propagates_other_failures() {
    let data = Data::Structured(sample_sd(3, 0, vec![1], vec![vec![9u8; 32]]));
    let err = CoreError::MutationFailure {
        data_id: data.identifier(),
        reason: MutationError::LowBalance,
    };
    match put_recover_on_put_result(&data, Err(err)) {
        PutRecoverStep::Resolve(Err(CoreError::MutationFailure {
            reason: MutationError::LowBalance,
            ..
        })) => (),
        _ => panic!("expected the original failure"),
    }
}

#[test]
fn put_recover_reclaims_a_tombstone() {
    let owners = vec![vec![7u8; 32]];
    let data = Data::Structured(sample_sd(4, 0, vec![4, 4], owners.clone()));
    let tombstone = sample_sd(4, 7, vec![], vec![]);
    let seed = vec![1u8; 32];
    let put_err = invalid_successor(data.identifier());
    match put_recover_on_get_result(&data, put_err, Ok(Data::Structured(tombstone)), &seed) {
        PutRecoverAction::Reput(sd) => {
            assert_eq!(sd.get_version(), 8);
            assert_eq!(sd.get_data(), &vec![4, 4]);
            assert_eq!(sd.get_owner_keys(), &owners);
            assert_eq!(sd.get_signature().len(), 64);
        },
        _ => panic!("expected a reclaim"),
    }
}

#[test]
fn put_recover_accepts_benign_duplicate() {
    let owners = vec![vec![7u8; 32]];
    let data = Data::Structured(sample_sd(5, 3, vec![1], owners.clone()));
    let existing = sample_sd(5, 9, vec![2], owners);
    let seed = vec![1u8; 32];
    let put_err = invalid_successor(data.identifier());
    match put_recover_on_get_result(&data, put_err, Ok(Data::Structured(existing)), &seed) {
        // The declared version comes back, not the occupant's.
        PutRecoverAction::Resolve(Ok(3)) => (),
        _ => panic!("expected a benign duplicate"),
    }
}

#[test]
fn put_recover_refuses_foreign_owner() {
    let data = Data::Structured(sample_sd(6, 3, vec![1], vec![vec![7u8; 32]]));
    let existing = sample_sd(6, 9, vec![2], vec![vec![8u8; 32]]);
    let seed = vec![1u8; 32];
    let put_err = invalid_successor(data.identifier());
    match put_recover_on_get_result(&data, put_err, Ok(Data::Structured(existing)), &seed) {
        PutRecoverAction::Resolve(Err(CoreError::MutationFailure {
            reason: MutationError::InvalidSuccessor,
            ..
        })) => (),
        _ => panic!("expected the original failure"),
    }
}

#[test]
fn put_recover_appendable_owner_match() {
    let owners = vec![vec![6u8; 32]];
    let new_ad = AppendableData::new(name_of(7), 2, vec![], owners.clone(), vec![], vec![]);
    let old_ad = AppendableData::new(name_of(7), 5, vec![], owners, vec![], vec![]);
    let seed = vec![1u8; 32];
    let data = Data::PrivAppendable(new_ad);
    let put_err = invalid_successor(data.identifier());
    match put_recover_on_get_result(&data, put_err, Ok(Data::PrivAppendable(old_ad)), &seed) {
        PutRecoverAction::Resolve(Ok(2)) => (),
        _ => panic!("expected the declared version"),
    }
}

#[test]
fn put_recover_propagates_on_failed_fetch() {
    let data = Data::Structured(sample_sd(8, 0, vec![1], vec![vec![7u8; 32]]));
    let seed = vec![1u8; 32];
    let put_err = invalid_successor(data.identifier());
    let get_err = CoreError::GetFailure {
        data_id: data.identifier(),
        reason: GetError::NoSuchData,
    };
    match put_recover_on_get_result(&data, put_err, Err(get_err), &seed) {
        PutRecoverAction::Resolve(Err(CoreError::MutationFailure {
            reason: MutationError::InvalidSuccessor,
            ..
        })) => (),
        _ => panic!("expected the original put failure"),
    }
}

#[test]
fn append_dispatch_and_completion() {
    let mut client = Client::unregistered();
    assert!(client.dispatch_ready());
    let wrapper = AppendWrapper::Pub { append_to: name_of(9), data: vec![1, 2] };
    let req = client.append(wrapper, None);
    assert_eq!(client.issued_appends(), 1);
    let resp = Response::AppendSuccess(DataIdentifier::PubAppendable(name_of(9)), req.msg_id);
    let (id, event) = client.handle_response(resp).unwrap();
    assert_eq!(id, req.msg_id);
    assert_eq!(event, CoreEvent::Mutation(Ok(())));
}

#[test]
fn account_info_failure_is_classified() {
    let mut client = Client::unregistered();
    assert!(client.dispatch_ready());
    let req = client
        .get_account_info(Some(safe_core::types::Authority::ClientManager(name_of(10))))
        .unwrap();
    let resp = Response::GetAccountInfoFailure {
        id: req.msg_id,
        external_error_indicator: encode_get_error(&GetError::NoSuchAccount),
    };
    let (_, event) = client.handle_response(resp).unwrap();
    match account_info_result_of_event(event) {
        Err(CoreError::GetAccountInfoFailure { reason: GetError::NoSuchAccount }) => (),
        other => panic!("{:?}", other),
    }
}

#[test]
fn get_result_of_wrong_event_kind() {
    match get_result_of_event(CoreEvent::Mutation(Ok(()))) {
        Err(CoreError::ReceivedUnexpectedEvent) => (),
        other => panic!("{:?}", other),
    }
}

#[test]
fn removed_head_abandons_the_request() {
    // A send failure removes the slot; the response that never comes
    // would now be dropped.
    let mut client = Client::unregistered();
    assert!(client.dispatch_ready());
    let msg_id = match client.get(DataIdentifier::Immutable(name_of(11)), None) {
        GetStart::Send { msg_id, .. } => msg_id,
        GetStart::Cached(_) => panic!("nothing was cached"),
    };
    assert_eq!(client.remove_head(&msg_id), Some(PendingRequest::Get { cache_on_success: true }));
    assert_eq!(client.remove_head(&msg_id), None);
    let resp = Response::GetSuccess(Data::Immutable(ImmutableData::new(vec![1])), msg_id);
    assert!(client.handle_response(resp).is_none());
}
