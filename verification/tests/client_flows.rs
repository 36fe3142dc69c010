//! End-to-end client flows against an in-memory mock network.

use safe_core::account::Account;
use safe_core::client::{
    complete_registration, complete_session_packet_get, prepare_login, prepare_registration,
    AccountInfoRequest, Client, GetStart, MutationRequest, TYPE_TAG_SESSION_PACKET,
};
use safe_core::data::{Data, ImmutableData, StructuredData};
use safe_core::errors::{encode_mutation_error, CoreError, GetError, MutationError};
use safe_core::events::{
    get_result_of_event, mutation_result_of_event, CoreEvent, Response,
};
use safe_core::recovery::{
    delete_recover_outcome, put_recover_on_get_result, put_recover_on_put_result,
    PutRecoverAction, PutRecoverStep,
};
use safe_core::types::{Authority, DataIdentifier, MessageId, XorName};

const UNVERSIONED_STRUCT_DATA_TYPE_TAG: u64 = 500;

/// An in-memory network: a flat store of data items and counters of the
/// requests that reached it.
struct MockVault {
    entries: Vec<Data>,
    gets: u64,
    mutations: u64,
}

fn name_of(n: u8) -> XorName {
    let mut v = vec![0u8; 32];
    v[0] = n;
    XorName::from_bytes(v)
}

fn mutation_failure(data_id: DataIdentifier, reason: MutationError, id: MessageId) -> Response {
    Response::PutFailure {
        id,
        data_id,
        external_error_indicator: encode_mutation_error(&reason),
    }
}

impl MockVault {
    fn new() -> MockVault {
        MockVault { entries: Vec::new(), gets: 0, mutations: 0 }
    }

    fn find(&self, data_id: &DataIdentifier) -> Option<usize> {
        for (i, d) in self.entries.iter().enumerate() {
            if d.identifier() == *data_id {
                return Some(i);
            }
        }
        None
    }

    fn handle_get(&mut self, data_id: DataIdentifier, id: MessageId) -> Response {
        self.gets += 1;
        match self.find(&data_id) {
            Some(i) => Response::GetSuccess(self.entries[i].clone(), id),
            None => Response::GetFailure {
                id,
                data_id,
                external_error_indicator: safe_core::errors::encode_get_error(
                    &GetError::NoSuchData,
                ),
            },
        }
    }

    fn handle_put(&mut self, data: Data, id: MessageId) -> Response {
        self.mutations += 1;
        let data_id = data.identifier();
        match &data {
            Data::Structured(sd) => match self.find(&data_id) {
                None => {
                    self.entries.push(data.clone());
                    Response::PutSuccess(data_id, id)
                },
                Some(i) => {
                    if sd.get_type_tag() == TYPE_TAG_SESSION_PACKET {
                        return mutation_failure(data_id, MutationError::AccountExists, id);
                    }
                    let existing = match &self.entries[i] {
                        Data::Structured(e) => e.clone(),
                        _ => unreachable!(),
                    };
                    if existing.is_deleted() {
                        if sd.get_version() == existing.get_version() + 1 {
                            self.entries[i] = data.clone();
                            Response::PutSuccess(data_id, id)
                        } else {
                            mutation_failure(data_id, MutationError::InvalidSuccessor, id)
                        }
                    } else {
                        mutation_failure(data_id, MutationError::DataExists, id)
                    }
                },
            },
            Data::Immutable(_) => {
                if self.find(&data_id).is_none() {
                    self.entries.push(data.clone());
                }
                Response::PutSuccess(data_id, id)
            },
            _ => {
                self.entries.push(data.clone());
                Response::PutSuccess(data_id, id)
            },
        }
    }

    fn handle_post(&mut self, data: Data, id: MessageId) -> Response {
        self.mutations += 1;
        let data_id = data.identifier();
        let sd = match &data {
            Data::Structured(sd) => sd.clone(),
            _ => {
                return mutation_failure(data_id, MutationError::InvalidOperation, id);
            },
        };
        match self.find(&data_id) {
            None => mutation_failure(data_id, MutationError::NoSuchData, id),
            Some(i) => {
                let existing = match &self.entries[i] {
                    Data::Structured(e) => e.clone(),
                    _ => unreachable!(),
                };
                if !existing.is_deleted() && sd.get_version() == existing.get_version() + 1 {
                    self.entries[i] = data.clone();
                    Response::PostSuccess(data_id, id)
                } else {
                    mutation_failure(data_id, MutationError::InvalidSuccessor, id)
                }
            },
        }
    }

    fn handle_delete(&mut self, data: Data, id: MessageId) -> Response {
        self.mutations += 1;
        let data_id = data.identifier();
        let sd = match &data {
            Data::Structured(sd) => sd.clone(),
            _ => {
                return mutation_failure(data_id, MutationError::InvalidOperation, id);
            },
        };
        match self.find(&data_id) {
            None => mutation_failure(data_id, MutationError::NoSuchData, id),
            Some(i) => {
                let existing = match &self.entries[i] {
                    Data::Structured(e) => e.clone(),
                    _ => unreachable!(),
                };
                if sd.get_version() == existing.get_version() + 1 {
                    self.entries[i] = data;
                    Response::DeleteSuccess(data_id, id)
                } else {
                    mutation_failure(data_id, MutationError::InvalidSuccessor, id)
                }
            },
        }
    }

    fn fetch_version(&self, data_id: &DataIdentifier) -> Option<u64> {
        self.find(data_id).map(|i| match &self.entries[i] {
            Data::Structured(sd) => sd.get_version(),
            _ => 0,
        })
    }
}

fn run_get(
    client: &mut Client,
    vault: &mut MockVault,
    data_id: DataIdentifier,
    dst: Option<Authority>,
) -> Result<Data, CoreError> {
    assert!(client.dispatch_ready());
    match client.get(data_id, dst) {
        GetStart::Cached(d) => Ok(d),
        GetStart::Send { msg_id, dst: _, data_id } => {
            let resp = vault.handle_get(data_id, msg_id);
            let (id, event) = client.handle_response(resp).expect("pending request");
            assert_eq!(id, msg_id);
            get_result_of_event(event)
        },
    }
}

fn run_put(
    client: &mut Client,
    vault: &mut MockVault,
    data: Data,
    dst: Option<Authority>,
) -> Result<(), CoreError> {
    assert!(client.dispatch_ready());
    let MutationRequest { msg_id, dst: _, data } = client.put(data, dst)?;
    let resp = vault.handle_put(data, msg_id);
    let (id, event) = client.handle_response(resp).expect("pending request");
    assert_eq!(id, msg_id);
    mutation_result_of_event(event)
}

fn run_post(
    client: &mut Client,
    vault: &mut MockVault,
    data: Data,
    dst: Option<Authority>,
) -> Result<(), CoreError> {
    assert!(client.dispatch_ready());
    let MutationRequest { msg_id, dst: _, data } = client.post(data, dst);
    let resp = vault.handle_post(data, msg_id);
    let (id, event) = client.handle_response(resp).expect("pending request");
    assert_eq!(id, msg_id);
    mutation_result_of_event(event)
}

fn run_delete(
    client: &mut Client,
    vault: &mut MockVault,
    data: Data,
    dst: Option<Authority>,
) -> Result<(), CoreError> {
    assert!(client.dispatch_ready());
    let MutationRequest { msg_id, dst: _, data } = client.delete(data, dst);
    let resp = vault.handle_delete(data, msg_id);
    let (id, event) = client.handle_response(resp).expect("pending request");
    assert_eq!(id, msg_id);
    mutation_result_of_event(event)
}

fn make_registered_client(
    vault: &mut MockVault,
    locator: &str,
    password: &str,
) -> Result<Client, CoreError> {
    let reg = prepare_registration(locator, password)?;
    let resp = vault.handle_put(Data::Structured(reg.acc_packet.clone()), reg.msg_id);
    complete_registration(Some(resp), reg.msg_id)?;
    Ok(Client::registered(reg))
}

fn login_client(
    vault: &mut MockVault,
    locator: &str,
    password: &str,
) -> Result<Client, CoreError> {
    let lr = prepare_login(locator, password);
    let resp = vault.handle_get(lr.data_id.clone(), lr.msg_id);
    let sd = complete_session_packet_get(Some(resp), lr.msg_id)?;
    let acc = Account::decrypt(sd.get_data(), &lr.user_cred.password, &lr.user_cred.pin)?;
    Ok(Client::login(acc, lr.acc_loc, lr.user_cred))
}

fn update_session_packet(client: &mut Client, vault: &mut MockVault) -> Result<(), CoreError> {
    let data_id = client.session_packet_id()?;
    let current = match run_get(client, vault, data_id, None)? {
        Data::Structured(sd) => sd,
        _ => return Err(CoreError::ReceivedUnexpectedData),
    };
    let new_sd = client.build_session_packet_update(&current)?;
    run_post(client, vault, Data::Structured(new_sd), None)
}

fn set_user_root(
    client: &mut Client,
    vault: &mut MockVault,
    dir_id: (DataIdentifier, Option<Vec<u8>>),
) -> Result<(), CoreError> {
    client.set_user_root_dir_id(dir_id)?;
    update_session_packet(client, vault)
}

fn set_config_root(
    client: &mut Client,
    vault: &mut MockVault,
    dir_id: (DataIdentifier, Option<Vec<u8>>),
) -> Result<(), CoreError> {
    client.set_config_root_dir_id(dir_id)?;
    update_session_packet(client, vault)
}

fn sample_dir_id(seed: u8) -> (DataIdentifier, Option<Vec<u8>>) {
    let name = name_of(seed);
    let key = vec![seed; 32];
    (
        DataIdentifier::Structured(name, UNVERSIONED_STRUCT_DATA_TYPE_TAG),
        Some(key),
    )
}

#[test]
fn unregistered_client() {
    let mut vault = MockVault::new();
    let orig_data = Data::Immutable(ImmutableData::new(vec![7u8; 30]));

    // A registered client PUTs something onto the network.
    {
        let mut client = make_registered_client(&mut vault, "unreg-sec0ck", "unreg-sec1ck").unwrap();
        run_put(&mut client, &mut vault, orig_data.clone(), None).unwrap();
    }

    // An unregistered client can retrieve it.
    let data_id = DataIdentifier::Immutable(orig_data.name().clone());
    let mut client = Client::unregistered();
    let got = run_get(&mut client, &mut vault, data_id, None).unwrap();
    assert_eq!(got, orig_data);

    // Account-requiring calls are forbidden on it.
    match client.set_user_root_dir_id(sample_dir_id(1)) {
        Err(CoreError::OperationForbiddenForClient) => (),
        other => panic!("Unexpected {:?}", other),
    }
    match client.set_config_root_dir_id(sample_dir_id(2)) {
        Err(CoreError::OperationForbiddenForClient) => (),
        other => panic!("Unexpected {:?}", other),
    }
}

#[test]
fn registered_client() {
    let mut vault = MockVault::new();

    // Account creation for the first time succeeds.
    let _ = make_registered_client(&mut vault, "reg-sec0ab", "reg-sec1ab").unwrap();

    // Account creation with the same secrets fails.
    match make_registered_client(&mut vault, "reg-sec0ab", "reg-sec1ab") {
        Ok(_) => panic!("Account name hijacking should fail"),
        Err(CoreError::MutationFailure { reason: MutationError::AccountExists, .. }) => (),
        Err(err) => panic!("{:?}", err),
    }
}

#[test]
fn login() {
    let mut vault = MockVault::new();
    assert!(login_client(&mut vault, "login-sec0", "login-sec1").is_err());
    let created = make_registered_client(&mut vault, "login-sec0", "login-sec1").unwrap();
    let recovered = login_client(&mut vault, "login-sec0", "login-sec1").unwrap();
    // Login recovers the identical account.
    assert_eq!(
        created.public_signing_key().unwrap(),
        recovered.public_signing_key().unwrap()
    );
    assert_eq!(
        created.secret_signing_key().unwrap(),
        recovered.secret_signing_key().unwrap()
    );
    assert_eq!(
        created.public_encryption_key().unwrap(),
        recovered.public_encryption_key().unwrap()
    );
    assert_eq!(
        created.secret_encryption_key().unwrap(),
        recovered.secret_encryption_key().unwrap()
    );
}

#[test]
fn user_root_dir_creation() {
    let mut vault = MockVault::new();
    let dir_id = sample_dir_id(3);

    {
        let mut client = make_registered_client(&mut vault, "uroot-sec0", "uroot-sec1").unwrap();
        assert!(client.user_root_dir_id().is_none());
        set_user_root(&mut client, &mut vault, dir_id.clone()).unwrap();
    }

    let client = login_client(&mut vault, "uroot-sec0", "uroot-sec1").unwrap();
    let got_dir_id = client.user_root_dir_id().unwrap();
    assert_eq!(got_dir_id, dir_id);
}

#[test]
fn config_root_dir_creation() {
    let mut vault = MockVault::new();
    let dir_id = sample_dir_id(4);

    {
        let mut client = make_registered_client(&mut vault, "croot-sec0", "croot-sec1").unwrap();
        assert!(client.config_root_dir_id().is_none());
        set_config_root(&mut client, &mut vault, dir_id.clone()).unwrap();
    }

    let client = login_client(&mut vault, "croot-sec0", "croot-sec1").unwrap();
    let got_dir_id = client.config_root_dir_id().unwrap();
    assert_eq!(got_dir_id, dir_id);
}

#[test]
fn put_or_reclaim_structured_data() {
    let mut vault = MockVault::new();
    let mut client = make_registered_client(&mut vault, "reclaim-s0", "reclaim-s1").unwrap();

    let owner_keys = vec![client.public_signing_key().unwrap()];
    let sign_sk = client.secret_signing_key().unwrap();
    let tag = UNVERSIONED_STRUCT_DATA_TYPE_TAG;
    let name = name_of(9);

    // PUT the data to the network.
    let data = StructuredData::new(
        tag,
        name.clone(),
        0,
        vec![1, 2, 3],
        owner_keys.clone(),
        vec![],
        Some(&sign_sk),
    );
    run_put(&mut client, &mut vault, Data::Structured(data), None).unwrap();

    // DELETE it.
    let tombstone = StructuredData::new(
        tag,
        name.clone(),
        1,
        vec![],
        vec![],
        owner_keys.clone(),
        Some(&sign_sk),
    );
    run_delete(&mut client, &mut vault, Data::Structured(tombstone), None).unwrap();

    // A plain PUT of new data under the same name fails.
    let fresh = StructuredData::new(
        tag,
        name.clone(),
        0,
        vec![4, 5, 6],
        owner_keys.clone(),
        vec![],
        Some(&sign_sk),
    );
    match run_put(&mut client, &mut vault, Data::Structured(fresh.clone()), None) {
        Err(CoreError::MutationFailure { reason: MutationError::InvalidSuccessor, .. }) => (),
        Ok(()) => panic!("Unexpected success"),
        Err(err) => panic!("{:?}", err),
    }

    // The same PUT with recovery reclaims the tombstoned slot.
    assert!(client.dispatch_ready());
    let req = client.put_recover(Data::Structured(fresh.clone()), None).unwrap();
    let first_put = req.data.clone();
    let resp = vault.handle_put(req.data, req.msg_id);
    let (_, event) = client.handle_response(resp).unwrap();
    let put_result = mutation_result_of_event(event);
    let version = match put_recover_on_put_result(&first_put, put_result) {
        PutRecoverStep::Resolve(res) => res.unwrap(),
        PutRecoverStep::FetchExisting { data_id, put_err } => {
            let get_result = run_get(&mut client, &mut vault, data_id, None);
            match put_recover_on_get_result(&first_put, put_err, get_result, &sign_sk) {
                PutRecoverAction::Resolve(res) => res.unwrap(),
                PutRecoverAction::Reput(sd) => {
                    let v = sd.get_version();
                    run_put(&mut client, &mut vault, Data::Structured(sd), None).unwrap();
                    v
                },
            }
        },
    };
    assert_eq!(version, 2);

    // The network now holds the reclaimed datum at version 2.
    let data_id = DataIdentifier::Structured(name, tag);
    assert_eq!(vault.fetch_version(&data_id), Some(2));
    match run_get(&mut client, &mut vault, data_id, None).unwrap() {
        Data::Structured(sd) => {
            assert_eq!(sd.get_version(), 2);
            assert_eq!(sd.get_data(), &vec![4, 5, 6]);
        },
        other => panic!("{:?}", other),
    }
}

#[test]
fn get_of_immutable_data_is_cached() {
    // A second GET of the same immutable address is answered from the
    // cache and reaches the network zero times.
    let mut vault = MockVault::new();
    let data = Data::Immutable(ImmutableData::new(vec![42u8; 16]));
    let data_id = DataIdentifier::Immutable(data.name().clone());
    {
        let mut client = make_registered_client(&mut vault, "cache-sec0", "cache-sec1").unwrap();
        run_put(&mut client, &mut vault, data.clone(), None).unwrap();
    }

    let mut client = Client::unregistered();
    let gets_before = vault.gets;
    let first = run_get(&mut client, &mut vault, data_id.clone(), None).unwrap();
    assert_eq!(first, data);
    assert_eq!(vault.gets, gets_before + 1);

    let second = run_get(&mut client, &mut vault, data_id, None).unwrap();
    assert_eq!(second, data);
    // No further network GET was issued.
    assert_eq!(vault.gets, gets_before + 1);
    assert_eq!(client.issued_gets(), 2);
}

#[test]
fn cache_evicts_least_recently_used() {
    // Fill the cache with 300 distinct immutable GETs, then GET a
    // 301st: the least-recently-used entry is no longer a cache hit.
    let mut vault = MockVault::new();
    let mut ids = Vec::new();
    for i in 0..301u64 {
        let mut value = vec![0u8; 9];
        value[0] = (i % 251) as u8;
        value[1] = (i / 251) as u8;
        let d = ImmutableData::new(value);
        ids.push(DataIdentifier::Immutable(d.name().clone()));
        vault.entries.push(Data::Immutable(d));
    }

    let mut client = Client::unregistered();
    for i in 0..300 {
        run_get(&mut client, &mut vault, ids[i].clone(), None).unwrap();
    }
    let gets_after_fill = vault.gets;
    assert_eq!(gets_after_fill, 300);

    // Everything so far is cached: a repeat GET of the most recent one
    // stays local.
    run_get(&mut client, &mut vault, ids[299].clone(), None).unwrap();
    assert_eq!(vault.gets, 300);

    // The 301st distinct GET evicts the least-recently-used entry.
    run_get(&mut client, &mut vault, ids[300].clone(), None).unwrap();
    assert_eq!(vault.gets, 301);

    // The evicted entry is a miss again and reaches the network.
    run_get(&mut client, &mut vault, ids[0].clone(), None).unwrap();
    assert_eq!(vault.gets, 302);
}

#[test]
fn cache_refresh_changes_eviction_order() {
    // A cache hit refreshes recency: after touching the oldest entry,
    // the next eviction removes the second-oldest instead.
    let mut vault = MockVault::new();
    let mut ids = Vec::new();
    for i in 0..301u64 {
        let mut value = vec![1u8; 9];
        value[0] = (i % 251) as u8;
        value[1] = (i / 251) as u8;
        let d = ImmutableData::new(value);
        ids.push(DataIdentifier::Immutable(d.name().clone()));
        vault.entries.push(Data::Immutable(d));
    }

    let mut client = Client::unregistered();
    for i in 0..300 {
        run_get(&mut client, &mut vault, ids[i].clone(), None).unwrap();
    }
    assert_eq!(vault.gets, 300);

    // Touch the least-recently-used entry: a hit, nothing sent.
    run_get(&mut client, &mut vault, ids[0].clone(), None).unwrap();
    assert_eq!(vault.gets, 300);

    // The next distinct GET evicts the now-oldest entry, which is the
    // second one fetched, not the refreshed first.
    run_get(&mut client, &mut vault, ids[300].clone(), None).unwrap();
    assert_eq!(vault.gets, 301);
    run_get(&mut client, &mut vault, ids[0].clone(), None).unwrap();
    assert_eq!(vault.gets, 301);
    run_get(&mut client, &mut vault, ids[1].clone(), None).unwrap();
    assert_eq!(vault.gets, 302);
}

#[test]
fn delete_recover_absorbs_missing_data() {
    // DELETE with recovery of a datum that does not exist resolves Ok
    // and issues exactly one network mutation attempt.
    let mut vault = MockVault::new();
    let mut client = make_registered_client(&mut vault, "delrec-se0", "delrec-se1").unwrap();
    let sign_sk = client.secret_signing_key().unwrap();
    let data = StructuredData::new(
        UNVERSIONED_STRUCT_DATA_TYPE_TAG,
        name_of(11),
        1,
        vec![],
        vec![],
        vec![],
        Some(&sign_sk),
    );

    let mutations_before = vault.mutations;
    assert!(client.dispatch_ready());
    let req = client.delete_recover(Data::Structured(data), None);
    let resp = vault.handle_delete(req.data, req.msg_id);
    let (_, event) = client.handle_response(resp).unwrap();
    let outcome = delete_recover_outcome(mutation_result_of_event(event));
    assert_eq!(outcome, Ok(()));
    assert_eq!(vault.mutations, mutations_before + 1);
}

#[test]
fn delete_recover_mapping() {
    let data_id = DataIdentifier::Immutable(name_of(12));
    assert_eq!(delete_recover_outcome(Ok(())), Ok(()));
    assert_eq!(
        delete_recover_outcome(Err(CoreError::MutationFailure {
            data_id: data_id.clone(),
            reason: MutationError::NoSuchData,
        })),
        Ok(())
    );
    assert_eq!(
        delete_recover_outcome(Err(CoreError::MutationFailure {
            data_id: data_id.clone(),
            reason: MutationError::InvalidOperation,
        })),
        Ok(())
    );
    match delete_recover_outcome(Err(CoreError::MutationFailure {
        data_id,
        reason: MutationError::LowBalance,
    })) {
        Err(CoreError::MutationFailure { reason: MutationError::LowBalance, .. }) => (),
        other => panic!("{:?}", other),
    }
}

#[test]
fn message_ids_never_repeat() {
    let mut client = Client::unregistered();
    let mut seen: Vec<MessageId> = Vec::new();
    for i in 0..20u8 {
        assert!(client.dispatch_ready());
        match client.get(DataIdentifier::Immutable(name_of(100 + i)), None) {
            GetStart::Send { msg_id, .. } => {
                assert!(!seen.contains(&msg_id));
                seen.push(msg_id);
            },
            GetStart::Cached(_) => panic!("nothing was cached"),
        }
    }
}

#[test]
fn session_packet_version_is_monotonic() {
    let mut vault = MockVault::new();
    let mut client = make_registered_client(&mut vault, "mono-sec00", "mono-sec11").unwrap();
    let packet_id = client.session_packet_id().unwrap();
    assert_eq!(vault.fetch_version(&packet_id), Some(0));

    set_user_root(&mut client, &mut vault, sample_dir_id(5)).unwrap();
    assert_eq!(vault.fetch_version(&packet_id), Some(1));

    set_config_root(&mut client, &mut vault, sample_dir_id(6)).unwrap();
    assert_eq!(vault.fetch_version(&packet_id), Some(2));

    // A second set of the same slot is refused before anything is sent.
    match client.set_user_root_dir_id(sample_dir_id(7)) {
        Err(CoreError::RootDirectoryAlreadyExists) => (),
        other => panic!("{:?}", other),
    }
    assert_eq!(vault.fetch_version(&packet_id), Some(2));
}

#[test]
fn get_account_info_forbidden_when_unregistered() {
    let mut client = Client::unregistered();
    assert!(client.dispatch_ready());
    match client.get_account_info(None) {
        Err(CoreError::OperationForbiddenForClient) => (),
        Err(e) => panic!("{:?}", e),
        Ok(_) => panic!("unexpected success"),
    }
    // With an explicit destination the query is dispatched.
    assert!(client.dispatch_ready());
    let AccountInfoRequest { msg_id, dst: _ } =
        client.get_account_info(Some(Authority::ClientManager(name_of(13)))).unwrap();
    let resp = Response::GetAccountInfoSuccess { id: msg_id, data_stored: 10, space_available: 90 };
    let (_, event) = client.handle_response(resp).unwrap();
    match event {
        CoreEvent::AccountInfo(Ok((10, 90))) => (),
        other => panic!("{:?}", other),
    }
}

#[test]
fn unknown_response_is_dropped() {
    let mut client = Client::unregistered();
    let resp = Response::PutSuccess(DataIdentifier::Immutable(name_of(14)), 77);
    assert!(client.handle_response(resp).is_none());
}

#[test]
fn stats_count_each_verb() {
    let mut vault = MockVault::new();
    let mut client = make_registered_client(&mut vault, "stats-sec0", "stats-sec1").unwrap();
    assert_eq!(client.issued_gets(), 0);
    assert_eq!(client.issued_puts(), 0);

    let data = Data::Immutable(ImmutableData::new(vec![3u8; 4]));
    run_put(&mut client, &mut vault, data.clone(), None).unwrap();
    assert_eq!(client.issued_puts(), 1);

    let _ = run_get(
        &mut client,
        &mut vault,
        DataIdentifier::Immutable(data.name().clone()),
        None,
    );
    assert_eq!(client.issued_gets(), 1);
    assert_eq!(client.issued_posts(), 0);
    assert_eq!(client.issued_deletes(), 0);
    assert_eq!(client.issued_appends(), 0);
}
