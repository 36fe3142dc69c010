//! Recovery disciplines: put-with-recovery and delete-with-recovery.
//!
//! `put_recover` is an optimistic retry: try the plain PUT; on the two
//! failures recovery understands, fetch the occupant of the address and
//! decide — reclaim a tombstone with a version bump, accept a benign
//! duplicate by the same owner, or give the original failure back.
//! The decisions are the functions here; the caller performs each send
//! between them.  `delete_recover` simply absorbs "already gone".

use vstd::prelude::*;

use crate::client::{Client, MutationRequest, PendingRequest, Stats};
use crate::data::{clone_key_list, key_lists_equal, Data, DataV, StructuredData};
use crate::errors::{CoreError, CoreErrorV, MutationError, MutationErrorV};
use crate::types::{clone_bytes, Authority, AuthorityV, DataIdentifier};

verus! {

/// Whether the retry discipline applies to the datum: it does for the
/// versioned variants only.
pub open spec fn spec_recoverable(d: DataV) -> bool {
    d is Structured || d is PrivAppendable || d is PubAppendable
}

/// Whether a put failure is one recovery understands.
pub open spec fn spec_recoverable_error(e: CoreErrorV) -> bool {
    e matches CoreErrorV::MutationFailure { reason, .. } && (reason is InvalidSuccessor
        || reason is DataExists)
}

/// The version a mutation of this datum declares, or zero where the
/// variant carries none.
pub fn version_or_zero(data: &Data) -> (r: u64)
    ensures
        r == data@.version_or_zero(),
{
    match data {
        Data::Immutable(_) => 0,
        Data::Structured(d) => d.get_version(),
        Data::PrivAppendable(d) => d.get_version(),
        Data::PubAppendable(d) => d.get_version(),
    }
}

/// What follows the initial PUT of a put-with-recovery.
pub enum PutRecoverStep {
    /// The flow is over, with the version it resolves to or the failure.
    Resolve(Result<u64, CoreError>),
    /// Fetch the occupant of this address and decide from it, keeping
    /// the put failure to propagate if recovery does not apply.
    FetchExisting { data_id: DataIdentifier, put_err: CoreError },
}

/// Decides from the initial PUT's outcome: success resolves with the
/// declared version (zero for unversioned data); of the failures, only
/// an invalid successor or existing data on a versioned datum opens
/// recovery, and every other failure propagates unchanged.
pub fn put_recover_on_put_result(data: &Data, result: Result<(), CoreError>) -> (r:
    PutRecoverStep)
    ensures
        match result {
            Ok(()) => r matches PutRecoverStep::Resolve(Ok(v)) && v == data@.version_or_zero(),
            Err(e) => {
                if spec_recoverable(data@) && spec_recoverable_error(e@) {
                    r matches PutRecoverStep::FetchExisting { data_id, put_err } && data_id@
                        == data@.identifier() && put_err@ == e@
                } else {
                    r matches PutRecoverStep::Resolve(Err(e2)) && e2@ == e@
                }
            },
        },
{
    match result {
        Ok(()) => PutRecoverStep::Resolve(Ok(version_or_zero(data))),
        Err(e) => {
            let recoverable_type = match data {
                Data::Structured(_) => true,
                Data::PrivAppendable(_) => true,
                Data::PubAppendable(_) => true,
                Data::Immutable(_) => false,
            };
            let recoverable_err = match &e {
                CoreError::MutationFailure { reason: MutationError::InvalidSuccessor, .. } =>
                    true,
                CoreError::MutationFailure { reason: MutationError::DataExists, .. } => true,
                _ => false,
            };
            if recoverable_type && recoverable_err {
                PutRecoverStep::FetchExisting { data_id: data.identifier(), put_err: e }
            } else {
                PutRecoverStep::Resolve(Err(e))
            }
        },
    }
}

/// What follows the fetch of the occupant.
pub enum PutRecoverAction {
    /// The flow is over, with the version it resolves to or the failure.
    Resolve(Result<u64, CoreError>),
    /// PUT this reclaim datum; on success the flow resolves with its
    /// version.
    Reput(StructuredData),
}

/// Decides from the occupant of the address: a tombstoned structured
/// datum is reclaimed by a fresh datum one version above it, signed
/// with the caller's key; an occupant of the same variant with the same
/// owners is a benign duplicate and resolves with the declared version;
/// everything else — another owner, another variant, or a failed fetch
/// — gives the original put failure back.
pub fn put_recover_on_get_result(
    data: &Data,
    put_err: CoreError,
    get_result: Result<Data, CoreError>,
    sign_seed: &Vec<u8>,
) -> (r: PutRecoverAction)
    requires
        sign_seed@.len() == 32,
        (match get_result {
            Ok(gd) => match gd@ {
                DataV::Structured(old_sd) => (old_sd.is_deleted() && data@ is Structured)
                    ==> old_sd.version < u64::MAX,
                _ => true,
            },
            Err(_) => true,
        }),
    ensures
        match get_result {
            Ok(gd) => match (gd@, data@) {
                (DataV::Structured(old_sd), DataV::Structured(new_sd)) => {
                    if old_sd.is_deleted() {
                        r matches PutRecoverAction::Reput(sd) && sd@.type_tag == new_sd.type_tag
                            && sd@.name == new_sd.name && sd@.version == old_sd.version + 1
                            && sd@.data == new_sd.data && sd@.owner_keys == new_sd.owner_keys
                            && sd@.previous_owner_keys == new_sd.previous_owner_keys
                            && sd@.signed_by(sign_seed@)
                    } else if old_sd.owner_keys == new_sd.owner_keys {
                        r matches PutRecoverAction::Resolve(Ok(v)) && v == new_sd.version
                    } else {
                        r matches PutRecoverAction::Resolve(Err(e)) && e@ == put_err@
                    }
                },
                (DataV::PrivAppendable(o), DataV::PrivAppendable(n)) => {
                    if o.owner_keys == n.owner_keys {
                        r matches PutRecoverAction::Resolve(Ok(v)) && v == n.version
                    } else {
                        r matches PutRecoverAction::Resolve(Err(e)) && e@ == put_err@
                    }
                },
                (DataV::PubAppendable(o), DataV::PubAppendable(n)) => {
                    if o.owner_keys == n.owner_keys {
                        r matches PutRecoverAction::Resolve(Ok(v)) && v == n.version
                    } else {
                        r matches PutRecoverAction::Resolve(Err(e)) && e@ == put_err@
                    }
                },
                _ => r matches PutRecoverAction::Resolve(Err(e)) && e@ == put_err@,
            },
            Err(_) => r matches PutRecoverAction::Resolve(Err(e)) && e@ == put_err@,
        },
{
    match get_result {
        Ok(gd) => match (gd, data) {
            (Data::Structured(old_sd), Data::Structured(new_sd)) => {
                if old_sd.is_deleted() {
                    let sd = StructuredData::new(
                        new_sd.get_type_tag(),
                        new_sd.name().clone(),
                        old_sd.get_version() + 1,
                        clone_bytes(new_sd.get_data()),
                        clone_key_list(new_sd.get_owner_keys()),
                        clone_key_list(new_sd.get_previous_owner_keys()),
                        Some(sign_seed),
                    );
                    PutRecoverAction::Reput(sd)
                } else if key_lists_equal(old_sd.get_owner_keys(), new_sd.get_owner_keys()) {
                    PutRecoverAction::Resolve(Ok(new_sd.get_version()))
                } else {
                    PutRecoverAction::Resolve(Err(put_err))
                }
            },
            (Data::PrivAppendable(o), Data::PrivAppendable(n)) => {
                if key_lists_equal(o.get_owner_keys(), n.get_owner_keys()) {
                    PutRecoverAction::Resolve(Ok(n.get_version()))
                } else {
                    PutRecoverAction::Resolve(Err(put_err))
                }
            },
            (Data::PubAppendable(o), Data::PubAppendable(n)) => {
                if key_lists_equal(o.get_owner_keys(), n.get_owner_keys()) {
                    PutRecoverAction::Resolve(Ok(n.get_version()))
                } else {
                    PutRecoverAction::Resolve(Err(put_err))
                }
            },
            _ => PutRecoverAction::Resolve(Err(put_err)),
        },
        Err(_) => PutRecoverAction::Resolve(Err(put_err)),
    }
}

/// Absorbs "already gone": a delete that failed because the datum never
/// existed, or may not be operated on any more, counts as done; every
/// other outcome passes through unchanged.
pub fn delete_recover_outcome(result: Result<(), CoreError>) -> (r: Result<(), CoreError>)
    ensures
        match result {
            Ok(()) => r is Ok,
            Err(e) => match e@ {
                CoreErrorV::MutationFailure { reason: MutationErrorV::NoSuchData, .. } => r
                    is Ok,
                CoreErrorV::MutationFailure { reason: MutationErrorV::InvalidOperation, .. } =>
                    r is Ok,
                _ => r matches Err(e2) && e2@ == e@,
            },
        },
{
    match result {
        Ok(()) => Ok(()),
        Err(e) => match e {
            CoreError::MutationFailure { reason: MutationError::NoSuchData, .. } => Ok(()),
            CoreError::MutationFailure { reason: MutationError::InvalidOperation, .. } => Ok(()),
            other => Err(other),
        },
    }
}

impl Client {
    /// Put with recovery: dispatches the initial PUT of the flow.  The
    /// caller feeds the completion to `put_recover_on_put_result`,
    /// fetches the occupant when asked, lets `put_recover_on_get_result`
    /// decide, and sends a reclaim back through `put`.
    pub fn put_recover(&mut self, data: Data, dst: Option<Authority>) -> (r: Result<
        MutationRequest,
        CoreError,
    >)
        requires
            old(self).wf(),
            old(self).can_dispatch(),
        ensures
            final(self).wf(),
            final(self).ctype() == old(self).ctype(),
            final(self).cache_model() == old(self).cache_model(),
            final(self).stats() == (Stats {
                issued_puts: (old(self).stats().issued_puts + 1) as u64,
                ..old(self).stats()
            }),
            ({
                if dst is None && old(self).ctype() is Unregistered {
                    &&& r matches Err(e) && e@ is OperationForbiddenForClient
                    &&& final(self).pending() == old(self).pending()
                    &&& final(self).issued_ids() == old(self).issued_ids()
                    &&& final(self).next_id() == old(self).next_id()
                } else {
                    r matches Ok(q) && q.msg_id == old(self).next_id() && !old(
                        self,
                    ).pending().dom().contains(q.msg_id) && q.data@ == data@ && q.dst@
                        == (match dst {
                        Some(a) => a@,
                        None => old(self).ctype().cm_addr(),
                    }) && final(self).pending() == old(self).pending().insert(
                        q.msg_id,
                        PendingRequest::Mutation,
                    ) && final(self).issued_ids() == old(self).issued_ids().push(q.msg_id)
                        && final(self).next_id() == q.msg_id + 1
                }
            }),
    {
        self.put(data, dst)
    }

    /// Delete with recovery: dispatches the single DELETE of the flow —
    /// exactly one mutation attempt, whatever the outcome.  The caller
    /// maps the completion through `delete_recover_outcome`.
    pub fn delete_recover(&mut self, data: Data, dst: Option<Authority>) -> (r: MutationRequest)
        requires
            old(self).wf(),
            old(self).can_dispatch(),
        ensures
            final(self).wf(),
            final(self).ctype() == old(self).ctype(),
            final(self).cache_model() == old(self).cache_model(),
            final(self).stats() == (Stats {
                issued_deletes: (old(self).stats().issued_deletes + 1) as u64,
                ..old(self).stats()
            }),
            r.msg_id == old(self).next_id(),
            !old(self).pending().dom().contains(r.msg_id),
            r.data@ == data@,
            r.dst@ == (match dst {
                Some(a) => a@,
                None => AuthorityV::NaeManager(data@.name()),
            }),
            final(self).pending() == old(self).pending().insert(
                r.msg_id,
                PendingRequest::Mutation,
            ),
            final(self).issued_ids() == old(self).issued_ids().push(r.msg_id),
            final(self).next_id() == r.msg_id + 1,
    {
        self.delete(data, dst)
    }
}

} // verus!
