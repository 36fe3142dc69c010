//! The client: the state machine behind the public API.
//!
//! The client does not perform network sends itself: each dispatcher
//! returns an explicit send intent — the fresh message id, the
//! destination authority, and the payload — and records the pending
//! request in the correlation table.  The caller performs the send,
//! feeds responses back through `handle_response`, and resolves the
//! waiting completion with the returned event.  Message ids come from a
//! strictly increasing counter, so no two dispatched requests ever
//! share one.

use std::collections::HashMap;
use vstd::prelude::*;

use crate::account::{
    dir_id_view, opt_dir_id_view, spec_account_cipher, account_codec_wf, Account, AccountV,
};
use crate::cache::{lru_has_key, lru_index_of, ImmutCache};
use crate::crypto::{
    derive_secrets, spec_derived_keyword, spec_derived_password, spec_derived_pin,
    spec_network_id, sha256_hash, sha256_of, UserCred,
};
use crate::data::{keys_view, AppendWrapper, Data, DataV, StructuredData};
use crate::errors::{spec_parse_get_error, spec_parse_mutation_error, CoreError, CoreErrorV};
use crate::events::{event_of_response, spec_event_of, CoreEvent, Response, ResponseV};
use crate::types::{
    clone_bytes, Authority, AuthorityV, DataIdV, DataIdentifier, MessageId, XorName,
    XOR_NAME_LEN,
};
use vstd::string::StringSliceAdditionalSpecFns;

verus! {

broadcast use vstd::std_specs::hash::group_hash_axioms;

/// Type tag of the session packet's structured data.
pub const TYPE_TAG_SESSION_PACKET: u64 = 0;

/// Bound of the immutable-data cache.
pub const IMMUT_DATA_CACHE_SIZE: usize = 300;

/// Seconds a bootstrap waits for the network connection.
pub const CONNECTION_TIMEOUT_SECS: u64 = 60;

/// Seconds a bootstrap waits for the session-packet response.
pub const ACC_PKT_TIMEOUT_SECS: u64 = 60;

/// The message id of the single synchronous bootstrap request; the
/// client's own counter starts above it.
pub const BOOTSTRAP_MSG_ID: MessageId = 0;

/// First id the client's counter hands out.
pub const FIRST_MSG_ID: MessageId = 1;

/// What a completion slot waits for.
#[derive(PartialEq, Eq, Structural, Clone, Copy, Debug)]
pub enum PendingRequest {
    /// A GET; when the flag is set, immutable data in the response is
    /// inserted into the cache.
    Get { cache_on_success: bool },
    Mutation,
    AccountInfo,
}

/// Counters of dispatched requests, one per verb.
#[derive(PartialEq, Eq, Structural, Clone, Copy, Debug)]
pub struct Stats {
    pub issued_gets: u64,
    pub issued_puts: u64,
    pub issued_posts: u64,
    pub issued_deletes: u64,
    pub issued_appends: u64,
}

impl Default for Stats {
    fn default() -> (r: Stats)
        ensures
            r == (Stats {
                issued_gets: 0,
                issued_puts: 0,
                issued_posts: 0,
                issued_deletes: 0,
                issued_appends: 0,
            }),
    {
        Stats {
            issued_gets: 0,
            issued_puts: 0,
            issued_posts: 0,
            issued_deletes: 0,
            issued_appends: 0,
        }
    }
}

/// Whether the client carries an account.
pub enum ClientType {
    Unregistered,
    Registered { acc: Account, acc_loc: XorName, user_cred: UserCred, cm_addr: Authority },
}

/// Mathematical model of a `ClientType`.
pub enum ClientTypeV {
    Unregistered,
    Registered {
        acc: AccountV,
        acc_loc: Seq<u8>,
        password: Seq<u8>,
        pin: Seq<u8>,
        cm_addr: AuthorityV,
    },
}

impl ClientTypeV {
    pub open spec fn acc(self) -> AccountV
        recommends
            self is Registered,
    {
        match self {
            ClientTypeV::Registered { acc, .. } => acc,
            ClientTypeV::Unregistered => arbitrary(),
        }
    }

    pub open spec fn acc_loc(self) -> Seq<u8>
        recommends
            self is Registered,
    {
        match self {
            ClientTypeV::Registered { acc_loc, .. } => acc_loc,
            ClientTypeV::Unregistered => arbitrary(),
        }
    }

    pub open spec fn password(self) -> Seq<u8>
        recommends
            self is Registered,
    {
        match self {
            ClientTypeV::Registered { password, .. } => password,
            ClientTypeV::Unregistered => arbitrary(),
        }
    }

    pub open spec fn pin(self) -> Seq<u8>
        recommends
            self is Registered,
    {
        match self {
            ClientTypeV::Registered { pin, .. } => pin,
            ClientTypeV::Unregistered => arbitrary(),
        }
    }

    pub open spec fn cm_addr(self) -> AuthorityV
        recommends
            self is Registered,
    {
        match self {
            ClientTypeV::Registered { cm_addr, .. } => cm_addr,
            ClientTypeV::Unregistered => arbitrary(),
        }
    }

    /// The shape the client keeps of a registered identity.
    pub open spec fn wf(self) -> bool {
        self is Registered ==> {
            &&& account_codec_wf(self.acc())
            &&& self.acc_loc().len() == XOR_NAME_LEN
            &&& self.cm_addr() is ClientManager
        }
    }
}

impl View for ClientType {
    type V = ClientTypeV;

    open spec fn view(&self) -> ClientTypeV {
        match self {
            ClientType::Unregistered => ClientTypeV::Unregistered,
            ClientType::Registered { acc, acc_loc, user_cred, cm_addr } =>
                ClientTypeV::Registered {
                acc: acc@,
                acc_loc: acc_loc@,
                password: user_cred.password@,
                pin: user_cred.pin@,
                cm_addr: cm_addr@,
            },
        }
    }
}

impl ClientType {
    /// A registered client type.
    pub fn reg(acc: Account, acc_loc: XorName, user_cred: UserCred, cm_addr: Authority) -> (r:
        ClientType)
        ensures
            r@ == (ClientTypeV::Registered {
                acc: acc@,
                acc_loc: acc_loc@,
                password: user_cred.password@,
                pin: user_cred.pin@,
                cm_addr: cm_addr@,
            }),
    {
        ClientType::Registered { acc, acc_loc, user_cred, cm_addr }
    }

    /// The account, or the failure an unregistered client answers.
    pub fn acc(&self) -> (r: Result<&Account, CoreError>)
        ensures
            match self@ {
                ClientTypeV::Registered { .. } => r matches Ok(a) && a@ == self@.acc(),
                ClientTypeV::Unregistered => r matches Err(e) && e@
                    is OperationForbiddenForClient,
            },
    {
        match self {
            ClientType::Registered { acc, .. } => Ok(acc),
            ClientType::Unregistered => Err(CoreError::OperationForbiddenForClient),
        }
    }

    /// The session packet's address, or the failure an unregistered
    /// client answers.
    pub fn acc_loc(&self) -> (r: Result<XorName, CoreError>)
        ensures
            match self@ {
                ClientTypeV::Registered { .. } => r matches Ok(n) && n@ == self@.acc_loc(),
                ClientTypeV::Unregistered => r matches Err(e) && e@
                    is OperationForbiddenForClient,
            },
    {
        match self {
            ClientType::Registered { acc_loc, .. } => Ok(acc_loc.clone()),
            ClientType::Unregistered => Err(CoreError::OperationForbiddenForClient),
        }
    }

    /// The in-memory credentials, or the failure an unregistered client
    /// answers.
    pub fn user_cred(&self) -> (r: Result<&UserCred, CoreError>)
        ensures
            match self@ {
                ClientTypeV::Registered { .. } => r matches Ok(c) && c.password@
                    == self@.password() && c.pin@ == self@.pin(),
                ClientTypeV::Unregistered => r matches Err(e) && e@
                    is OperationForbiddenForClient,
            },
    {
        match self {
            ClientType::Registered { user_cred, .. } => Ok(user_cred),
            ClientType::Unregistered => Err(CoreError::OperationForbiddenForClient),
        }
    }

    /// The client-manager authority, or the failure an unregistered
    /// client answers.
    pub fn cm_addr(&self) -> (r: Result<&Authority, CoreError>)
        ensures
            match self@ {
                ClientTypeV::Registered { .. } => r matches Ok(a) && a@ == self@.cm_addr(),
                ClientTypeV::Unregistered => r matches Err(e) && e@
                    is OperationForbiddenForClient,
            },
    {
        match self {
            ClientType::Registered { cm_addr, .. } => Ok(cm_addr),
            ClientType::Unregistered => Err(CoreError::OperationForbiddenForClient),
        }
    }
}

/// A dispatched GET: either answered from the cache on the spot, or a
/// request to send.
pub enum GetStart {
    Cached(Data),
    Send { msg_id: MessageId, dst: Authority, data_id: DataIdentifier },
}

/// A mutation to send.
pub struct MutationRequest {
    pub msg_id: MessageId,
    pub dst: Authority,
    pub data: Data,
}

/// An append to send.
pub struct AppendRequest {
    pub msg_id: MessageId,
    pub dst: Authority,
    pub wrapper: AppendWrapper,
}

/// An account-info query to send.
pub struct AccountInfoRequest {
    pub msg_id: MessageId,
    pub dst: Authority,
}

/// All-zero counters.
pub open spec fn zero_stats() -> Stats {
    Stats {
        issued_gets: 0,
        issued_puts: 0,
        issued_posts: 0,
        issued_deletes: 0,
        issued_appends: 0,
    }
}

/// Ids strictly increase along the issue order.
pub open spec fn strictly_increasing(s: Seq<MessageId>) -> bool {
    forall|i: int, j: int| 0 <= i < j < s.len() ==> s[i] < s[j]
}

/// Every id in the sequence lies below the bound.
pub open spec fn ids_below(s: Seq<MessageId>, bound: MessageId) -> bool {
    forall|i: int| 0 <= i < s.len() ==> s[i] < bound
}

/// Every key of the table lies below the bound.
pub open spec fn pending_below(m: Map<MessageId, PendingRequest>, bound: MessageId) -> bool {
    forall|id: MessageId| #[trigger] m.dom().contains(id) ==> id < bound
}

/// The client.
pub struct Client {
    next_msg_id: MessageId,
    issued: Ghost<Seq<MessageId>>,
    heads: HashMap<MessageId, PendingRequest>,
    cache: ImmutCache,
    client_type: ClientType,
    stats: Stats,
}

impl Client {
    /// The correlation table: message id to pending completion slot.
    pub closed spec fn pending(self) -> Map<MessageId, PendingRequest> {
        self.heads@
    }

    /// The id the next dispatch will carry.
    pub closed spec fn next_id(self) -> MessageId {
        self.next_msg_id
    }

    /// Every id handed out so far, in issue order.
    pub closed spec fn issued_ids(self) -> Seq<MessageId> {
        self.issued@
    }

    /// The cache entries, least- to most-recently used.
    pub closed spec fn cache_model(self) -> Seq<(Seq<u8>, DataV)> {
        self.cache.model()
    }

    pub closed spec fn ctype(self) -> ClientTypeV {
        self.client_type@
    }

    pub closed spec fn stats(self) -> Stats {
        self.stats
    }

    pub closed spec fn cache_ok(self) -> bool {
        &&& self.cache.wf()
        &&& self.cache.capacity() == IMMUT_DATA_CACHE_SIZE
    }

    /// The client's invariant.
    pub open spec fn wf(self) -> bool {
        &&& self.cache_ok()
        &&& self.ctype().wf()
        &&& strictly_increasing(self.issued_ids())
        &&& ids_below(self.issued_ids(), self.next_id())
        &&& pending_below(self.pending(), self.next_id())
    }

    /// Whether another request can be dispatched without a counter
    /// reaching its machine limit.
    pub open spec fn can_dispatch(self) -> bool {
        &&& self.next_id() < MessageId::MAX
        &&& self.stats().issued_gets < u64::MAX
        &&& self.stats().issued_puts < u64::MAX
        &&& self.stats().issued_posts < u64::MAX
        &&& self.stats().issued_deletes < u64::MAX
        &&& self.stats().issued_appends < u64::MAX
    }

    /// Exec check of `can_dispatch`, for callers outside the library.
    pub fn dispatch_ready(&self) -> (r: bool)
        ensures
            r == self.can_dispatch(),
    {
        self.next_msg_id < MessageId::MAX && self.stats.issued_gets < u64::MAX
            && self.stats.issued_puts < u64::MAX && self.stats.issued_posts < u64::MAX
            && self.stats.issued_deletes < u64::MAX && self.stats.issued_appends < u64::MAX
    }

    fn fresh_state(client_type: ClientType) -> (r: Client)
        requires
            client_type@.wf(),
        ensures
            r.wf(),
            r.ctype() == client_type@,
            r.pending() == Map::<MessageId, PendingRequest>::empty(),
            r.issued_ids() == Seq::<MessageId>::empty(),
            r.cache_model() == Seq::<(Seq<u8>, DataV)>::empty(),
            r.next_id() == FIRST_MSG_ID,
            r.stats() == zero_stats(),
    {
        Client {
            next_msg_id: FIRST_MSG_ID,
            issued: Ghost(Seq::empty()),
            heads: HashMap::new(),
            cache: ImmutCache::new(IMMUT_DATA_CACHE_SIZE),
            client_type,
            stats: Stats::default(),
        }
    }

    /// A getter-only client with no identity.
    pub fn unregistered() -> (r: Client)
        ensures
            r.wf(),
            r.ctype() is Unregistered,
            r.pending() == Map::<MessageId, PendingRequest>::empty(),
            r.issued_ids() == Seq::<MessageId>::empty(),
            r.cache_model() == Seq::<(Seq<u8>, DataV)>::empty(),
            r.next_id() == FIRST_MSG_ID,
            r.stats() == zero_stats(),
    {
        Self::fresh_state(ClientType::Unregistered)
    }

    /// Dispatches a GET.  A cached immutable datum is answered on the
    /// spot, with nothing sent and no id spent; anything else becomes a
    /// send intent and a pending completion slot.
    pub fn get(&mut self, data_id: DataIdentifier, opt_dst: Option<Authority>) -> (r: GetStart)
        requires
            old(self).wf(),
            old(self).can_dispatch(),
        ensures
            final(self).wf(),
            final(self).ctype() == old(self).ctype(),
            final(self).stats() == (Stats {
                issued_gets: (old(self).stats().issued_gets + 1) as u64,
                ..old(self).stats()
            }),
            ({
                let m = old(self).cache_model();
                if data_id@ is Immutable && lru_has_key(m, data_id@.name()) {
                    let i = lru_index_of(m, data_id@.name());
                    &&& r matches GetStart::Cached(d) && d@ == m[i].1
                    &&& final(self).pending() == old(self).pending()
                    &&& final(self).issued_ids() == old(self).issued_ids()
                    &&& final(self).next_id() == old(self).next_id()
                    &&& final(self).cache_model() == m.remove(i).push(m[i])
                } else {
                    &&& (r matches GetStart::Send { msg_id, dst, data_id: did } && msg_id
                        == old(self).next_id() && !old(self).pending().dom().contains(msg_id)
                        && did@ == data_id@ && dst@ == (match opt_dst {
                        Some(a) => a@,
                        None => AuthorityV::NaeManager(data_id@.name()),
                    }) && final(self).pending() == old(self).pending().insert(
                        msg_id,
                        PendingRequest::Get { cache_on_success: data_id@ is Immutable },
                    ) && final(self).issued_ids() == old(self).issued_ids().push(msg_id)
                        && final(self).next_id() == msg_id + 1)
                    &&& final(self).cache_model() == m
                }
            }),
    {
        self.stats.issued_gets = self.stats.issued_gets + 1;
        if data_id.is_immutable() {
            let hit = self.cache.get(data_id.name());
            match hit {
                Some(d) => {
                    return GetStart::Cached(d);
                },
                None => {},
            }
        }
        let msg_id = self.allocate_id(
            PendingRequest::Get { cache_on_success: data_id.is_immutable() },
        );
        let dst = match opt_dst {
            Some(a) => a,
            None => Authority::NaeManager(data_id.name().clone()),
        };
        GetStart::Send { msg_id, dst, data_id }
    }

    /// Hands out the next id and records the pending request under it.
    fn allocate_id(&mut self, kind: PendingRequest) -> (r: MessageId)
        requires
            old(self).wf(),
            old(self).next_id() < MessageId::MAX,
        ensures
            final(self).wf(),
            r == old(self).next_id(),
            !old(self).pending().dom().contains(r),
            final(self).pending() == old(self).pending().insert(r, kind),
            final(self).issued_ids() == old(self).issued_ids().push(r),
            final(self).next_id() == r + 1,
            final(self).ctype() == old(self).ctype(),
            final(self).cache_model() == old(self).cache_model(),
            final(self).stats() == old(self).stats(),
    {
        let msg_id = self.next_msg_id;
        self.next_msg_id = msg_id + 1;
        self.issued = Ghost(self.issued@.push(msg_id));
        let _ = self.heads.insert(msg_id, kind);
        proof {
            let olds = old(self).issued_ids();
            let news = self.issued@;
            assert forall|i: int, j: int| 0 <= i < j < news.len() implies news[i] < news[j] by {
                if j < news.len() - 1 {
                    assert(olds[i] < olds[j]);
                } else {
                    assert(news[j] == msg_id);
                    assert(olds[i] < old(self).next_id());
                }
            }
            assert forall|i: int| 0 <= i < news.len() implies news[i] < self.next_msg_id by {
                if i < news.len() - 1 {
                    assert(olds[i] < old(self).next_id());
                }
            }
            assert forall|id: MessageId| #[trigger] self.heads@.dom().contains(id)
                implies id < self.next_msg_id by {
                if id != msg_id {
                    assert(old(self).pending().dom().contains(id));
                }
            }
        }
        msg_id
    }

    /// Dispatches a PUT.  Without a destination the client-manager
    /// address is used, which an unregistered client does not have.
    pub fn put(&mut self, data: Data, dst: Option<Authority>) -> (r: Result<
        MutationRequest,
        CoreError,
    >)
        requires
            old(self).wf(),
            old(self).can_dispatch(),
        ensures
            final(self).wf(),
            final(self).ctype() == old(self).ctype(),
            final(self).cache_model() == old(self).cache_model(),
            final(self).stats() == (Stats {
                issued_puts: (old(self).stats().issued_puts + 1) as u64,
                ..old(self).stats()
            }),
            ({
                if dst is None && old(self).ctype() is Unregistered {
                    &&& r matches Err(e) && e@ is OperationForbiddenForClient
                    &&& final(self).pending() == old(self).pending()
                    &&& final(self).issued_ids() == old(self).issued_ids()
                    &&& final(self).next_id() == old(self).next_id()
                } else {
                    r matches Ok(q) && q.msg_id == old(self).next_id() && !old(
                        self,
                    ).pending().dom().contains(q.msg_id) && q.data@ == data@ && q.dst@
                        == (match dst {
                        Some(a) => a@,
                        None => old(self).ctype().cm_addr(),
                    }) && final(self).pending() == old(self).pending().insert(
                        q.msg_id,
                        PendingRequest::Mutation,
                    ) && final(self).issued_ids() == old(self).issued_ids().push(q.msg_id)
                        && final(self).next_id() == q.msg_id + 1
                }
            }),
    {
        self.stats.issued_puts = self.stats.issued_puts + 1;
        let dst = match dst {
            Some(a) => a,
            None => match self.client_type.cm_addr() {
                Ok(a) => a.clone(),
                Err(e) => {
                    return Err(e);
                },
            },
        };
        let msg_id = self.allocate_id(PendingRequest::Mutation);
        Ok(MutationRequest { msg_id, dst, data })
    }

    /// Dispatches a POST; the default destination is the data's own
    /// name-addressed authority.
    pub fn post(&mut self, data: Data, dst: Option<Authority>) -> (r: MutationRequest)
        requires
            old(self).wf(),
            old(self).can_dispatch(),
        ensures
            final(self).wf(),
            final(self).ctype() == old(self).ctype(),
            final(self).cache_model() == old(self).cache_model(),
            final(self).stats() == (Stats {
                issued_posts: (old(self).stats().issued_posts + 1) as u64,
                ..old(self).stats()
            }),
            r.msg_id == old(self).next_id(),
            !old(self).pending().dom().contains(r.msg_id),
            r.data@ == data@,
            r.dst@ == (match dst {
                Some(a) => a@,
                None => AuthorityV::NaeManager(data@.name()),
            }),
            final(self).pending() == old(self).pending().insert(
                r.msg_id,
                PendingRequest::Mutation,
            ),
            final(self).issued_ids() == old(self).issued_ids().push(r.msg_id),
            final(self).next_id() == r.msg_id + 1,
    {
        self.stats.issued_posts = self.stats.issued_posts + 1;
        let dst = match dst {
            Some(a) => a,
            None => Authority::NaeManager(data.name().clone()),
        };
        let msg_id = self.allocate_id(PendingRequest::Mutation);
        MutationRequest { msg_id, dst, data }
    }

    /// Dispatches a DELETE; the default destination is the data's own
    /// name-addressed authority.
    pub fn delete(&mut self, data: Data, dst: Option<Authority>) -> (r: MutationRequest)
        requires
            old(self).wf(),
            old(self).can_dispatch(),
        ensures
            final(self).wf(),
            final(self).ctype() == old(self).ctype(),
            final(self).cache_model() == old(self).cache_model(),
            final(self).stats() == (Stats {
                issued_deletes: (old(self).stats().issued_deletes + 1) as u64,
                ..old(self).stats()
            }),
            r.msg_id == old(self).next_id(),
            !old(self).pending().dom().contains(r.msg_id),
            r.data@ == data@,
            r.dst@ == (match dst {
                Some(a) => a@,
                None => AuthorityV::NaeManager(data@.name()),
            }),
            final(self).pending() == old(self).pending().insert(
                r.msg_id,
                PendingRequest::Mutation,
            ),
            final(self).issued_ids() == old(self).issued_ids().push(r.msg_id),
            final(self).next_id() == r.msg_id + 1,
    {
        self.stats.issued_deletes = self.stats.issued_deletes + 1;
        let dst = match dst {
            Some(a) => a,
            None => Authority::NaeManager(data.name().clone()),
        };
        let msg_id = self.allocate_id(PendingRequest::Mutation);
        MutationRequest { msg_id, dst, data }
    }

    /// Dispatches an APPEND; the default destination is the name the
    /// wrapper appends to.
    pub fn append(&mut self, appender: AppendWrapper, dst: Option<Authority>) -> (r:
        AppendRequest)
        requires
            old(self).wf(),
            old(self).can_dispatch(),
        ensures
            final(self).wf(),
            final(self).ctype() == old(self).ctype(),
            final(self).cache_model() == old(self).cache_model(),
            final(self).stats() == (Stats {
                issued_appends: (old(self).stats().issued_appends + 1) as u64,
                ..old(self).stats()
            }),
            r.msg_id == old(self).next_id(),
            !old(self).pending().dom().contains(r.msg_id),
            r.wrapper@ == appender@,
            r.dst@ == (match dst {
                Some(a) => a@,
                None => AuthorityV::NaeManager(appender@.append_to()),
            }),
            final(self).pending() == old(self).pending().insert(
                r.msg_id,
                PendingRequest::Mutation,
            ),
            final(self).issued_ids() == old(self).issued_ids().push(r.msg_id),
            final(self).next_id() == r.msg_id + 1,
    {
        self.stats.issued_appends = self.stats.issued_appends + 1;
        let dst = match dst {
            Some(a) => a,
            None => Authority::NaeManager(appender.append_to().clone()),
        };
        let msg_id = self.allocate_id(PendingRequest::Mutation);
        AppendRequest { msg_id, dst, wrapper: appender }
    }

    /// Dispatches an account-info query.  Without a destination the
    /// client-manager address is used, which an unregistered client
    /// does not have.
    pub fn get_account_info(&mut self, dst: Option<Authority>) -> (r: Result<
        AccountInfoRequest,
        CoreError,
    >)
        requires
            old(self).wf(),
            old(self).can_dispatch(),
        ensures
            final(self).wf(),
            final(self).ctype() == old(self).ctype(),
            final(self).cache_model() == old(self).cache_model(),
            final(self).stats() == old(self).stats(),
            ({
                if dst is None && old(self).ctype() is Unregistered {
                    &&& r matches Err(e) && e@ is OperationForbiddenForClient
                    &&& final(self).pending() == old(self).pending()
                    &&& final(self).issued_ids() == old(self).issued_ids()
                    &&& final(self).next_id() == old(self).next_id()
                } else {
                    r matches Ok(q) && q.msg_id == old(self).next_id() && !old(
                        self,
                    ).pending().dom().contains(q.msg_id) && q.dst@ == (match dst {
                        Some(a) => a@,
                        None => old(self).ctype().cm_addr(),
                    }) && final(self).pending() == old(self).pending().insert(
                        q.msg_id,
                        PendingRequest::AccountInfo,
                    ) && final(self).issued_ids() == old(self).issued_ids().push(q.msg_id)
                        && final(self).next_id() == q.msg_id + 1
                }
            }),
    {
        let dst = match dst {
            Some(a) => a,
            None => match self.client_type.cm_addr() {
                Ok(a) => a.clone(),
                Err(e) => {
                    return Err(e);
                },
            },
        };
        let msg_id = self.allocate_id(PendingRequest::AccountInfo);
        Ok(AccountInfoRequest { msg_id, dst })
    }

    /// Removes the completion slot of the given message id, if any.
    pub fn remove_head(&mut self, id: &MessageId) -> (r: Option<PendingRequest>)
        requires
            old(self).wf(),
        ensures
            final(self).wf(),
            final(self).ctype() == old(self).ctype(),
            final(self).cache_model() == old(self).cache_model(),
            final(self).stats() == old(self).stats(),
            final(self).issued_ids() == old(self).issued_ids(),
            final(self).next_id() == old(self).next_id(),
            ({
                if old(self).pending().dom().contains(*id) {
                    &&& r == Some(old(self).pending()[*id])
                    &&& final(self).pending() == old(self).pending().remove(*id)
                } else {
                    &&& r is None
                    &&& final(self).pending() == old(self).pending()
                }
            }),
    {
        self.heads.remove(id)
    }

    /// Consumes one response: looks its id up in the correlation table,
    /// removes the slot, caches immutable data a cache-through GET
    /// brought back, and returns the completion.  A response nobody
    /// waits for is dropped.
    pub fn handle_response(&mut self, resp: Response) -> (r: Option<(MessageId, CoreEvent)>)
        requires
            old(self).wf(),
        ensures
            final(self).wf(),
            final(self).ctype() == old(self).ctype(),
            final(self).stats() == old(self).stats(),
            final(self).issued_ids() == old(self).issued_ids(),
            final(self).next_id() == old(self).next_id(),
            ({
                let id = resp@.id();
                if old(self).pending().dom().contains(id) {
                    let kind = old(self).pending()[id];
                    &&& r matches Some(pair) && pair.0 == id && pair.1@ == spec_event_of(resp@)
                    &&& final(self).pending() == old(self).pending().remove(id)
                    &&& ({
                        if kind == (PendingRequest::Get { cache_on_success: true }) && (resp@
                            matches ResponseV::GetSuccess(d, _) && d is Immutable) {
                            let m = old(self).cache_model();
                            let k = (match resp@ {
                                ResponseV::GetSuccess(d, _) => d.name(),
                                _ => arbitrary(),
                            });
                            let dv = (match resp@ {
                                ResponseV::GetSuccess(d, _) => d,
                                _ => arbitrary(),
                            });
                            let m2 = if lru_has_key(m, k) {
                                m.remove(lru_index_of(m, k)).push((k, dv))
                            } else {
                                m.push((k, dv))
                            };
                            final(self).cache_model() == (if m2.len() > IMMUT_DATA_CACHE_SIZE {
                                m2.drop_first()
                            } else {
                                m2
                            })
                        } else {
                            final(self).cache_model() == old(self).cache_model()
                        }
                    })
                } else {
                    &&& r is None
                    &&& final(self).pending() == old(self).pending()
                    &&& final(self).cache_model() == old(self).cache_model()
                }
            }),
    {
        let id = resp.id();
        let kind = match self.heads.remove(&id) {
            Some(k) => k,
            None => {
                return None;
            },
        };
        let cache_through = match kind {
            PendingRequest::Get { cache_on_success } => cache_on_success,
            _ => false,
        };
        if cache_through {
            match &resp {
                Response::GetSuccess(d, _) => {
                    if d.is_immutable() {
                        self.cache.insert(d.clone());
                    }
                },
                _ => {},
            }
        }
        let event = event_of_response(resp);
        Some((id, event))
    }
}


/// Everything the synchronous registration bootstrap needs: the fresh
/// account, the derived credentials, and the version-zero session
/// packet to PUT at the client-manager address.
pub struct Registration {
    pub account: Account,
    pub acc_loc: XorName,
    pub user_cred: UserCred,
    pub cm_addr: Authority,
    pub acc_packet: StructuredData,
    pub msg_id: MessageId,
}

impl Registration {
    pub open spec fn wf(self) -> bool {
        &&& account_codec_wf(self.account@)
        &&& self.acc_loc@.len() == XOR_NAME_LEN
        &&& self.cm_addr@ is ClientManager
    }
}

/// What the login bootstrap sends: a GET for the session packet at the
/// address the credentials derive.
pub struct LoginRequest {
    pub user_cred: UserCred,
    pub acc_loc: XorName,
    pub data_id: DataIdentifier,
    pub dst: Authority,
    pub msg_id: MessageId,
}

/// Builds the session packet: the encrypted account in a structured
/// datum at the account's network address, owned by the maid public
/// signing key and signed with the maid secret signing key.
fn make_session_packet(acc: &Account, acc_loc: &XorName, user_cred: &UserCred, version: u64) -> (r:
    StructuredData)
    requires
        acc@.sign_sk.len() == 32,
    ensures
        r@.type_tag == TYPE_TAG_SESSION_PACKET,
        r@.name == acc_loc@,
        r@.version == version,
        r@.data == spec_account_cipher(acc@, user_cred.password@, user_cred.pin@),
        r@.owner_keys == seq![acc@.sign_pk],
        r@.previous_owner_keys == Seq::<Seq<u8>>::empty(),
        r@.signed_by(acc@.sign_sk),
{
    let cipher = acc.encrypt(&user_cred.password, &user_cred.pin);
    let mut owners: Vec<Vec<u8>> = Vec::new();
    owners.push(clone_bytes(acc.public_sign_key()));
    assert(keys_view(owners@) =~= seq![acc@.sign_pk]);
    let prev: Vec<Vec<u8>> = Vec::new();
    assert(keys_view(prev@) =~= Seq::<Seq<u8>>::empty());
    StructuredData::new(
        TYPE_TAG_SESSION_PACKET,
        acc_loc.clone(),
        version,
        cipher,
        owners,
        prev,
        Some(acc.secret_sign_seed()),
    )
}

/// Derives the credentials, makes a fresh account, and builds the
/// version-zero session packet that registration PUTs to the network.
pub fn prepare_registration(acc_locator: &str, acc_password: &str) -> (r: Result<
    Registration,
    CoreError,
>)
    ensures
        r matches Ok(reg) ==> ({
            let lb = acc_locator.spec_bytes();
            let pb = acc_password.spec_bytes();
            &&& reg.wf()
            &&& reg.account@.wf()
            &&& reg.account@.user_root_dir is None
            &&& reg.account@.config_root_dir is None
            &&& reg.user_cred.password@ == spec_derived_password(lb, pb)
            &&& reg.user_cred.pin@ == spec_derived_pin(lb, pb)
            &&& reg.acc_loc@ == spec_network_id(
                spec_derived_keyword(lb),
                spec_derived_pin(lb, pb),
            )
            &&& reg.cm_addr@ == AuthorityV::ClientManager(sha256_of(reg.account@.sign_pk))
            &&& reg.acc_packet@.type_tag == TYPE_TAG_SESSION_PACKET
            &&& reg.acc_packet@.name == reg.acc_loc@
            &&& reg.acc_packet@.version == 0
            &&& reg.acc_packet@.data == spec_account_cipher(
                reg.account@,
                reg.user_cred.password@,
                reg.user_cred.pin@,
            )
            &&& reg.acc_packet@.owner_keys == seq![reg.account@.sign_pk]
            &&& reg.acc_packet@.previous_owner_keys == Seq::<Seq<u8>>::empty()
            &&& reg.acc_packet@.signed_by(reg.account@.sign_sk)
            &&& reg.msg_id == BOOTSTRAP_MSG_ID
        }),
        r matches Err(e) ==> e@ is RandomDataGenerationFailure,
{
    let (password, keyword, pin) = derive_secrets(acc_locator, acc_password);
    let acc = match Account::new() {
        Ok(a) => a,
        Err(e) => {
            return Err(e);
        },
    };
    let acc_loc = Account::generate_network_id(&keyword, &pin);
    let user_cred = UserCred::new(password, pin);
    let acc_packet = make_session_packet(&acc, &acc_loc, &user_cred, 0);
    let digest = sha256_hash(acc.public_sign_key());
    let cm_addr = Authority::ClientManager(XorName::from_bytes(digest));
    Ok(
        Registration {
            account: acc,
            acc_loc,
            user_cred,
            cm_addr,
            acc_packet,
            msg_id: BOOTSTRAP_MSG_ID,
        },
    )
}

/// Classifies what came back for the registration PUT: the matching
/// success, the matching failure with its parsed reason, or — for a
/// timeout or anything else — an aborted bootstrap.
pub fn complete_registration(resp: Option<Response>, msg_id: MessageId) -> (r: Result<
    (),
    CoreError,
>)
    ensures
        ({
            match resp {
                Some(rsp) => match rsp@ {
                    ResponseV::PutSuccess(_, id) => if id == msg_id {
                        r is Ok
                    } else {
                        r matches Err(e) && e@ is OperationAborted
                    },
                    ResponseV::PutFailure { id, data_id, external_error_indicator } => if id
                        == msg_id {
                        r matches Err(e) && e@ == (CoreErrorV::MutationFailure {
                            data_id,
                            reason: spec_parse_mutation_error(external_error_indicator),
                        })
                    } else {
                        r matches Err(e) && e@ is OperationAborted
                    },
                    _ => r matches Err(e) && e@ is OperationAborted,
                },
                None => r matches Err(e) && e@ is OperationAborted,
            }
        }),
{
    match resp {
        Some(Response::PutSuccess(_, id)) => {
            if id == msg_id {
                Ok(())
            } else {
                Err(CoreError::OperationAborted)
            }
        },
        Some(Response::PutFailure { id, data_id, external_error_indicator }) => {
            if id == msg_id {
                Err(
                    CoreError::MutationFailure {
                        data_id,
                        reason: crate::errors::parse_mutation_err(&external_error_indicator),
                    },
                )
            } else {
                Err(CoreError::OperationAborted)
            }
        },
        _ => Err(CoreError::OperationAborted),
    }
}

/// Derives the credentials and names the session packet to fetch.
pub fn prepare_login(acc_locator: &str, acc_password: &str) -> (r: LoginRequest)
    ensures
        ({
            let lb = acc_locator.spec_bytes();
            let pb = acc_password.spec_bytes();
            &&& r.user_cred.password@ == spec_derived_password(lb, pb)
            &&& r.user_cred.pin@ == spec_derived_pin(lb, pb)
            &&& r.acc_loc@ == spec_network_id(spec_derived_keyword(lb), spec_derived_pin(lb, pb))
            &&& r.acc_loc@.len() == XOR_NAME_LEN
            &&& r.data_id@ == DataIdV::Structured(r.acc_loc@, TYPE_TAG_SESSION_PACKET)
            &&& r.dst@ == AuthorityV::NaeManager(r.acc_loc@)
            &&& r.msg_id == BOOTSTRAP_MSG_ID
        }),
{
    let (password, keyword, pin) = derive_secrets(acc_locator, acc_password);
    let acc_loc = Account::generate_network_id(&keyword, &pin);
    let user_cred = UserCred::new(password, pin);
    let data_id = DataIdentifier::Structured(acc_loc.clone(), TYPE_TAG_SESSION_PACKET);
    let dst = Authority::NaeManager(acc_loc.clone());
    LoginRequest { user_cred, acc_loc, data_id, dst, msg_id: BOOTSTRAP_MSG_ID }
}

/// Classifies what came back for the session-packet GET: the matching
/// structured datum, the matching failure with its parsed reason, or —
/// for a timeout, other data, or anything else — an aborted bootstrap.
pub fn complete_session_packet_get(resp: Option<Response>, msg_id: MessageId) -> (r: Result<
    StructuredData,
    CoreError,
>)
    ensures
        ({
            match resp {
                Some(rsp) => match rsp@ {
                    ResponseV::GetSuccess(d, id) => if id == msg_id && d is Structured {
                        r matches Ok(sd) && DataV::Structured(sd@) == d
                    } else {
                        r matches Err(e) && e@ is OperationAborted
                    },
                    ResponseV::GetFailure { id, data_id, external_error_indicator } => if id
                        == msg_id {
                        r matches Err(e) && e@ == (CoreErrorV::GetFailure {
                            data_id,
                            reason: spec_parse_get_error(external_error_indicator),
                        })
                    } else {
                        r matches Err(e) && e@ is OperationAborted
                    },
                    _ => r matches Err(e) && e@ is OperationAborted,
                },
                None => r matches Err(e) && e@ is OperationAborted,
            }
        }),
{
    match resp {
        Some(Response::GetSuccess(Data::Structured(sd), id)) => {
            if id == msg_id {
                Ok(sd)
            } else {
                Err(CoreError::OperationAborted)
            }
        },
        Some(Response::GetFailure { id, data_id, external_error_indicator }) => {
            if id == msg_id {
                Err(
                    CoreError::GetFailure {
                        data_id,
                        reason: crate::errors::parse_get_err(&external_error_indicator),
                    },
                )
            } else {
                Err(CoreError::OperationAborted)
            }
        },
        _ => Err(CoreError::OperationAborted),
    }
}

impl Client {
    /// A client for a freshly created account.
    pub fn registered(reg: Registration) -> (r: Client)
        requires
            reg.wf(),
        ensures
            r.wf(),
            r.ctype() == (ClientTypeV::Registered {
                acc: reg.account@,
                acc_loc: reg.acc_loc@,
                password: reg.user_cred.password@,
                pin: reg.user_cred.pin@,
                cm_addr: reg.cm_addr@,
            }),
            r.pending() == Map::<MessageId, PendingRequest>::empty(),
            r.issued_ids() == Seq::<MessageId>::empty(),
            r.cache_model() == Seq::<(Seq<u8>, DataV)>::empty(),
            r.next_id() == FIRST_MSG_ID,
            r.stats() == zero_stats(),
    {
        Self::fresh_state(ClientType::reg(reg.account, reg.acc_loc, reg.user_cred, reg.cm_addr))
    }

    /// A client for an account recovered from the network.
    pub fn login(acc: Account, acc_loc: XorName, user_cred: UserCred) -> (r: Client)
        requires
            account_codec_wf(acc@),
            acc_loc@.len() == XOR_NAME_LEN,
        ensures
            r.wf(),
            r.ctype() == (ClientTypeV::Registered {
                acc: acc@,
                acc_loc: acc_loc@,
                password: user_cred.password@,
                pin: user_cred.pin@,
                cm_addr: AuthorityV::ClientManager(sha256_of(acc@.sign_pk)),
            }),
            r.pending() == Map::<MessageId, PendingRequest>::empty(),
            r.issued_ids() == Seq::<MessageId>::empty(),
            r.cache_model() == Seq::<(Seq<u8>, DataV)>::empty(),
            r.next_id() == FIRST_MSG_ID,
            r.stats() == zero_stats(),
    {
        let digest = sha256_hash(acc.public_sign_key());
        let cm_addr = Authority::ClientManager(XorName::from_bytes(digest));
        Self::fresh_state(ClientType::reg(acc, acc_loc, user_cred, cm_addr))
    }

    /// The identifier of this client's session packet.
    pub fn session_packet_id(&self) -> (r: Result<DataIdentifier, CoreError>)
        ensures
            match self.ctype() {
                ClientTypeV::Registered { .. } => r matches Ok(d) && d@ == DataIdV::Structured(
                    self.ctype().acc_loc(),
                    TYPE_TAG_SESSION_PACKET,
                ),
                ClientTypeV::Unregistered => r matches Err(e) && e@
                    is OperationForbiddenForClient,
            },
    {
        match self.client_type.acc_loc() {
            Ok(n) => Ok(DataIdentifier::Structured(n, TYPE_TAG_SESSION_PACKET)),
            Err(e) => Err(e),
        }
    }

    /// Builds the next session packet from the fetched one: same
    /// address, the version right after the fetched version, the
    /// current in-memory account re-encrypted, signed anew.
    pub fn build_session_packet_update(&self, current: &StructuredData) -> (r: Result<
        StructuredData,
        CoreError,
    >)
        requires
            self.wf(),
            current@.version < u64::MAX,
        ensures
            match self.ctype() {
                ClientTypeV::Registered { acc, acc_loc, password, pin, .. } => r matches Ok(sd)
                    && sd@.type_tag == TYPE_TAG_SESSION_PACKET && sd@.name == acc_loc
                    && sd@.version == current@.version + 1 && sd@.data == spec_account_cipher(
                    acc,
                    password,
                    pin,
                ) && sd@.owner_keys == seq![acc.sign_pk] && sd@.previous_owner_keys == Seq::<
                    Seq<u8>,
                >::empty() && sd@.signed_by(acc.sign_sk),
                ClientTypeV::Unregistered => r matches Err(e) && e@
                    is OperationForbiddenForClient,
            },
    {
        match &self.client_type {
            ClientType::Unregistered => Err(CoreError::OperationForbiddenForClient),
            ClientType::Registered { acc, acc_loc, user_cred, .. } => Ok(
                make_session_packet(acc, acc_loc, user_cred, current.get_version() + 1),
            ),
        }
    }

    /// Fills the account's user root-directory slot; the slot can be
    /// set once.  The caller then refreshes the session packet on the
    /// network.
    pub fn set_user_root_dir_id(&mut self, dir_id: (DataIdentifier, Option<Vec<u8>>)) -> (r:
        Result<(), CoreError>)
        requires
            old(self).wf(),
            crate::account::dir_id_wf(dir_id_view(dir_id)),
        ensures
            final(self).wf(),
            final(self).pending() == old(self).pending(),
            final(self).issued_ids() == old(self).issued_ids(),
            final(self).next_id() == old(self).next_id(),
            final(self).stats() == old(self).stats(),
            final(self).cache_model() == old(self).cache_model(),
            ({
                match old(self).ctype() {
                    ClientTypeV::Unregistered => (r matches Err(e) && e@
                        is OperationForbiddenForClient) && final(self).ctype() == old(
                        self,
                    ).ctype(),
                    ClientTypeV::Registered { acc, acc_loc, password, pin, cm_addr } => {
                        if acc.user_root_dir is None {
                            &&& r is Ok
                            &&& final(self).ctype() == (ClientTypeV::Registered {
                                acc: AccountV {
                                    user_root_dir: Some(dir_id_view(dir_id)),
                                    ..acc
                                },
                                acc_loc,
                                password,
                                pin,
                                cm_addr,
                            })
                        } else {
                            &&& r matches Err(e) && e@ is RootDirectoryAlreadyExists
                            &&& final(self).ctype() == old(self).ctype()
                        }
                    },
                }
            }),
    {
        let set = match &mut self.client_type {
            ClientType::Unregistered => {
                return Err(CoreError::OperationForbiddenForClient);
            },
            ClientType::Registered { acc, .. } => acc.set_user_root_dir_id(dir_id),
        };
        if set {
            Ok(())
        } else {
            Err(CoreError::RootDirectoryAlreadyExists)
        }
    }

    /// Fills the account's configuration root-directory slot; the slot
    /// can be set once.  The caller then refreshes the session packet
    /// on the network.
    pub fn set_config_root_dir_id(&mut self, dir_id: (DataIdentifier, Option<Vec<u8>>)) -> (r:
        Result<(), CoreError>)
        requires
            old(self).wf(),
            crate::account::dir_id_wf(dir_id_view(dir_id)),
        ensures
            final(self).wf(),
            final(self).pending() == old(self).pending(),
            final(self).issued_ids() == old(self).issued_ids(),
            final(self).next_id() == old(self).next_id(),
            final(self).stats() == old(self).stats(),
            final(self).cache_model() == old(self).cache_model(),
            ({
                match old(self).ctype() {
                    ClientTypeV::Unregistered => (r matches Err(e) && e@
                        is OperationForbiddenForClient) && final(self).ctype() == old(
                        self,
                    ).ctype(),
                    ClientTypeV::Registered { acc, acc_loc, password, pin, cm_addr } => {
                        if acc.config_root_dir is None {
                            &&& r is Ok
                            &&& final(self).ctype() == (ClientTypeV::Registered {
                                acc: AccountV {
                                    config_root_dir: Some(dir_id_view(dir_id)),
                                    ..acc
                                },
                                acc_loc,
                                password,
                                pin,
                                cm_addr,
                            })
                        } else {
                            &&& r matches Err(e) && e@ is RootDirectoryAlreadyExists
                            &&& final(self).ctype() == old(self).ctype()
                        }
                    },
                }
            }),
    {
        let set = match &mut self.client_type {
            ClientType::Unregistered => {
                return Err(CoreError::OperationForbiddenForClient);
            },
            ClientType::Registered { acc, .. } => acc.set_config_root_dir(dir_id),
        };
        if set {
            Ok(())
        } else {
            Err(CoreError::RootDirectoryAlreadyExists)
        }
    }

    /// The user root-directory id of the session, when one is set.
    pub fn user_root_dir_id(&self) -> (r: Option<(DataIdentifier, Option<Vec<u8>>)>)
        ensures
            match self.ctype() {
                ClientTypeV::Unregistered => r is None,
                ClientTypeV::Registered { acc, .. } => opt_dir_id_view(r) == acc.user_root_dir,
            },
    {
        match &self.client_type {
            ClientType::Unregistered => None,
            ClientType::Registered { acc, .. } => clone_opt_dir_id(acc.user_root_dir()),
        }
    }

    /// The configuration root-directory id of the session, when one is
    /// set.
    pub fn config_root_dir_id(&self) -> (r: Option<(DataIdentifier, Option<Vec<u8>>)>)
        ensures
            match self.ctype() {
                ClientTypeV::Unregistered => r is None,
                ClientTypeV::Registered { acc, .. } => opt_dir_id_view(r)
                    == acc.config_root_dir,
            },
    {
        match &self.client_type {
            ClientType::Unregistered => None,
            ClientType::Registered { acc, .. } => clone_opt_dir_id(acc.config_root_dir()),
        }
    }

    /// The public maid signing key.
    pub fn public_signing_key(&self) -> (r: Result<Vec<u8>, CoreError>)
        ensures
            match self.ctype() {
                ClientTypeV::Registered { acc, .. } => r matches Ok(k) && k@ == acc.sign_pk,
                ClientTypeV::Unregistered => r matches Err(e) && e@
                    is OperationForbiddenForClient,
            },
    {
        match self.client_type.acc() {
            Ok(acc) => Ok(clone_bytes(acc.public_sign_key())),
            Err(e) => Err(e),
        }
    }

    /// The seed of the maid secret signing key.
    pub fn secret_signing_key(&self) -> (r: Result<Vec<u8>, CoreError>)
        ensures
            match self.ctype() {
                ClientTypeV::Registered { acc, .. } => r matches Ok(k) && k@ == acc.sign_sk,
                ClientTypeV::Unregistered => r matches Err(e) && e@
                    is OperationForbiddenForClient,
            },
    {
        match self.client_type.acc() {
            Ok(acc) => Ok(clone_bytes(acc.secret_sign_seed())),
            Err(e) => Err(e),
        }
    }

    /// The public maid encryption key.
    pub fn public_encryption_key(&self) -> (r: Result<Vec<u8>, CoreError>)
        ensures
            match self.ctype() {
                ClientTypeV::Registered { acc, .. } => r matches Ok(k) && k@ == acc.box_pk,
                ClientTypeV::Unregistered => r matches Err(e) && e@
                    is OperationForbiddenForClient,
            },
    {
        match self.client_type.acc() {
            Ok(acc) => Ok(clone_bytes(acc.public_box_key())),
            Err(e) => Err(e),
        }
    }

    /// The secret maid encryption key.
    pub fn secret_encryption_key(&self) -> (r: Result<Vec<u8>, CoreError>)
        ensures
            match self.ctype() {
                ClientTypeV::Registered { acc, .. } => r matches Ok(k) && k@ == acc.box_sk,
                ClientTypeV::Unregistered => r matches Err(e) && e@
                    is OperationForbiddenForClient,
            },
    {
        match self.client_type.acc() {
            Ok(acc) => Ok(clone_bytes(acc.secret_box_key())),
            Err(e) => Err(e),
        }
    }

    /// How many GETs were dispatched.
    pub fn issued_gets(&self) -> (r: u64)
        ensures
            r == self.stats().issued_gets,
    {
        self.stats.issued_gets
    }

    /// How many PUTs were dispatched.
    pub fn issued_puts(&self) -> (r: u64)
        ensures
            r == self.stats().issued_puts,
    {
        self.stats.issued_puts
    }

    /// How many POSTs were dispatched.
    pub fn issued_posts(&self) -> (r: u64)
        ensures
            r == self.stats().issued_posts,
    {
        self.stats.issued_posts
    }

    /// How many DELETEs were dispatched.
    pub fn issued_deletes(&self) -> (r: u64)
        ensures
            r == self.stats().issued_deletes,
    {
        self.stats.issued_deletes
    }

    /// How many APPENDs were dispatched.
    pub fn issued_appends(&self) -> (r: u64)
        ensures
            r == self.stats().issued_appends,
    {
        self.stats.issued_appends
    }
}

/// Copies a root-directory id out of the account.
fn clone_opt_dir_id(d: &Option<(DataIdentifier, Option<Vec<u8>>)>) -> (r: Option<
    (DataIdentifier, Option<Vec<u8>>),
>)
    ensures
        opt_dir_id_view(r) == opt_dir_id_view(*d),
{
    match d {
        None => None,
        Some(dir) => {
            let key = match &dir.1 {
                Some(k) => Some(clone_bytes(k)),
                None => None,
            };
            Some((dir.0.clone(), key))
        },
    }
}

/// Law: any two distinct dispatched requests carry distinct message
/// ids — the id sequence a well-formed client has issued never repeats.
pub proof fn lemma_message_ids_distinct(c: Client, i: int, j: int)
    requires
        c.wf(),
        0 <= i < c.issued_ids().len(),
        0 <= j < c.issued_ids().len(),
        i != j,
    ensures
        c.issued_ids()[i] != c.issued_ids()[j],
{
    if i < j {
        assert(c.issued_ids()[i] < c.issued_ids()[j]);
    } else {
        assert(c.issued_ids()[j] < c.issued_ids()[i]);
    }
}

} // verus!
