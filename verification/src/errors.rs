//! Error taxonomy, and the wire form of the error indicators that
//! responses carry.
//!
//! Failure responses from the network hold an opaque byte string that
//! serializes a get or mutation error.  The codec here defines that wire
//! form exactly: `parse_mutation_err` and `parse_get_err` recover the
//! error an indicator encodes and fall back to `NetworkOther` on bytes
//! they do not understand.

use vstd::prelude::*;

use crate::types::{clone_bytes, DataIdV, DataIdentifier};

verus! {

/// Reason a GET failed on the network side.
#[derive(PartialEq, Eq, Debug)]
pub enum GetError {
    NoSuchAccount,
    NoSuchData,
    NetworkOther(Vec<u8>),
}

/// Mathematical model of a `GetError`.
pub enum GetErrorV {
    NoSuchAccount,
    NoSuchData,
    NetworkOther(Seq<u8>),
}

impl View for GetError {
    type V = GetErrorV;

    open spec fn view(&self) -> GetErrorV {
        match self {
            GetError::NoSuchAccount => GetErrorV::NoSuchAccount,
            GetError::NoSuchData => GetErrorV::NoSuchData,
            GetError::NetworkOther(m) => GetErrorV::NetworkOther(m@),
        }
    }
}

impl Clone for GetError {
    fn clone(&self) -> (r: Self)
        ensures
            r@ == self@,
    {
        match self {
            GetError::NoSuchAccount => GetError::NoSuchAccount,
            GetError::NoSuchData => GetError::NoSuchData,
            GetError::NetworkOther(m) => GetError::NetworkOther(clone_bytes(m)),
        }
    }
}

/// Reason a mutation (put, post, delete, append) failed on the network side.
#[derive(PartialEq, Eq, Debug)]
pub enum MutationError {
    NoSuchAccount,
    NoSuchData,
    AccountExists,
    DataExists,
    DataTooLarge,
    InvalidSuccessor,
    InvalidOperation,
    LowBalance,
    NetworkFull,
    NetworkOther(Vec<u8>),
}

/// Mathematical model of a `MutationError`.
pub enum MutationErrorV {
    NoSuchAccount,
    NoSuchData,
    AccountExists,
    DataExists,
    DataTooLarge,
    InvalidSuccessor,
    InvalidOperation,
    LowBalance,
    NetworkFull,
    NetworkOther(Seq<u8>),
}

impl View for MutationError {
    type V = MutationErrorV;

    open spec fn view(&self) -> MutationErrorV {
        match self {
            MutationError::NoSuchAccount => MutationErrorV::NoSuchAccount,
            MutationError::NoSuchData => MutationErrorV::NoSuchData,
            MutationError::AccountExists => MutationErrorV::AccountExists,
            MutationError::DataExists => MutationErrorV::DataExists,
            MutationError::DataTooLarge => MutationErrorV::DataTooLarge,
            MutationError::InvalidSuccessor => MutationErrorV::InvalidSuccessor,
            MutationError::InvalidOperation => MutationErrorV::InvalidOperation,
            MutationError::LowBalance => MutationErrorV::LowBalance,
            MutationError::NetworkFull => MutationErrorV::NetworkFull,
            MutationError::NetworkOther(m) => MutationErrorV::NetworkOther(m@),
        }
    }
}

impl Clone for MutationError {
    fn clone(&self) -> (r: Self)
        ensures
            r@ == self@,
    {
        match self {
            MutationError::NoSuchAccount => MutationError::NoSuchAccount,
            MutationError::NoSuchData => MutationError::NoSuchData,
            MutationError::AccountExists => MutationError::AccountExists,
            MutationError::DataExists => MutationError::DataExists,
            MutationError::DataTooLarge => MutationError::DataTooLarge,
            MutationError::InvalidSuccessor => MutationError::InvalidSuccessor,
            MutationError::InvalidOperation => MutationError::InvalidOperation,
            MutationError::LowBalance => MutationError::LowBalance,
            MutationError::NetworkFull => MutationError::NetworkFull,
            MutationError::NetworkOther(m) => MutationError::NetworkOther(clone_bytes(m)),
        }
    }
}

/// Every failure the client can hand its caller.
#[derive(PartialEq, Eq, Debug)]
pub enum CoreError {
    /// Bootstrap timed out, a completion was dropped, or an unexpected
    /// bootstrap event arrived.
    OperationAborted,
    /// An account-requiring call was made on an unregistered client.
    OperationForbiddenForClient,
    /// A completion resolved with an event of the wrong kind.
    ReceivedUnexpectedEvent,
    /// A response carried data of an unexpected type.
    ReceivedUnexpectedData,
    /// A root-directory slot was already populated.
    RootDirectoryAlreadyExists,
    /// A GET failed on the network side.
    GetFailure { data_id: DataIdentifier, reason: GetError },
    /// A mutation failed on the network side.
    MutationFailure { data_id: DataIdentifier, reason: MutationError },
    /// An account-info query failed on the network side.
    GetAccountInfoFailure { reason: GetError },
    /// Authenticated decryption of the session packet failed.
    SymmetricDecipherFailure,
    /// A serialized value could not be decoded.
    EncodeDecodeError,
    /// The system's source of randomness failed.
    RandomDataGenerationFailure,
}

/// Mathematical model of a `CoreError`.
pub enum CoreErrorV {
    OperationAborted,
    OperationForbiddenForClient,
    ReceivedUnexpectedEvent,
    ReceivedUnexpectedData,
    RootDirectoryAlreadyExists,
    GetFailure { data_id: DataIdV, reason: GetErrorV },
    MutationFailure { data_id: DataIdV, reason: MutationErrorV },
    GetAccountInfoFailure { reason: GetErrorV },
    SymmetricDecipherFailure,
    EncodeDecodeError,
    RandomDataGenerationFailure,
}

impl View for CoreError {
    type V = CoreErrorV;

    open spec fn view(&self) -> CoreErrorV {
        match self {
            CoreError::OperationAborted => CoreErrorV::OperationAborted,
            CoreError::OperationForbiddenForClient => CoreErrorV::OperationForbiddenForClient,
            CoreError::ReceivedUnexpectedEvent => CoreErrorV::ReceivedUnexpectedEvent,
            CoreError::ReceivedUnexpectedData => CoreErrorV::ReceivedUnexpectedData,
            CoreError::RootDirectoryAlreadyExists => CoreErrorV::RootDirectoryAlreadyExists,
            CoreError::GetFailure { data_id, reason } => CoreErrorV::GetFailure {
                data_id: data_id@,
                reason: reason@,
            },
            CoreError::MutationFailure { data_id, reason } => CoreErrorV::MutationFailure {
                data_id: data_id@,
                reason: reason@,
            },
            CoreError::GetAccountInfoFailure { reason } => CoreErrorV::GetAccountInfoFailure {
                reason: reason@,
            },
            CoreError::SymmetricDecipherFailure => CoreErrorV::SymmetricDecipherFailure,
            CoreError::EncodeDecodeError => CoreErrorV::EncodeDecodeError,
            CoreError::RandomDataGenerationFailure => CoreErrorV::RandomDataGenerationFailure,
        }
    }
}

impl Clone for CoreError {
    fn clone(&self) -> (r: Self)
        ensures
            r@ == self@,
    {
        match self {
            CoreError::OperationAborted => CoreError::OperationAborted,
            CoreError::OperationForbiddenForClient => CoreError::OperationForbiddenForClient,
            CoreError::ReceivedUnexpectedEvent => CoreError::ReceivedUnexpectedEvent,
            CoreError::ReceivedUnexpectedData => CoreError::ReceivedUnexpectedData,
            CoreError::RootDirectoryAlreadyExists => CoreError::RootDirectoryAlreadyExists,
            CoreError::GetFailure { data_id, reason } => CoreError::GetFailure {
                data_id: data_id.clone(),
                reason: reason.clone(),
            },
            CoreError::MutationFailure { data_id, reason } => CoreError::MutationFailure {
                data_id: data_id.clone(),
                reason: reason.clone(),
            },
            CoreError::GetAccountInfoFailure { reason } => CoreError::GetAccountInfoFailure {
                reason: reason.clone(),
            },
            CoreError::SymmetricDecipherFailure => CoreError::SymmetricDecipherFailure,
            CoreError::EncodeDecodeError => CoreError::EncodeDecodeError,
            CoreError::RandomDataGenerationFailure => CoreError::RandomDataGenerationFailure,
        }
    }
}

/// Wire form of a mutation error: a tag byte, and for `NetworkOther`
/// the message bytes after the tag.
pub open spec fn spec_encode_mutation_error(e: MutationErrorV) -> Seq<u8> {
    match e {
        MutationErrorV::NoSuchAccount => seq![0u8],
        MutationErrorV::NoSuchData => seq![1u8],
        MutationErrorV::AccountExists => seq![2u8],
        MutationErrorV::DataExists => seq![3u8],
        MutationErrorV::DataTooLarge => seq![4u8],
        MutationErrorV::InvalidSuccessor => seq![5u8],
        MutationErrorV::InvalidOperation => seq![6u8],
        MutationErrorV::LowBalance => seq![7u8],
        MutationErrorV::NetworkFull => seq![8u8],
        MutationErrorV::NetworkOther(m) => seq![9u8] + m,
    }
}

/// Meaning of a mutation-error indicator.  Bytes that no error encodes
/// fall back to `NetworkOther` carrying the whole indicator.
pub open spec fn spec_parse_mutation_error(b: Seq<u8>) -> MutationErrorV {
    if b.len() == 1 && b[0] == 0 {
        MutationErrorV::NoSuchAccount
    } else if b.len() == 1 && b[0] == 1 {
        MutationErrorV::NoSuchData
    } else if b.len() == 1 && b[0] == 2 {
        MutationErrorV::AccountExists
    } else if b.len() == 1 && b[0] == 3 {
        MutationErrorV::DataExists
    } else if b.len() == 1 && b[0] == 4 {
        MutationErrorV::DataTooLarge
    } else if b.len() == 1 && b[0] == 5 {
        MutationErrorV::InvalidSuccessor
    } else if b.len() == 1 && b[0] == 6 {
        MutationErrorV::InvalidOperation
    } else if b.len() == 1 && b[0] == 7 {
        MutationErrorV::LowBalance
    } else if b.len() == 1 && b[0] == 8 {
        MutationErrorV::NetworkFull
    } else if b.len() >= 1 && b[0] == 9 {
        MutationErrorV::NetworkOther(b.drop_first())
    } else {
        MutationErrorV::NetworkOther(b)
    }
}

/// Parsing recovers every mutation error from its wire form.
pub proof fn lemma_mutation_error_round_trip(e: MutationErrorV)
    ensures
        spec_parse_mutation_error(spec_encode_mutation_error(e)) == e,
{
    match e {
        MutationErrorV::NetworkOther(m) => {
            assert((seq![9u8] + m).drop_first() =~= m);
        },
        _ => {},
    }
}

/// Wire form of a get error: a tag byte, and for `NetworkOther` the
/// message bytes after the tag.
pub open spec fn spec_encode_get_error(e: GetErrorV) -> Seq<u8> {
    match e {
        GetErrorV::NoSuchAccount => seq![0u8],
        GetErrorV::NoSuchData => seq![1u8],
        GetErrorV::NetworkOther(m) => seq![2u8] + m,
    }
}

/// Meaning of a get-error indicator, with the same fallback as for
/// mutation errors.
pub open spec fn spec_parse_get_error(b: Seq<u8>) -> GetErrorV {
    if b.len() == 1 && b[0] == 0 {
        GetErrorV::NoSuchAccount
    } else if b.len() == 1 && b[0] == 1 {
        GetErrorV::NoSuchData
    } else if b.len() >= 1 && b[0] == 2 {
        GetErrorV::NetworkOther(b.drop_first())
    } else {
        GetErrorV::NetworkOther(b)
    }
}

/// Parsing recovers every get error from its wire form.
pub proof fn lemma_get_error_round_trip(e: GetErrorV)
    ensures
        spec_parse_get_error(spec_encode_get_error(e)) == e,
{
    match e {
        GetErrorV::NetworkOther(m) => {
            assert((seq![2u8] + m).drop_first() =~= m);
        },
        _ => {},
    }
}

/// Serializes a mutation error to its wire form.
pub fn encode_mutation_error(e: &MutationError) -> (r: Vec<u8>)
    ensures
        r@ == spec_encode_mutation_error(e@),
{
    let mut r: Vec<u8> = Vec::new();
    match e {
        MutationError::NoSuchAccount => r.push(0),
        MutationError::NoSuchData => r.push(1),
        MutationError::AccountExists => r.push(2),
        MutationError::DataExists => r.push(3),
        MutationError::DataTooLarge => r.push(4),
        MutationError::InvalidSuccessor => r.push(5),
        MutationError::InvalidOperation => r.push(6),
        MutationError::LowBalance => r.push(7),
        MutationError::NetworkFull => r.push(8),
        MutationError::NetworkOther(m) => {
            r.push(9);
            push_bytes(&mut r, m);
        },
    }
    assert(r@ =~= spec_encode_mutation_error(e@));
    r
}

/// Serializes a get error to its wire form.
pub fn encode_get_error(e: &GetError) -> (r: Vec<u8>)
    ensures
        r@ == spec_encode_get_error(e@),
{
    let mut r: Vec<u8> = Vec::new();
    match e {
        GetError::NoSuchAccount => r.push(0),
        GetError::NoSuchData => r.push(1),
        GetError::NetworkOther(m) => {
            r.push(2);
            push_bytes(&mut r, m);
        },
    }
    assert(r@ =~= spec_encode_get_error(e@));
    r
}

/// Recovers the mutation error that an indicator encodes.
pub fn parse_mutation_err(b: &Vec<u8>) -> (r: MutationError)
    ensures
        r@ == spec_parse_mutation_error(b@),
{
    if b.len() == 1 {
        let t = b[0];
        if t == 0 {
            return MutationError::NoSuchAccount;
        }
        if t == 1 {
            return MutationError::NoSuchData;
        }
        if t == 2 {
            return MutationError::AccountExists;
        }
        if t == 3 {
            return MutationError::DataExists;
        }
        if t == 4 {
            return MutationError::DataTooLarge;
        }
        if t == 5 {
            return MutationError::InvalidSuccessor;
        }
        if t == 6 {
            return MutationError::InvalidOperation;
        }
        if t == 7 {
            return MutationError::LowBalance;
        }
        if t == 8 {
            return MutationError::NetworkFull;
        }
    }
    if b.len() >= 1 && b[0] == 9 {
        let tail = tail_bytes(b);
        return MutationError::NetworkOther(tail);
    }
    MutationError::NetworkOther(clone_bytes(b))
}

/// Recovers the get error that an indicator encodes.
pub fn parse_get_err(b: &Vec<u8>) -> (r: GetError)
    ensures
        r@ == spec_parse_get_error(b@),
{
    if b.len() == 1 {
        let t = b[0];
        if t == 0 {
            return GetError::NoSuchAccount;
        }
        if t == 1 {
            return GetError::NoSuchData;
        }
    }
    if b.len() >= 1 && b[0] == 2 {
        let tail = tail_bytes(b);
        return GetError::NetworkOther(tail);
    }
    GetError::NetworkOther(clone_bytes(b))
}

/// Appends a copy of `src` to `dst`.
pub fn push_bytes(dst: &mut Vec<u8>, src: &Vec<u8>)
    ensures
        final(dst)@ == old(dst)@ + src@,
{
    let n = src.len();
    let mut i: usize = 0;
    while i < n
        invariant
            i <= n,
            n == src@.len(),
            dst@ == old(dst)@ + src@.subrange(0, i as int),
        decreases n - i,
    {
        dst.push(src[i]);
        assert(dst@ =~= old(dst)@ + src@.subrange(0, i + 1));
        i += 1;
    }
    assert(dst@ =~= old(dst)@ + src@);
}

/// Copies all bytes of `src` after the first.
fn tail_bytes(src: &Vec<u8>) -> (r: Vec<u8>)
    requires
        src@.len() >= 1,
    ensures
        r@ == src@.drop_first(),
{
    let n = src.len();
    let mut r: Vec<u8> = Vec::new();
    let mut i: usize = 1;
    while i < n
        invariant
            1 <= i <= n,
            n == src@.len(),
            r@ == src@.subrange(1, i as int),
        decreases n - i,
    {
        r.push(src[i]);
        assert(r@ =~= src@.subrange(1, i + 1));
        i += 1;
    }
    assert(r@ =~= src@.drop_first());
    r
}

} // verus!
