//! Connection protocol state: which requests are awaiting a response, and
//! what each response means for its request.
//!
//! A send returns a request id at once. The response arrives later, as an
//! op that carries the same id; nothing orders the responses of different
//! requests. A caller abandons a request by no longer tracking its id, and a
//! response that arrives for an id that is not tracked is tolerated.

use crate::worker::op::WorkerOp;
use crate::worker::{RequestId, RetryPolicy, StatusCode};
use vstd::prelude::*;

verus! {

/// The network stacks that a connection can run on.
#[derive(Clone, Copy, Debug, PartialEq, Eq, Structural)]
pub enum NetworkConnectionType {
    /// (deprecated) TCP.
    Tcp,
    /// (deprecated) RakNet.
    RakNet,
    /// (deprecated) KCP.
    Kcp,
    /// The modular KCP stack.
    ModularKcp,
    /// The modular TCP stack.
    ModularTcp,
}

impl NetworkConnectionType {
    /// The byte that stands for the variant on the wire.
    pub open spec fn code(self) -> u8 {
        match self {
            NetworkConnectionType::Tcp => 0,
            NetworkConnectionType::RakNet => 1,
            NetworkConnectionType::Kcp => 2,
            NetworkConnectionType::ModularKcp => 3,
            NetworkConnectionType::ModularTcp => 4,
        }
    }

    /// The variant that a wire byte stands for, if it stands for one.
    pub open spec fn of_code(code: u8) -> Option<Self> {
        if code == 0 {
            Some(NetworkConnectionType::Tcp)
        } else if code == 1 {
            Some(NetworkConnectionType::RakNet)
        } else if code == 2 {
            Some(NetworkConnectionType::Kcp)
        } else if code == 3 {
            Some(NetworkConnectionType::ModularKcp)
        } else if code == 4 {
            Some(NetworkConnectionType::ModularTcp)
        } else {
            None
        }
    }

    /// Reads a wire byte. Bytes that stand for no variant give `None`.
    pub fn from_u8(code: u8) -> (r: Option<Self>)
        ensures
            r == Self::of_code(code),
    {
        match code {
            0 => Some(NetworkConnectionType::Tcp),
            1 => Some(NetworkConnectionType::RakNet),
            2 => Some(NetworkConnectionType::Kcp),
            3 => Some(NetworkConnectionType::ModularKcp),
            4 => Some(NetworkConnectionType::ModularTcp),
            _ => None,
        }
    }

    /// The wire byte of the variant.
    pub fn to_u8(self) -> (code: u8)
        ensures
            code == self.code(),
            Self::of_code(code) == Some(self),
    {
        match self {
            NetworkConnectionType::Tcp => 0,
            NetworkConnectionType::RakNet => 1,
            NetworkConnectionType::Kcp => 2,
            NetworkConnectionType::ModularKcp => 3,
            NetworkConnectionType::ModularTcp => 4,
        }
    }
}

/// The network security types.
#[derive(Clone, Copy, Debug, PartialEq, Eq, Structural)]
pub enum NetworkSecurityType {
    /// No encryption or security. Only safe in trusted environments.
    Insecure,
    /// DTLS or TLS, as fits the transport.
    Tls,
}

impl NetworkSecurityType {
    /// The byte that stands for the variant on the wire.
    pub open spec fn code(self) -> u8 {
        match self {
            NetworkSecurityType::Insecure => 0,
            NetworkSecurityType::Tls => 1,
        }
    }

    /// The variant that a wire byte stands for, if it stands for one.
    pub open spec fn of_code(code: u8) -> Option<Self> {
        if code == 0 {
            Some(NetworkSecurityType::Insecure)
        } else if code == 1 {
            Some(NetworkSecurityType::Tls)
        } else {
            None
        }
    }

    /// Reads a wire byte. Bytes that stand for no variant give `None`.
    pub fn from_u8(code: u8) -> (r: Option<Self>)
        ensures
            r == Self::of_code(code),
    {
        match code {
            0 => Some(NetworkSecurityType::Insecure),
            1 => Some(NetworkSecurityType::Tls),
            _ => None,
        }
    }

    /// The wire byte of the variant.
    pub fn to_u8(self) -> (code: u8)
        ensures
            code == self.code(),
            Self::of_code(code) == Some(self),
    {
        match self {
            NetworkSecurityType::Insecure => 0,
            NetworkSecurityType::Tls => 1,
        }
    }
}

/// The request id that a send returns when the request was rejected locally,
/// before anything went over the wire.
pub const REJECTED_REQUEST_ID: RequestId = -1;

/// The kinds of request that are answered by a response op.
#[derive(Clone, Copy, Debug, PartialEq, Eq, Structural)]
pub enum RequestKind {
    Command,
    CreateEntity,
    DeleteEntity,
    ReserveEntityIds,
    EntityQuery,
}

/// What a send came to.
#[derive(Clone, Copy, Debug, PartialEq, Eq, Structural)]
pub enum SendOutcome {
    /// The request was rejected locally and never sent.
    Rejected,
    /// The request was sent under this id.
    Sent(RequestId),
}

/// What an op means for the requests that are awaiting a response.
#[derive(Clone, Copy, Debug, PartialEq, Eq, Structural)]
pub enum Correlation {
    /// The op is no response to a request.
    NotAResponse,
    /// The op answers a tracked request, which is tracked no longer.
    Matched { request_id: RequestId, kind: RequestKind, status: StatusCode, policy: RetryPolicy },
    /// The op answers a request that is not tracked: it was abandoned, or
    /// never tracked. The response is to be ignored.
    Untracked { request_id: RequestId },
}

/// A request that awaits its response.
#[derive(Clone, Copy, Debug, PartialEq, Eq, Structural)]
pub struct PendingRequest {
    pub request_id: RequestId,
    pub kind: RequestKind,
}

/// The requests that await a response.
pub struct RequestTracker {
    pending: Vec<PendingRequest>,
}

/// What the id that a send returned means.
pub open spec fn outcome_of(request_id: RequestId) -> SendOutcome {
    if request_id == -1 {
        SendOutcome::Rejected
    } else {
        SendOutcome::Sent(request_id)
    }
}

/// What the id that a send returned means: `-1` is a local rejection, every
/// other id names a request that went out.
pub fn classify_request_id(request_id: RequestId) -> (outcome: SendOutcome)
    ensures
        outcome == outcome_of(request_id),
{
    if request_id == REJECTED_REQUEST_ID {
        SendOutcome::Rejected
    } else {
        SendOutcome::Sent(request_id)
    }
}

/// The request id and the status that a response op carries.
pub open spec fn response_of(op: WorkerOp) -> Option<(RequestId, StatusCode)> {
    match op {
        WorkerOp::ReserveEntityIdsResponse(r) => Some((r.request_id, r.status_code)),
        WorkerOp::CreateEntityResponse(r) => Some((r.request_id, r.status_code)),
        WorkerOp::DeleteEntityResponse(r) => Some((r.request_id, r.status_code)),
        WorkerOp::EntityQueryResponse(r) => Some((r.request_id, r.status_code)),
        WorkerOp::CommandResponse(r) => Some((r.request_id, r.status_code)),
        _ => None,
    }
}

/// The requests that a list of pending entries tracks, by id. A later entry
/// for an id overrides an earlier one.
pub open spec fn awaited(pending: Seq<PendingRequest>) -> Map<RequestId, RequestKind>
    decreases pending.len(),
{
    if pending.len() == 0 {
        Map::empty()
    } else {
        awaited(pending.drop_last()).insert(pending.last().request_id, pending.last().kind)
    }
}

/// What an op means under the tracked requests.
pub open spec fn correlation_of(
    requests: Map<RequestId, RequestKind>,
    op: WorkerOp,
) -> Correlation {
    match response_of(op) {
        None => Correlation::NotAResponse,
        Some((request_id, status)) => if requests.dom().contains(request_id) {
            Correlation::Matched {
                request_id,
                kind: requests[request_id],
                status,
                policy: status.policy(),
            }
        } else {
            Correlation::Untracked { request_id }
        },
    }
}

/// The entries without those for `request_id` track the same requests but
/// that one.
proof fn lemma_awaited_without(
    pending: Seq<PendingRequest>,
    kept: Seq<PendingRequest>,
    request_id: RequestId,
)
    requires
        kept == pending.filter(|p: PendingRequest| p.request_id != request_id),
    ensures
        awaited(kept) == awaited(pending).remove(request_id),
    decreases pending.len(),
{
    reveal(Seq::filter);
    if pending.len() == 0 {
        assert(awaited(kept) =~= awaited(pending).remove(request_id));
    } else {
        let front = pending.drop_last();
        let kept_front = front.filter(|p: PendingRequest| p.request_id != request_id);
        lemma_awaited_without(front, kept_front, request_id);
        if pending.last().request_id != request_id {
            assert(kept == kept_front.push(pending.last()));
            assert(kept.drop_last() =~= kept_front);
            assert(awaited(kept) =~= awaited(pending).remove(request_id));
        } else {
            assert(kept == kept_front);
            assert(awaited(kept) =~= awaited(pending).remove(request_id));
        }
    }
}

impl RequestTracker {
    /// The requests that await a response, by id.
    pub closed spec fn requests(&self) -> Map<RequestId, RequestKind> {
        awaited(self.pending@)
    }

    /// A tracker with no request.
    pub fn new() -> (tracker: Self)
        ensures
            tracker.requests() == Map::<RequestId, RequestKind>::empty(),
    {
        RequestTracker { pending: Vec::new() }
    }

    /// Stops tracking `request_id`, whether it was tracked or not.
    fn forget(&mut self, request_id: RequestId) -> (found: Option<RequestKind>)
        ensures
            final(self).requests() == old(self).requests().remove(request_id),
            match found {
                Some(kind) => old(self).requests().dom().contains(request_id) && old(
                    self,
                ).requests()[request_id] == kind,
                None => !old(self).requests().dom().contains(request_id),
            },
    {
        let ghost before = self.pending@;
        let ghost keep = |p: PendingRequest| p.request_id != request_id;
        let mut kept: Vec<PendingRequest> = Vec::new();
        let mut found: Option<RequestKind> = None;
        let mut i: usize = 0;
        proof {
            reveal(Seq::filter);
            assert(before.take(0).filter(keep) =~= kept@);
        }
        while i < self.pending.len()
            invariant
                i <= self.pending@.len(),
                self.pending@ == before,
                keep == (|p: PendingRequest| p.request_id != request_id),
                kept@ == before.take(i as int).filter(keep),
                match found {
                    Some(kind) => awaited(before.take(i as int)).dom().contains(request_id)
                        && awaited(before.take(i as int))[request_id] == kind,
                    None => !awaited(before.take(i as int)).dom().contains(request_id),
                },
            decreases self.pending@.len() - i,
        {
            let entry = self.pending[i];
            proof {
                reveal(Seq::filter);
                assert(before.take(i + 1).drop_last() =~= before.take(i as int));
                assert(before.take(i + 1).last() == entry);
            }
            if entry.request_id == request_id {
                found = Some(entry.kind);
            } else {
                kept.push(entry);
            }
            i = i + 1;
        }
        proof {
            assert(before.take(i as int) =~= before);
            lemma_awaited_without(before, kept@, request_id);
        }
        self.pending = kept;
        found
    }

    /// Takes note of the id that a send returned. A rejected send, id `-1`,
    /// leaves the tracker as it is; any other id is tracked as a request of
    /// the given kind.
    pub fn track(&mut self, request_id: RequestId, kind: RequestKind) -> (outcome: SendOutcome)
        ensures
            outcome == outcome_of(request_id),
            final(self).requests() == if request_id == -1 {
                old(self).requests()
            } else {
                old(self).requests().insert(request_id, kind)
            },
    {
        if request_id == REJECTED_REQUEST_ID {
            return SendOutcome::Rejected;
        }
        let ghost before = self.pending@;
        self.pending.push(PendingRequest { request_id, kind });
        assert(self.pending@.drop_last() =~= before);
        SendOutcome::Sent(request_id)
    }

    /// Whether `request_id` awaits a response.
    pub fn is_pending(&self, request_id: RequestId) -> (pending: bool)
        ensures
            pending == self.requests().dom().contains(request_id),
    {
        let mut found = false;
        let mut i: usize = 0;
        while i < self.pending.len()
            invariant
                i <= self.pending@.len(),
                found == awaited(self.pending@.take(i as int)).dom().contains(request_id),
            decreases self.pending@.len() - i,
        {
            proof {
                assert(self.pending@.take(i + 1).drop_last() =~= self.pending@.take(i as int));
            }
            if self.pending[i].request_id == request_id {
                found = true;
            }
            i = i + 1;
        }
        assert(self.pending@.take(i as int) =~= self.pending@);
        found
    }

    /// Abandons a request: its id is tracked no longer. Says whether it was
    /// tracked.
    pub fn abandon(&mut self, request_id: RequestId) -> (was_pending: bool)
        ensures
            was_pending == old(self).requests().dom().contains(request_id),
            final(self).requests() == old(self).requests().remove(request_id),
    {
        self.forget(request_id).is_some()
    }

    /// Correlates an op with the tracked requests, by the exact request id.
    /// A response to a tracked request ends the tracking of that request; any
    /// other op leaves the tracker as it is.
    pub fn correlate(&mut self, op: &WorkerOp) -> (correlation: Correlation)
        ensures
            correlation == correlation_of(old(self).requests(), *op),
            final(self).requests() == match response_of(*op) {
                Some((request_id, _)) => old(self).requests().remove(request_id),
                None => old(self).requests(),
            },
    {
        let (request_id, status) = match op {
            WorkerOp::ReserveEntityIdsResponse(r) => (r.request_id, r.status_code),
            WorkerOp::CreateEntityResponse(r) => (r.request_id, r.status_code),
            WorkerOp::DeleteEntityResponse(r) => (r.request_id, r.status_code),
            WorkerOp::EntityQueryResponse(r) => (r.request_id, r.status_code),
            WorkerOp::CommandResponse(r) => (r.request_id, r.status_code),
            _ => {
                return Correlation::NotAResponse;
            },
        };
        match self.forget(request_id) {
            Some(kind) => Correlation::Matched {
                request_id,
                kind,
                status,
                policy: status.retry_policy(),
            },
            None => Correlation::Untracked { request_id },
        }
    }
}

/// A response to a request that was sent and tracked is matched to it, with
/// the request's kind and the response's status, whatever other requests
/// are tracked and in whatever order the sends were made.
pub proof fn law_response_matches_request(
    requests: Map<RequestId, RequestKind>,
    request_id: RequestId,
    kind: RequestKind,
    op: WorkerOp,
)
    requires
        request_id != -1,
        response_of(op) matches Some((id, _)) && id == request_id,
    ensures
        correlation_of(requests.insert(request_id, kind), op) == (Correlation::Matched {
            request_id,
            kind,
            status: response_of(op)->Some_0.1,
            policy: response_of(op)->Some_0.1.policy(),
        }),
{
}

/// A response to an abandoned request is tolerated: it is reported as
/// untracked, and the other requests stay tracked.
pub proof fn law_abandoned_response_is_tolerated(
    requests: Map<RequestId, RequestKind>,
    request_id: RequestId,
    other: RequestId,
    op: WorkerOp,
)
    requires
        response_of(op) matches Some((id, _)) && id == request_id,
    ensures
        correlation_of(requests.remove(request_id), op) == (Correlation::Untracked { request_id }),
        other != request_id && requests.dom().contains(other) ==> requests.remove(
            request_id,
        ).remove(request_id).dom().contains(other),
{
}

} // verus!
