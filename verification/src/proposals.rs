//! The governance core: the proposal registry, the vote ledger and the
//! lifecycle state machine.
//!
//! A proposal is created with status `New`, moves to `InDiscussion` through
//! `change_proposal_status`, collects affirmative votes, and is resolved to
//! `Approved` or `Rejected` by `close_voting` once the tally is taken.
//! `approve_proposal` and `reject_proposal` are unconditional override entry
//! points that bypass the discussion workflow; no capability is required on
//! them, and they override even a terminal status.
//!
//! Every operation is specified by a pure transition function
//! (`spec_submit`, `spec_vote`, ...) over the abstract state [`PalletView`];
//! the executable methods are proved to refine those transitions exactly.

use vstd::prelude::*;

verus! {

/// Identity of a caller, as resolved by the host environment.
pub type AccountId = u64;

/// Capability presented by a caller: either an authenticated (signed)
/// account, or the designated governance-committee capability.
#[derive(Clone, Copy, PartialEq, Eq, Structural, Debug)]
pub enum Origin {
    Signed(AccountId),
    GovernanceAuthority,
}

/// Lifecycle status of a proposal.
#[derive(Clone, Copy, PartialEq, Eq, Structural, Debug)]
pub enum ProposalStatusEnum {
    New,
    InDiscussion,
    Approved,
    Rejected,
}

/// Failure kinds of the governance operations. All are checked before any
/// mutation: a call that fails leaves the state exactly as it was.
#[derive(Clone, Copy, PartialEq, Eq, Structural, Debug)]
pub enum Error {
    ProposalNotFound,
    AlreadyVoted,
    InvalidProposalStatus,
    Unauthorized,
    /// Reserved for stake-weighted voting; no current operation returns it.
    InsufficientFunds,
}

/// One governance item. The payload fields (content address, name, version,
/// template reference) are opaque: they are carried through unchanged and
/// never interpreted. Only `status` mutates after creation.
#[derive(Clone, PartialEq, Eq, Debug)]
pub struct Proposal {
    pub proposer: AccountId,
    pub ipfs_address: Vec<u8>,
    pub name: Vec<u8>,
    pub version: Vec<u8>,
    pub template_id: u64,
    pub status: ProposalStatusEnum,
}

/// Abstract value of a [`Proposal`].
#[verifier::ext_equal]
pub struct ProposalView {
    pub proposer: AccountId,
    pub ipfs_address: Seq<u8>,
    pub name: Seq<u8>,
    pub version: Seq<u8>,
    pub template_id: u64,
    pub status: ProposalStatusEnum,
}

impl View for Proposal {
    type V = ProposalView;

    open spec fn view(&self) -> ProposalView {
        ProposalView {
            proposer: self.proposer,
            ipfs_address: self.ipfs_address@,
            name: self.name@,
            version: self.version@,
            template_id: self.template_id,
            status: self.status,
        }
    }
}

/// Structured notification of one successful mutation, pushed to the event
/// log in the order the mutations committed.
#[derive(Clone, PartialEq, Eq, Debug)]
pub enum Event {
    ProposalSubmitted {
        proposal_id: u32,
        who: AccountId,
        ipfs_address: Vec<u8>,
        name: Vec<u8>,
        version: Vec<u8>,
        template_id: u64,
    },
    ProposalApproved {
        proposal_id: u32,
        who: AccountId,
        ipfs_address: Vec<u8>,
        name: Vec<u8>,
        version: Vec<u8>,
        template_id: u64,
    },
    ProposalRejected {
        proposal_id: u32,
    },
    ProposalStatusChanged {
        proposal_id: u32,
        old_status: ProposalStatusEnum,
        new_status: ProposalStatusEnum,
    },
}

/// Abstract value of an [`Event`].
#[verifier::ext_equal]
pub enum EventView {
    ProposalSubmitted {
        proposal_id: u32,
        who: AccountId,
        ipfs_address: Seq<u8>,
        name: Seq<u8>,
        version: Seq<u8>,
        template_id: u64,
    },
    ProposalApproved {
        proposal_id: u32,
        who: AccountId,
        ipfs_address: Seq<u8>,
        name: Seq<u8>,
        version: Seq<u8>,
        template_id: u64,
    },
    ProposalRejected {
        proposal_id: u32,
    },
    ProposalStatusChanged {
        proposal_id: u32,
        old_status: ProposalStatusEnum,
        new_status: ProposalStatusEnum,
    },
}

impl View for Event {
    type V = EventView;

    open spec fn view(&self) -> EventView {
        match self {
            Event::ProposalSubmitted { proposal_id, who, ipfs_address, name, version, template_id } =>
                EventView::ProposalSubmitted {
                    proposal_id: *proposal_id,
                    who: *who,
                    ipfs_address: ipfs_address@,
                    name: name@,
                    version: version@,
                    template_id: *template_id,
                },
            Event::ProposalApproved { proposal_id, who, ipfs_address, name, version, template_id } =>
                EventView::ProposalApproved {
                    proposal_id: *proposal_id,
                    who: *who,
                    ipfs_address: ipfs_address@,
                    name: name@,
                    version: version@,
                    template_id: *template_id,
                },
            Event::ProposalRejected { proposal_id } =>
                EventView::ProposalRejected { proposal_id: *proposal_id },
            Event::ProposalStatusChanged { proposal_id, old_status, new_status } =>
                EventView::ProposalStatusChanged {
                    proposal_id: *proposal_id,
                    old_status: *old_status,
                    new_status: *new_status,
                },
        }
    }
}

/// Minimum tally required for `close_voting` to resolve a proposal to
/// `Approved`.
pub const APPROVAL_THRESHOLD: usize = 1;

/// Abstract state of the governance core: the proposal table (a proposal's
/// id is its position), the per-proposal voter sets, and the event log.
#[verifier::ext_equal]
pub struct PalletView {
    pub proposals: Seq<ProposalView>,
    pub votes: Seq<Seq<AccountId>>,
    pub events: Seq<EventView>,
}

/// Ids carried by the `ProposalSubmitted` events of `events`, in log order.
pub open spec fn submitted_ids(events: Seq<EventView>) -> Seq<u32>
    decreases events.len(),
{
    if events.len() == 0 {
        Seq::empty()
    } else {
        let prefix = submitted_ids(events.drop_last());
        match events.last() {
            EventView::ProposalSubmitted { proposal_id, .. } => prefix.push(proposal_id),
            _ => prefix,
        }
    }
}

/// State invariant: one voter set per proposal, ids fit in `u32`, no voter
/// is recorded twice for the same proposal, and the submission events carry
/// the ids `0, 1, 2, ...` in log order.
pub open spec fn inv(s: PalletView) -> bool {
    &&& s.votes.len() == s.proposals.len()
    &&& s.proposals.len() <= u32::MAX
    &&& forall|i: int| 0 <= i < s.votes.len() ==> (#[trigger] s.votes[i]).no_duplicates()
    &&& submitted_ids(s.events) == Seq::new(s.proposals.len(), |i: int| i as u32)
}

/// Count of recorded (affirmative) voters of a proposal; 0 for an unknown id.
pub open spec fn spec_tally(s: PalletView, proposal_id: u32) -> nat {
    if proposal_id < s.proposals.len() {
        s.votes[proposal_id as int].len()
    } else {
        0
    }
}

/// Transition of `submit_proposal`: a signed caller is assigned the next
/// sequential id (the current table length), a `New` proposal and an empty
/// voter set are appended, and `ProposalSubmitted` is emitted.
pub open spec fn spec_submit(
    s: PalletView,
    origin: Origin,
    ipfs_address: Seq<u8>,
    name: Seq<u8>,
    version: Seq<u8>,
    template_id: u64,
) -> (PalletView, Result<u32, Error>) {
    match origin {
        Origin::Signed(who) => {
            let p = ProposalView {
                proposer: who,
                ipfs_address,
                name,
                version,
                template_id,
                status: ProposalStatusEnum::New,
            };
            let e = EventView::ProposalSubmitted {
                proposal_id: s.proposals.len() as u32,
                who,
                ipfs_address,
                name,
                version,
                template_id,
            };
            (
                PalletView {
                    proposals: s.proposals.push(p),
                    votes: s.votes.push(Seq::empty()),
                    events: s.events.push(e),
                },
                Ok(s.proposals.len() as u32),
            )
        },
        Origin::GovernanceAuthority => (s, Err(Error::Unauthorized)),
    }
}

/// Transition of `vote_on_proposal`: a signed voter may vote once on a
/// proposal that is `InDiscussion`. An affirmative vote records the voter;
/// a negative vote succeeds but is not retained, so the voter stays free to
/// vote affirmatively later. No event is emitted.
pub open spec fn spec_vote(
    s: PalletView,
    origin: Origin,
    proposal_id: u32,
    approve: bool,
) -> (PalletView, Result<(), Error>) {
    match origin {
        Origin::Signed(voter) => {
            let i = proposal_id as int;
            if s.proposals.len() <= i {
                (s, Err(Error::ProposalNotFound))
            } else if !(s.proposals[i].status is InDiscussion) {
                (s, Err(Error::InvalidProposalStatus))
            } else if s.votes[i].contains(voter) {
                (s, Err(Error::AlreadyVoted))
            } else if approve {
                (
                    PalletView { votes: s.votes.update(i, s.votes[i].push(voter)), ..s },
                    Ok(()),
                )
            } else {
                (s, Ok(()))
            }
        },
        Origin::GovernanceAuthority => (s, Err(Error::Unauthorized)),
    }
}

/// Transition of `approve_proposal`: the override path. Sets the status of
/// an existing proposal to `Approved` regardless of its current status and
/// emits `ProposalApproved` with the proposal's full identifying data.
pub open spec fn spec_approve(s: PalletView, proposal_id: u32) -> (PalletView, Result<
    (),
    Error,
>) {
    let i = proposal_id as int;
    if s.proposals.len() <= i {
        (s, Err(Error::ProposalNotFound))
    } else {
        let p = ProposalView { status: ProposalStatusEnum::Approved, ..s.proposals[i] };
        let e = EventView::ProposalApproved {
            proposal_id,
            who: p.proposer,
            ipfs_address: p.ipfs_address,
            name: p.name,
            version: p.version,
            template_id: p.template_id,
        };
        (
            PalletView { proposals: s.proposals.update(i, p), events: s.events.push(e), ..s },
            Ok(()),
        )
    }
}

/// Transition of `reject_proposal`: the override path. Sets the status of an
/// existing proposal to `Rejected` regardless of its current status and
/// emits `ProposalRejected`.
pub open spec fn spec_reject(s: PalletView, proposal_id: u32) -> (PalletView, Result<
    (),
    Error,
>) {
    let i = proposal_id as int;
    if s.proposals.len() <= i {
        (s, Err(Error::ProposalNotFound))
    } else {
        let p = ProposalView { status: ProposalStatusEnum::Rejected, ..s.proposals[i] };
        let e = EventView::ProposalRejected { proposal_id };
        (
            PalletView { proposals: s.proposals.update(i, p), events: s.events.push(e), ..s },
            Ok(()),
        )
    }
}

/// Transition of `close_voting`: the canonical tally-based resolution. For
/// the governance authority and a proposal that is `InDiscussion`, a tally
/// of at least [`APPROVAL_THRESHOLD`] resolves to `Approved` (emitting
/// `ProposalApproved`), anything less resolves to `Rejected` (emitting
/// `ProposalRejected`).
pub open spec fn spec_close_voting(s: PalletView, origin: Origin, proposal_id: u32) -> (
    PalletView,
    Result<(), Error>,
) {
    match origin {
        Origin::GovernanceAuthority => {
            let i = proposal_id as int;
            if s.proposals.len() <= i {
                (s, Err(Error::ProposalNotFound))
            } else if !(s.proposals[i].status is InDiscussion) {
                (s, Err(Error::InvalidProposalStatus))
            } else if s.votes[i].len() >= APPROVAL_THRESHOLD {
                let p = ProposalView { status: ProposalStatusEnum::Approved, ..s.proposals[i] };
                let e = EventView::ProposalApproved {
                    proposal_id,
                    who: p.proposer,
                    ipfs_address: p.ipfs_address,
                    name: p.name,
                    version: p.version,
                    template_id: p.template_id,
                };
                (
                    PalletView {
                        proposals: s.proposals.update(i, p),
                        events: s.events.push(e),
                        ..s
                    },
                    Ok(()),
                )
            } else {
                let p = ProposalView { status: ProposalStatusEnum::Rejected, ..s.proposals[i] };
                let e = EventView::ProposalRejected { proposal_id };
                (
                    PalletView {
                        proposals: s.proposals.update(i, p),
                        events: s.events.push(e),
                        ..s
                    },
                    Ok(()),
                )
            }
        },
        Origin::Signed(_) => (s, Err(Error::Unauthorized)),
    }
}

/// Transition of `change_proposal_status`: for the governance authority,
/// the only permitted transition is `New` to `InDiscussion`, recorded with a
/// `ProposalStatusChanged` event; every other pair fails
/// `InvalidProposalStatus` and leaves the state unchanged.
pub open spec fn spec_change_status(
    s: PalletView,
    origin: Origin,
    proposal_id: u32,
    new_status: ProposalStatusEnum,
) -> (PalletView, Result<(), Error>) {
    match origin {
        Origin::GovernanceAuthority => {
            let i = proposal_id as int;
            if s.proposals.len() <= i {
                (s, Err(Error::ProposalNotFound))
            } else {
                let old_status = s.proposals[i].status;
                if old_status is New && new_status is InDiscussion {
                    let p = ProposalView { status: new_status, ..s.proposals[i] };
                    let e = EventView::ProposalStatusChanged {
                        proposal_id,
                        old_status,
                        new_status,
                    };
                    (
                        PalletView {
                            proposals: s.proposals.update(i, p),
                            events: s.events.push(e),
                            ..s
                        },
                        Ok(()),
                    )
                } else {
                    (s, Err(Error::InvalidProposalStatus))
                }
            }
        },
        Origin::Signed(_) => (s, Err(Error::Unauthorized)),
    }
}

/// The pairs `(id, proposal)` of the proposals whose status is `status`, in
/// id order.
pub open spec fn spec_proposals_with_status(
    ps: Seq<ProposalView>,
    status: ProposalStatusEnum,
) -> Seq<(u32, ProposalView)>
    decreases ps.len(),
{
    if ps.len() == 0 {
        Seq::empty()
    } else {
        let prefix = spec_proposals_with_status(ps.drop_last(), status);
        if ps.last().status == status {
            prefix.push(((ps.len() - 1) as u32, ps.last()))
        } else {
            prefix
        }
    }
}

/// Abstract value of a vector of `(id, proposal)` pairs.
pub open spec fn pairs_view(s: Seq<(u32, Proposal)>) -> Seq<(u32, ProposalView)> {
    Seq::new(s.len(), |i: int| (s[i].0, s[i].1@))
}

/// The governance core. One instance owns the proposal table, the vote
/// ledger, the id counters and the event log; all access goes through its
/// methods, each of which either commits all of its writes or none.
pub struct Pallet {
    proposals: Vec<Proposal>,
    votes: Vec<Vec<AccountId>>,
    next_proposal_id: u32,
    proposal_count: u32,
    events: Vec<Event>,
}

impl View for Pallet {
    type V = PalletView;

    closed spec fn view(&self) -> PalletView {
        PalletView {
            proposals: Seq::new(self.proposals@.len(), |i: int| self.proposals@[i]@),
            votes: Seq::new(self.votes@.len(), |i: int| self.votes@[i]@),
            events: Seq::new(self.events@.len(), |i: int| self.events@[i]@),
        }
    }
}

/// Copies a byte buffer.
pub(crate) fn clone_bytes(v: &Vec<u8>) -> (r: Vec<u8>)
    ensures
        r@ == v@,
{
    let mut r: Vec<u8> = Vec::new();
    let mut i: usize = 0;
    while i < v.len()
        invariant
            i <= v@.len(),
            r@ == v@.subrange(0, i as int),
        decreases v@.len() - i,
    {
        r.push(v[i]);
        i = i + 1;
        proof {
            assert(r@ =~= v@.subrange(0, i as int));
        }
    }
    proof {
        assert(r@ =~= v@);
    }
    r
}

/// Whether `x` is among the recorded voters `v`.
fn contains_account(v: &Vec<AccountId>, x: AccountId) -> (r: bool)
    ensures
        r == v@.contains(x),
{
    let mut k: usize = 0;
    while k < v.len()
        invariant
            k <= v@.len(),
            forall|j: int| 0 <= j < k ==> v@[j] != x,
        decreases v@.len() - k,
    {
        if v[k] == x {
            proof {
                assert(v@[k as int] == x);
            }
            return true;
        }
        k = k + 1;
    }
    false
}

impl Pallet {
    /// Well-formedness: the counters agree with the proposal table and the
    /// abstract state satisfies [`inv`]. Established at bootstrap and
    /// preserved by every method.
    pub closed spec fn wf(&self) -> bool {
        &&& self.next_proposal_id == self.proposals@.len()
        &&& self.proposal_count == self.proposals@.len()
        &&& inv(self@)
    }

    /// Bootstraps an empty governance core: no proposals, no votes, no
    /// events, both counters at 0.
    pub fn new() -> (r: Pallet)
        ensures
            r.wf(),
            r@ == (PalletView {
                proposals: Seq::<ProposalView>::empty(),
                votes: Seq::<Seq<AccountId>>::empty(),
                events: Seq::<EventView>::empty(),
            }),
    {
        let r = Pallet {
            proposals: Vec::new(),
            votes: Vec::new(),
            next_proposal_id: 0,
            proposal_count: 0,
            events: Vec::new(),
        };
        proof {
            assert(r@.proposals =~= Seq::<ProposalView>::empty());
            assert(r@.votes =~= Seq::<Seq<AccountId>>::empty());
            assert(r@.events =~= Seq::<EventView>::empty());
            assert(submitted_ids(r@.events) =~= Seq::new(0, |i: int| i as u32));
        }
        r
    }

    /// Allocates the next sequential id, stores a new `New` proposal,
    /// emits `ProposalSubmitted`, and returns the assigned id. Fails only
    /// for a caller without the `Signed` capability; the id bound is a
    /// machine limit.
    pub fn submit_proposal(
        &mut self,
        origin: Origin,
        ipfs_address: Vec<u8>,
        name: Vec<u8>,
        version: Vec<u8>,
        template_id: u64,
    ) -> (r: Result<u32, Error>)
        requires
            old(self).wf(),
            old(self)@.proposals.len() < u32::MAX,
        ensures
            final(self).wf(),
            final(self)@ == spec_submit(
                old(self)@,
                origin,
                ipfs_address@,
                name@,
                version@,
                template_id,
            ).0,
            r == spec_submit(
                old(self)@,
                origin,
                ipfs_address@,
                name@,
                version@,
                template_id,
            ).1,
    {
        let sender: AccountId = match origin {
            Origin::Signed(who) => who,
            Origin::GovernanceAuthority => {
                return Err(Error::Unauthorized);
            },
        };
        let proposal_id: u32 = self.next_proposal_id;
        self.next_proposal_id = proposal_id + 1;

        let proposal_count: u32 = self.proposal_count;
        self.proposal_count = proposal_count + 1;

        let proposal = Proposal {
            proposer: sender,
            ipfs_address: clone_bytes(&ipfs_address),
            name: clone_bytes(&name),
            version: clone_bytes(&version),
            template_id,
            status: ProposalStatusEnum::New,
        };
        self.proposals.push(proposal);
        self.votes.push(Vec::new());
        self.events.push(Event::ProposalSubmitted {
            proposal_id,
            who: sender,
            ipfs_address,
            name,
            version,
            template_id,
        });
        proof {
            let s0 = old(self)@;
            let step = spec_submit(s0, origin, ipfs_address@, name@, version@, template_id);
            assert(self@.proposals =~= step.0.proposals);
            assert(self@.votes =~= step.0.votes);
            assert(self@.events =~= step.0.events);
            lemma_submitted_ids_push(s0.events, self@.events.last());
            assert(submitted_ids(self@.events) =~= Seq::new(
                self@.proposals.len(),
                |i: int| i as u32,
            ));
        }
        Ok(proposal_id)
    }

    /// Total number of proposals ever submitted.
    pub fn proposal_count(&self) -> (r: u32)
        requires
            self.wf(),
        ensures
            r == self@.proposals.len(),
    {
        self.proposal_count
    }

    /// The id the next submission will be assigned.
    pub fn current_proposal_id(&self) -> (r: u32)
        requires
            self.wf(),
        ensures
            r == self@.proposals.len(),
    {
        self.next_proposal_id
    }

    /// Read-only lookup of a proposal; an unknown id yields `None`.
    pub fn get_proposal(&self, proposal_id: u32) -> (r: Option<&Proposal>)
        requires
            self.wf(),
        ensures
            match r {
                Some(p) => proposal_id < self@.proposals.len()
                    && p@ == self@.proposals[proposal_id as int],
                None => proposal_id >= self@.proposals.len(),
            },
    {
        let i = proposal_id as usize;
        if i < self.proposals.len() {
            Some(&self.proposals[i])
        } else {
            None
        }
    }

    /// Count of recorded (affirmative) voters; 0 for an unknown id.
    pub fn tally(&self, proposal_id: u32) -> (r: usize)
        requires
            self.wf(),
        ensures
            r == spec_tally(self@, proposal_id),
    {
        let i = proposal_id as usize;
        if i < self.votes.len() {
            self.votes[i].len()
        } else {
            0
        }
    }

    /// Casts a signed caller's vote. Requires the proposal to be
    /// `InDiscussion` and the voter not to be recorded yet; an affirmative
    /// vote is recorded, a negative one succeeds without being retained.
    pub fn vote_on_proposal(&mut self, origin: Origin, proposal_id: u32, approve: bool) -> (r:
        Result<(), Error>)
        requires
            old(self).wf(),
        ensures
            final(self).wf(),
            final(self)@ == spec_vote(old(self)@, origin, proposal_id, approve).0,
            r == spec_vote(old(self)@, origin, proposal_id, approve).1,
    {
        let sender: AccountId = match origin {
            Origin::Signed(who) => who,
            Origin::GovernanceAuthority => {
                return Err(Error::Unauthorized);
            },
        };
        let i = proposal_id as usize;
        if i >= self.proposals.len() {
            return Err(Error::ProposalNotFound);
        }
        if !(self.proposals[i].status == ProposalStatusEnum::InDiscussion) {
            return Err(Error::InvalidProposalStatus);
        }
        if contains_account(&self.votes[i], sender) {
            return Err(Error::AlreadyVoted);
        }
        if approve {
            let mut voters = self.votes.remove(i);
            voters.push(sender);
            self.votes.insert(i, voters);
            proof {
                let s0 = old(self)@;
                let voters1 = s0.votes[i as int].push(sender);
                assert(self.votes@ =~= old(self).votes@.update(i as int, self.votes@[i as int]));
                assert(self@.votes =~= s0.votes.update(i as int, voters1));
                assert(self@.proposals =~= s0.proposals);
                assert(self@.events =~= s0.events);
                assert(self@ =~~= spec_vote(s0, origin, proposal_id, approve).0);
                assert forall|j: int| 0 <= j < self@.votes.len() implies (
                #[trigger] self@.votes[j]).no_duplicates() by {
                    if j != i as int {
                        assert(self@.votes[j] == s0.votes[j]);
                    }
                }
            }
        }
        Ok(())
    }

    /// The override approval path: sets an existing proposal's status to
    /// `Approved` unconditionally and emits `ProposalApproved`. No
    /// capability is required here: the origin is accepted unchecked.
    pub fn approve_proposal(&mut self, _origin: Origin, proposal_id: u32) -> (r: Result<
        (),
        Error,
    >)
        requires
            old(self).wf(),
        ensures
            final(self).wf(),
            final(self)@ == spec_approve(old(self)@, proposal_id).0,
            r == spec_approve(old(self)@, proposal_id).1,
    {
        let i = proposal_id as usize;
        if i >= self.proposals.len() {
            return Err(Error::ProposalNotFound);
        }
        let mut p = self.proposals.remove(i);
        p.status = ProposalStatusEnum::Approved;
        let ev = Event::ProposalApproved {
            proposal_id,
            who: p.proposer,
            ipfs_address: clone_bytes(&p.ipfs_address),
            name: clone_bytes(&p.name),
            version: clone_bytes(&p.version),
            template_id: p.template_id,
        };
        let ghost gp = p@;
        self.proposals.insert(i, p);
        self.events.push(ev);
        proof {
            let s0 = old(self)@;
            assert(self.proposals@ =~= old(self).proposals@.update(
                i as int,
                self.proposals@[i as int],
            ));
            assert(self@.proposals =~= s0.proposals.update(i as int, gp));
            assert(self@.votes =~= s0.votes);
            assert(self@.events =~= s0.events.push(ev@));
            assert(self@ =~~= spec_approve(s0, proposal_id).0);
            lemma_submitted_ids_push(s0.events, ev@);
        }
        Ok(())
    }

    /// The override rejection path: sets an existing proposal's status to
    /// `Rejected` unconditionally and emits `ProposalRejected`. As with
    /// `approve_proposal`, the origin is accepted unchecked.
    pub fn reject_proposal(&mut self, _origin: Origin, proposal_id: u32) -> (r: Result<
        (),
        Error,
    >)
        requires
            old(self).wf(),
        ensures
            final(self).wf(),
            final(self)@ == spec_reject(old(self)@, proposal_id).0,
            r == spec_reject(old(self)@, proposal_id).1,
    {
        let i = proposal_id as usize;
        if i >= self.proposals.len() {
            return Err(Error::ProposalNotFound);
        }
        let mut p = self.proposals.remove(i);
        p.status = ProposalStatusEnum::Rejected;
        let ghost gp = p@;
        self.proposals.insert(i, p);
        self.events.push(Event::ProposalRejected { proposal_id });
        proof {
            let s0 = old(self)@;
            assert(self.proposals@ =~= old(self).proposals@.update(
                i as int,
                self.proposals@[i as int],
            ));
            assert(self@.proposals =~= s0.proposals.update(i as int, gp));
            assert(self@.votes =~= s0.votes);
            assert(self@.events =~= s0.events.push(EventView::ProposalRejected { proposal_id }));
            assert(self@ =~~= spec_reject(s0, proposal_id).0);
            lemma_submitted_ids_push(s0.events, EventView::ProposalRejected { proposal_id });
        }
        Ok(())
    }

    /// Takes the tally of a proposal that is `InDiscussion` and resolves it:
    /// at least [`APPROVAL_THRESHOLD`] recorded voters give `Approved`,
    /// anything less gives `Rejected`. Requires the governance-authority
    /// capability.
    pub fn close_voting(&mut self, origin: Origin, proposal_id: u32) -> (r: Result<(), Error>)
        requires
            old(self).wf(),
        ensures
            final(self).wf(),
            final(self)@ == spec_close_voting(old(self)@, origin, proposal_id).0,
            r == spec_close_voting(old(self)@, origin, proposal_id).1,
    {
        match origin {
            Origin::GovernanceAuthority => {},
            Origin::Signed(_) => {
                return Err(Error::Unauthorized);
            },
        }
        let i = proposal_id as usize;
        if i >= self.proposals.len() {
            return Err(Error::ProposalNotFound);
        }
        if !(self.proposals[i].status == ProposalStatusEnum::InDiscussion) {
            return Err(Error::InvalidProposalStatus);
        }
        let total_votes = self.votes[i].len();

        let mut p = self.proposals.remove(i);
        if total_votes >= APPROVAL_THRESHOLD {
            p.status = ProposalStatusEnum::Approved;
            let ev = Event::ProposalApproved {
                proposal_id,
                who: p.proposer,
                ipfs_address: clone_bytes(&p.ipfs_address),
                name: clone_bytes(&p.name),
                version: clone_bytes(&p.version),
                template_id: p.template_id,
            };
            let ghost gp = p@;
            self.proposals.insert(i, p);
            self.events.push(ev);
            proof {
                let s0 = old(self)@;
                assert(self.proposals@ =~= old(self).proposals@.update(
                    i as int,
                    self.proposals@[i as int],
                ));
                assert(self@.proposals =~= s0.proposals.update(i as int, gp));
                assert(self@.votes =~= s0.votes);
                assert(self@.events =~= s0.events.push(ev@));
                assert(self@ =~~= spec_close_voting(s0, origin, proposal_id).0);
                lemma_submitted_ids_push(s0.events, ev@);
            }
        } else {
            p.status = ProposalStatusEnum::Rejected;
            let ghost gp = p@;
            self.proposals.insert(i, p);
            self.events.push(Event::ProposalRejected { proposal_id });
            proof {
                let s0 = old(self)@;
                assert(self.proposals@ =~= old(self).proposals@.update(
                    i as int,
                    self.proposals@[i as int],
                ));
                assert(self@.proposals =~= s0.proposals.update(i as int, gp));
                assert(self@.votes =~= s0.votes);
                assert(self@.events =~= s0.events.push(
                    EventView::ProposalRejected { proposal_id },
                ));
                assert(self@ =~~= spec_close_voting(s0, origin, proposal_id).0);
                lemma_submitted_ids_push(s0.events, EventView::ProposalRejected { proposal_id });
            }
        }
        Ok(())
    }

    /// Changes a proposal's status on behalf of the governance authority.
    /// The only transition that succeeds is `New` to `InDiscussion`; every
    /// other pair fails `InvalidProposalStatus` and changes nothing.
    pub fn change_proposal_status(
        &mut self,
        origin: Origin,
        proposal_id: u32,
        new_status: ProposalStatusEnum,
    ) -> (r: Result<(), Error>)
        requires
            old(self).wf(),
        ensures
            final(self).wf(),
            final(self)@ == spec_change_status(old(self)@, origin, proposal_id, new_status).0,
            r == spec_change_status(old(self)@, origin, proposal_id, new_status).1,
    {
        match origin {
            Origin::GovernanceAuthority => {},
            Origin::Signed(_) => {
                return Err(Error::Unauthorized);
            },
        }
        let i = proposal_id as usize;
        if i >= self.proposals.len() {
            return Err(Error::ProposalNotFound);
        }
        let old_status = self.proposals[i].status;
        match (old_status, new_status) {
            (ProposalStatusEnum::New, ProposalStatusEnum::InDiscussion) => {
                let mut p = self.proposals.remove(i);
                p.status = new_status;
                let ghost gp = p@;
                self.proposals.insert(i, p);
                self.events.push(Event::ProposalStatusChanged {
                    proposal_id,
                    old_status,
                    new_status,
                });
                proof {
                    let s0 = old(self)@;
                    let ev = EventView::ProposalStatusChanged {
                        proposal_id,
                        old_status,
                        new_status,
                    };
                    assert(self.proposals@ =~= old(self).proposals@.update(
                        i as int,
                        self.proposals@[i as int],
                    ));
                    assert(self@.proposals =~= s0.proposals.update(i as int, gp));
                    assert(self@.votes =~= s0.votes);
                    assert(self@.events =~= s0.events.push(ev));
                    assert(self@ =~~= spec_change_status(s0, origin, proposal_id, new_status).0);
                    lemma_submitted_ids_push(s0.events, ev);
                }
                Ok(())
            },
            _ => Err(Error::InvalidProposalStatus),
        }
    }

    /// Enumerates, for a signed caller, the proposals holding a given
    /// status, as `(id, proposal)` pairs in id order.
    pub fn get_proposals_by_status(&self, origin: Origin, status: ProposalStatusEnum) -> (r:
        Result<Vec<(u32, Proposal)>, Error>)
        requires
            self.wf(),
        ensures
            match r {
                Ok(v) => origin is Signed && pairs_view(v@) == spec_proposals_with_status(
                    self@.proposals,
                    status,
                ),
                Err(e) => e == Error::Unauthorized && !(origin is Signed),
            },
    {
        match origin {
            Origin::Signed(_) => {},
            Origin::GovernanceAuthority => {
                return Err(Error::Unauthorized);
            },
        }
        let mut found: Vec<(u32, Proposal)> = Vec::new();
        let mut i: usize = 0;
        while i < self.proposals.len()
            invariant
                self.wf(),
                i <= self@.proposals.len(),
                pairs_view(found@) == spec_proposals_with_status(
                    self@.proposals.take(i as int),
                    status,
                ),
            decreases self@.proposals.len() - i,
        {
            if self.proposals[i].status == status {
                let p = &self.proposals[i];
                let copy = Proposal {
                    proposer: p.proposer,
                    ipfs_address: clone_bytes(&p.ipfs_address),
                    name: clone_bytes(&p.name),
                    version: clone_bytes(&p.version),
                    template_id: p.template_id,
                    status: p.status,
                };
                found.push((i as u32, copy));
            }
            proof {
                let ps = self@.proposals;
                let t = ps.take(i + 1 as int);
                assert(t.drop_last() =~= ps.take(i as int));
                assert(t.last() == ps[i as int]);
                assert(pairs_view(found@) =~= spec_proposals_with_status(t, status));
            }
            i = i + 1;
        }
        proof {
            assert(self@.proposals.take(self@.proposals.len() as int) =~= self@.proposals);
        }
        Ok(found)
    }

    /// The event log, in commit order.
    pub fn events(&self) -> (r: &Vec<Event>)
        ensures
            r@.len() == self@.events.len(),
            forall|i: int| 0 <= i < r@.len() ==> (#[trigger] r@[i])@ == self@.events[i],
    {
        &self.events
    }
}

/// A well-formed pallet's abstract state satisfies the public invariant.
pub proof fn lemma_wf_inv(p: &Pallet)
    requires
        p.wf(),
    ensures
        inv(p@),
{
}

/// Sequential id assignment: in any reachable state, the submission events
/// carry the ids `0, 1, 2, ...` in log order, and the number of proposals
/// in the table equals the number of submissions.
pub proof fn lemma_sequential_ids(s: PalletView)
    requires
        inv(s),
    ensures
        submitted_ids(s.events).len() == s.proposals.len(),
        forall|k: int| 0 <= k < s.proposals.len() ==> submitted_ids(s.events)[k] == k as u32,
{
}

/// Double voting is rejected: when an affirmative vote by `voter` on
/// proposal `proposal_id` succeeds, a second affirmative vote by the same
/// voter on the same proposal fails with `AlreadyVoted`.
pub proof fn lemma_vote_twice(s: PalletView, voter: AccountId, proposal_id: u32)
    requires
        inv(s),
        spec_vote(s, Origin::Signed(voter), proposal_id, true).1 is Ok,
    ensures
        spec_vote(
            spec_vote(s, Origin::Signed(voter), proposal_id, true).0,
            Origin::Signed(voter),
            proposal_id,
            true,
        ).1 == Err::<(), Error>(Error::AlreadyVoted),
{
    let i = proposal_id as int;
    let s1 = spec_vote(s, Origin::Signed(voter), proposal_id, true).0;
    assert(s1.votes[i].contains(voter)) by {
        assert(s1.votes[i][s.votes[i].len() as int] == voter);
    }
}

/// A negative vote is not retained: it never changes the state (in
/// particular it adds no voter to the tally), and when it succeeds it does
/// not block a later affirmative vote by the same voter.
pub proof fn lemma_negative_vote(s: PalletView, voter: AccountId, proposal_id: u32)
    requires
        inv(s),
    ensures
        spec_vote(s, Origin::Signed(voter), proposal_id, false).0 == s,
        spec_vote(s, Origin::Signed(voter), proposal_id, false).1 is Ok ==> spec_vote(
            s,
            Origin::Signed(voter),
            proposal_id,
            true,
        ).1 is Ok,
{
}

/// `close_voting` succeeds only for the governance authority on a proposal
/// that is `InDiscussion`; on any other status of an existing proposal it
/// fails with `InvalidProposalStatus` and changes nothing.
pub proof fn lemma_close_voting_requires_discussion(s: PalletView, origin: Origin, proposal_id: u32)
    ensures
        spec_close_voting(s, origin, proposal_id).1 is Ok ==> origin is GovernanceAuthority
            && proposal_id < s.proposals.len()
            && s.proposals[proposal_id as int].status is InDiscussion,
        origin is GovernanceAuthority && proposal_id < s.proposals.len() && !(s.proposals[
            proposal_id as int
        ].status is InDiscussion) ==> spec_close_voting(s, origin, proposal_id).1 == Err::<
            (),
            Error,
        >(Error::InvalidProposalStatus) && spec_close_voting(s, origin, proposal_id).0 == s,
{
}

/// Tally-based resolution: closing a proposal that is `InDiscussion` with a
/// tally of at least [`APPROVAL_THRESHOLD`] resolves it to `Approved` and
/// emits `ProposalApproved`; with a tally of zero it resolves to `Rejected`
/// and emits `ProposalRejected`.
pub proof fn lemma_close_voting_resolution(s: PalletView, proposal_id: u32)
    requires
        inv(s),
        proposal_id < s.proposals.len(),
        s.proposals[proposal_id as int].status is InDiscussion,
    ensures
        spec_close_voting(s, Origin::GovernanceAuthority, proposal_id).1 == Ok::<(), Error>(()),
        spec_tally(s, proposal_id) >= APPROVAL_THRESHOLD ==> spec_close_voting(
            s,
            Origin::GovernanceAuthority,
            proposal_id,
        ).0.proposals[proposal_id as int].status is Approved,
        spec_tally(s, proposal_id) >= APPROVAL_THRESHOLD ==> spec_close_voting(
            s,
            Origin::GovernanceAuthority,
            proposal_id,
        ).0.events.last() is ProposalApproved,
        spec_tally(s, proposal_id) == 0 ==> spec_close_voting(
            s,
            Origin::GovernanceAuthority,
            proposal_id,
        ).0.proposals[proposal_id as int].status is Rejected,
        spec_tally(s, proposal_id) == 0 ==> spec_close_voting(
            s,
            Origin::GovernanceAuthority,
            proposal_id,
        ).0.events.last() is ProposalRejected,
{
}

/// Whether `b` holds the same proposals as `a`, each differing at most in
/// its status: same count, and proposer and payload unchanged throughout.
pub open spec fn same_but_status(a: Seq<ProposalView>, b: Seq<ProposalView>) -> bool {
    &&& a.len() == b.len()
    &&& forall|j: int|
        0 <= j < a.len() ==> {
            &&& (#[trigger] b[j]).proposer == a[j].proposer
            &&& b[j].ipfs_address == a[j].ipfs_address
            &&& b[j].name == a[j].name
            &&& b[j].version == a[j].version
            &&& b[j].template_id == a[j].template_id
        }
}

/// Proposals are archival and votes are never discarded: no operation after
/// submission removes a proposal or changes anything of an existing one but
/// its status, and no operation removes a recorded vote.
pub proof fn lemma_archival(
    s: PalletView,
    origin: Origin,
    proposal_id: u32,
    new_status: ProposalStatusEnum,
    approve: bool,
)
    requires
        inv(s),
    ensures
        same_but_status(s.proposals, spec_vote(s, origin, proposal_id, approve).0.proposals),
        same_but_status(s.proposals, spec_approve(s, proposal_id).0.proposals),
        same_but_status(s.proposals, spec_reject(s, proposal_id).0.proposals),
        same_but_status(s.proposals, spec_close_voting(s, origin, proposal_id).0.proposals),
        same_but_status(
            s.proposals,
            spec_change_status(s, origin, proposal_id, new_status).0.proposals,
        ),
        forall|j: int|
            0 <= j < s.votes.len() ==> s.votes[j].is_prefix_of(
                #[trigger] spec_vote(s, origin, proposal_id, approve).0.votes[j],
            ),
        spec_approve(s, proposal_id).0.votes == s.votes,
        spec_reject(s, proposal_id).0.votes == s.votes,
        spec_close_voting(s, origin, proposal_id).0.votes == s.votes,
        spec_change_status(s, origin, proposal_id, new_status).0.votes == s.votes,
{
    assert forall|j: int| 0 <= j < s.votes.len() implies s.votes[j].is_prefix_of(
        #[trigger] spec_vote(s, origin, proposal_id, approve).0.votes[j],
    ) by {
        let t = spec_vote(s, origin, proposal_id, approve).0.votes[j];
        let i = proposal_id as int;
        match origin {
            Origin::Signed(voter) => {
                if i < s.proposals.len() && s.proposals[i].status is InDiscussion && !s.votes[
                    i
                ].contains(voter) && approve && j == i {
                    assert(t == s.votes[j].push(voter));
                } else {
                    assert(t == s.votes[j]);
                }
            },
            Origin::GovernanceAuthority => {
                assert(t == s.votes[j]);
            },
        }
        assert(t.subrange(0, s.votes[j].len() as int) =~= s.votes[j]);
    }
}

/// `change_proposal_status` permits exactly the transition `New` to
/// `InDiscussion`: it succeeds if and only if the governance authority asks
/// for that pair on an existing proposal; every other pair on an existing
/// proposal fails with `InvalidProposalStatus`, and no failure changes the
/// state.
pub proof fn lemma_change_status_gate(
    s: PalletView,
    origin: Origin,
    proposal_id: u32,
    new_status: ProposalStatusEnum,
)
    ensures
        spec_change_status(s, origin, proposal_id, new_status).1 is Ok <==> (
        origin is GovernanceAuthority && proposal_id < s.proposals.len() && s.proposals[
            proposal_id as int
        ].status is New && new_status is InDiscussion),
        !(spec_change_status(s, origin, proposal_id, new_status).1 is Ok) ==> spec_change_status(
            s,
            origin,
            proposal_id,
            new_status,
        ).0 == s,
        origin is GovernanceAuthority && proposal_id < s.proposals.len() && !(s.proposals[
            proposal_id as int
        ].status is New && new_status is InDiscussion) ==> spec_change_status(
            s,
            origin,
            proposal_id,
            new_status,
        ).1 == Err::<(), Error>(Error::InvalidProposalStatus),
{
}

/// Appending an event extends `submitted_ids` by the event's id when it is a
/// `ProposalSubmitted`, and leaves it unchanged otherwise.
proof fn lemma_submitted_ids_push(events: Seq<EventView>, e: EventView)
    ensures
        submitted_ids(events.push(e)) == match e {
            EventView::ProposalSubmitted { proposal_id, .. } => submitted_ids(events).push(
                proposal_id,
            ),
            _ => submitted_ids(events),
        },
{
    assert(events.push(e).drop_last() =~= events);
    assert(events.push(e).last() == e);
}

} // verus!
