//! The permission authority consulted before a local path is disclosed.

use vstd::prelude::*;

verus! {

/// The authority's standing answer to a blind-read request.
pub enum Decision {
    /// The request is granted.
    Grant,
    /// The request is denied, for the given reason.
    Deny {
        /// The denial reason; resolution forwards it unchanged.
        reason: String,
    },
}

/// One recorded blind-read request: the path whose disclosure is to be
/// authorized, the logical operation being authorized, and the symbol the
/// embedding script reaches that operation through.
pub struct BlindReadRequest {
    /// The native path to be disclosed.
    pub path: String,
    /// The logical operation being authorized.
    pub subject: String,
    /// The caller-facing symbol name.
    pub symbol: String,
}

/// The answer a standing decision produces: success, or the denial reason.
pub open spec fn answer_of(decision: Decision) -> Result<(), Seq<char>> {
    match decision {
        Decision::Grant => Ok(()),
        Decision::Deny { reason } => Err(reason@),
    }
}

/// The view of an answer: the denial reason as a character sequence.
pub open spec fn answer_view(r: Result<(), String>) -> Result<(), Seq<char>> {
    match r {
        Ok(_) => Ok(()),
        Err(e) => Err(e@),
    }
}

/// The capability table consulted before a local filesystem path is
/// disclosed. The host owns it; resolution borrows it mutably for the
/// duration of exactly one check. It answers every request with its standing
/// decision and records each request it is asked, so a caller can audit how
/// often and with which arguments it was consulted.
pub struct PermissionAuthority {
    decision: Decision,
    requests: Vec<BlindReadRequest>,
}

impl PermissionAuthority {
    /// The standing decision.
    pub closed spec fn spec_decision(&self) -> Decision {
        self.decision
    }

    /// Every request made so far, oldest first.
    pub closed spec fn spec_requests(&self) -> Seq<BlindReadRequest> {
        self.requests@
    }

    /// An authority with the given standing decision and no recorded
    /// requests.
    pub fn new(decision: Decision) -> (r: Self)
        ensures
            r.spec_decision() == decision,
            r.spec_requests() == Seq::<BlindReadRequest>::empty(),
    {
        PermissionAuthority { decision, requests: Vec::new() }
    }

    /// Replace the standing decision: permissions can change at run time, and
    /// every resolution checks afresh.
    pub fn set_decision(&mut self, decision: Decision)
        ensures
            final(self).spec_decision() == decision,
            final(self).spec_requests() == old(self).spec_requests(),
    {
        self.decision = decision;
    }

    /// Ask for a blind read of `path`, for the operation `subject`, reached
    /// through `symbol`. The request is recorded and answered with the
    /// standing decision: success on a grant, the denial reason otherwise.
    pub fn check_read_blind(&mut self, path: &String, subject: &str, symbol: &str) -> (r: Result<
        (),
        String,
    >)
        ensures
            final(self).spec_decision() == old(self).spec_decision(),
            final(self).spec_requests().len() == old(self).spec_requests().len() + 1,
            forall|i: int|
                0 <= i < old(self).spec_requests().len()
                    ==> final(self).spec_requests()[i] == old(self).spec_requests()[i],
            final(self).spec_requests().last().path@ == path@,
            final(self).spec_requests().last().subject@ == subject@,
            final(self).spec_requests().last().symbol@ == symbol@,
            answer_view(r) == answer_of(old(self).spec_decision()),
    {
        self.requests.push(
            BlindReadRequest {
                path: path.clone(),
                subject: subject.to_owned(),
                symbol: symbol.to_owned(),
            },
        );
        match &self.decision {
            Decision::Grant => Ok(()),
            Decision::Deny { reason } => Err(reason.clone()),
        }
    }

    /// How many requests have been made so far.
    pub fn request_count(&self) -> (r: usize)
        ensures
            r == self.spec_requests().len(),
    {
        self.requests.len()
    }

    /// The recorded requests, oldest first.
    pub fn requests(&self) -> (r: &Vec<BlindReadRequest>)
        ensures
            r@ == self.spec_requests(),
    {
        &self.requests
    }
}

} // verus!
