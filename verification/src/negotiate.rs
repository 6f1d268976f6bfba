use vstd::prelude::*;

verus! {

/// The high-speed candidate rate tried first when no rate is given.
pub const BAUD_HIGH: u32 = 3000000;
/// The common fallback rate tried second.
pub const BAUD_FALLBACK: u32 = 57600;

/// The ordered list of candidate baud rates negotiation will attempt: the
/// explicit rate alone when one is supplied, else the fixed default list.
pub open spec fn spec_candidates(baudrate: Option<u32>) -> Seq<u32> {
    match baudrate {
        Some(b) => seq![b],
        None => seq![BAUD_HIGH, BAUD_FALLBACK],
    }
}

/// When an explicit rate is supplied, the candidate list holds exactly that
/// one rate, whatever the default list holds.
pub proof fn lemma_explicit_rate_single_candidate(b: u32)
    ensures
        spec_candidates(Some(b)).len() == 1,
        spec_candidates(Some(b))[0] == b,
{
}

/// Tracks one run of connection negotiation: which candidate rates exist,
/// how many have been attempted so far, and the first rate that succeeded,
/// if any. The driver asks for the next rate to try, attempts to open and
/// probe the transport at that rate, and records the outcome; negotiation
/// never attempts a further candidate once one has succeeded.
pub struct Negotiation {
    candidates: Vec<u32>,
    attempted: usize,
    connected: Option<u32>,
    outcomes: Ghost<Seq<bool>>,
}

impl Negotiation {
    /// The candidate rates, in the order they are attempted.
    pub closed spec fn candidates(self) -> Seq<u32> {
        self.candidates@
    }

    /// How many candidates have been attempted so far.
    pub closed spec fn attempted(self) -> int {
        self.attempted as int
    }

    /// The negotiated rate: the candidate whose attempt succeeded, if any.
    pub closed spec fn connected(self) -> Option<u32> {
        self.connected
    }

    /// The recorded outcome of each attempt made so far, in order.
    pub closed spec fn outcomes(self) -> Seq<bool> {
        self.outcomes@
    }

    /// Attempts happen one per candidate, in listed order; a success is
    /// recorded exactly for the last attempted candidate, every attempt
    /// before it having failed.
    pub open spec fn wf(self) -> bool {
        &&& self.outcomes().len() == self.attempted()
        &&& self.attempted() <= self.candidates().len()
        &&& match self.connected() {
            Some(b) => {
                &&& self.attempted() >= 1
                &&& b == self.candidates()[self.attempted() - 1]
                &&& self.outcomes()[self.attempted() - 1]
                &&& forall|i: int| 0 <= i < self.attempted() - 1 ==> !self.outcomes()[i]
            },
            None => forall|i: int| 0 <= i < self.attempted() ==> !self.outcomes()[i],
        }
    }

    /// Starts a negotiation over the candidate list the given option calls
    /// for: the explicit rate alone, or the fixed default list.
    pub fn new(baudrate: Option<u32>) -> (r: Self)
        ensures
            r.wf(),
            r.candidates() == spec_candidates(baudrate),
            r.attempted() == 0,
            r.connected() is None,
    {
        let candidates: Vec<u32> = match baudrate {
            Some(b) => vec![b],
            None => vec![BAUD_HIGH, BAUD_FALLBACK],
        };
        proof {
            assert(candidates@ =~= spec_candidates(baudrate));
        }
        Negotiation {
            candidates,
            attempted: 0,
            connected: None,
            outcomes: Ghost(Seq::empty()),
        }
    }

    /// Whether another attempt is due: no candidate has succeeded yet and
    /// not all of them have been attempted.
    pub fn pending(&self) -> (r: bool)
        ensures
            r == (self.connected() is None && self.attempted() < self.candidates().len()),
    {
        self.connected.is_none() && self.attempted < self.candidates.len()
    }

    /// The rate the next attempt must use: the first candidate not yet
    /// attempted.
    pub fn next_rate(&self) -> (r: u32)
        requires
            self.connected() is None,
            self.attempted() < self.candidates().len(),
        ensures
            r == self.candidates()[self.attempted()],
    {
        self.candidates[self.attempted]
    }

    /// Records the outcome of the attempt at the next candidate: on success
    /// negotiation stops there with that rate; on failure it moves on to the
    /// remaining candidates, if any.
    pub fn record(&mut self, success: bool)
        requires
            old(self).wf(),
            old(self).connected() is None,
            old(self).attempted() < old(self).candidates().len(),
        ensures
            final(self).wf(),
            final(self).candidates() == old(self).candidates(),
            final(self).attempted() == old(self).attempted() + 1,
            final(self).outcomes() == old(self).outcomes().push(success),
            final(self).connected() == if success {
                Some(old(self).candidates()[old(self).attempted()])
            } else {
                None::<u32>
            },
    {
        if success {
            self.connected = Some(self.candidates[self.attempted]);
        }
        proof {
            // the attempt counter stays below the candidate count, which fits in usize
            assert(self.candidates.len() == self.candidates@.len());
        }
        self.attempted = self.attempted + 1;
        self.outcomes = Ghost(self.outcomes@.push(success));
    }

    /// The negotiation's result so far: the rate that succeeded, if any.
    pub fn result(&self) -> (r: Option<u32>)
        ensures
            r == self.connected(),
    {
        self.connected
    }
}

/// Negotiation stops at the first success: when a rate has been negotiated,
/// it is the candidate of the most recent attempt, taken in listed order,
/// and every candidate attempted before it failed.
pub proof fn lemma_negotiation_stops_at_first_success(n: Negotiation, b: u32)
    requires
        n.wf(),
        n.connected() == Some(b),
    ensures
        1 <= n.attempted() <= n.candidates().len(),
        b == n.candidates()[n.attempted() - 1],
        n.outcomes()[n.attempted() - 1],
        forall|i: int| 0 <= i < n.attempted() - 1 ==> !n.outcomes()[i],
{
}

/// When negotiation ends without a rate and no attempt is left, every one of
/// the candidates was attempted, in listed order, and every attempt failed.
pub proof fn lemma_negotiation_exhausts_all_candidates(n: Negotiation)
    requires
        n.wf(),
        n.connected() is None,
        n.attempted() == n.candidates().len(),
    ensures
        n.outcomes().len() == n.candidates().len(),
        forall|i: int| 0 <= i < n.candidates().len() ==> !n.outcomes()[i],
{
}

} // verus!
