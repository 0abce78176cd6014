//! Port allocation.
//!
//! Allocation is a small state machine: it decides which port to try to
//! bind next, and how to classify the outcome, while the caller performs
//! the actual bind. A nonzero requested port must lie in the configured
//! inclusive range and is tried exactly once; the zero sentinel ("any
//! port") is served by up to `ANY_PORT_ATTEMPTS` independent uniformly
//! random picks from the range.

use vstd::prelude::*;

verus! {

/// Number of independent random bind attempts made for a request of "any
/// port". Chosen so that even with only 15% of the range free, the chance
/// that every attempt lands on an occupied port is below 0.001%.
pub const ANY_PORT_ATTEMPTS: u16 = 150;

/// How a bind attempt failed, as reported by the caller that performed it.
#[derive(Clone, Copy, Debug, PartialEq, Eq, Structural)]
pub enum BindFailure {
    /// The port is already bound by some other process.
    AddrInUse,
    /// The operating system refused the bind.
    PermissionDenied,
    /// Any other bind error.
    Other,
}

/// Why an allocation failed as a whole.
#[derive(Clone, Copy, Debug, PartialEq, Eq, Structural)]
pub enum AllocError {
    /// A nonzero requested port lies outside the configured range.
    OutOfRange,
    /// The requested port is already bound by another process.
    AddressInUse,
    /// The operating system refused to bind the requested port.
    PermissionDenied,
    /// The requested port could not be bound for some other reason.
    BindFailed,
    /// Every random attempt at finding a free port failed.
    NoPortAvailable,
}

/// What the allocation asks of its driver next: attempt to bind a port,
/// or give up with an error.
#[derive(Clone, Copy, Debug, PartialEq, Eq, Structural)]
pub enum AllocStep {
    /// Attempt to bind this port and report the outcome.
    Try(u16),
    /// Allocation failed; no further bind may be attempted for it.
    Fail(AllocError),
}

/// Whether `p` lies in the inclusive range `lo..=hi`.
pub open spec fn port_in_range(lo: u16, hi: u16, p: u16) -> bool {
    lo <= p && p <= hi
}

/// How a failure to bind a specifically requested port is reported.
pub open spec fn classify_bind_failure(f: BindFailure) -> AllocError {
    match f {
        BindFailure::AddrInUse => AllocError::AddressInUse,
        BindFailure::PermissionDenied => AllocError::PermissionDenied,
        BindFailure::Other => AllocError::BindFailed,
    }
}

/// State of one allocation in progress.
pub struct AllocState {
    /// Lowest port of the configured inclusive range.
    pub lo: u16,
    /// Highest port of the configured inclusive range.
    pub hi: u16,
    /// The port the client asked for; zero means "any port".
    pub requested: u16,
    /// Random attempts that may still be made after the current one.
    pub attempts_left: u16,
}

impl AllocState {
    /// A state the allocation functions can be driven from.
    pub open spec fn wf(self) -> bool {
        &&& self.lo <= self.hi
        &&& self.attempts_left < ANY_PORT_ATTEMPTS
    }
}

/// Relies on fastrand::u16: a value drawn uniformly from the given
/// inclusive range; it panics only when the range is empty.
#[verifier::external_body]
fn random_port_in(lo: u16, hi: u16) -> (p: u16)
    requires
        lo <= hi,
    ensures
        lo <= p <= hi,
{
    fastrand::u16(lo..=hi)
}

/// Start one allocation of `requested` against the range `lo..=hi`.
///
/// A nonzero port outside the range fails at once with `OutOfRange` and no
/// bind is asked for; a nonzero port inside the range is the one and only
/// port the driver is asked to bind; the zero sentinel yields a first
/// random pick from the range, with `ANY_PORT_ATTEMPTS - 1` retries left.
pub fn alloc_begin(lo: u16, hi: u16, requested: u16) -> (r: (AllocState, AllocStep))
    requires
        lo <= hi,
    ensures
        r.0.wf(),
        r.0.lo == lo && r.0.hi == hi && r.0.requested == requested,
        requested != 0 && !port_in_range(lo, hi, requested)
            ==> r.1 == AllocStep::Fail(AllocError::OutOfRange),
        requested != 0 && port_in_range(lo, hi, requested) ==> r.1 == AllocStep::Try(requested),
        requested == 0 ==> {
            &&& r.1 matches AllocStep::Try(p) && port_in_range(lo, hi, p)
            &&& r.0.attempts_left == ANY_PORT_ATTEMPTS - 1
        },
{
    if requested != 0 {
        let state = AllocState { lo, hi, requested, attempts_left: 0 };
        if requested < lo || requested > hi {
            (state, AllocStep::Fail(AllocError::OutOfRange))
        } else {
            (state, AllocStep::Try(requested))
        }
    } else {
        let p = random_port_in(lo, hi);
        let state = AllocState { lo, hi, requested, attempts_left: ANY_PORT_ATTEMPTS - 1 };
        (state, AllocStep::Try(p))
    }
}

/// Drive an allocation forward after the bind it last asked for failed.
///
/// A specifically requested port is never retried: its failure is
/// classified and final. For "any port", each failure spends one attempt
/// on a fresh random pick until none is left, and then the allocation
/// fails with `NoPortAvailable`.
pub fn alloc_next(s: &mut AllocState, failure: BindFailure) -> (r: AllocStep)
    requires
        old(s).wf(),
    ensures
        final(s).wf(),
        final(s).lo == old(s).lo && final(s).hi == old(s).hi,
        final(s).requested == old(s).requested,
        old(s).requested != 0 ==> r == AllocStep::Fail(classify_bind_failure(failure)),
        old(s).requested == 0 && old(s).attempts_left == 0
            ==> r == AllocStep::Fail(AllocError::NoPortAvailable),
        old(s).requested == 0 && old(s).attempts_left > 0 ==> {
            &&& r matches AllocStep::Try(p) && port_in_range(old(s).lo, old(s).hi, p)
            &&& final(s).attempts_left == old(s).attempts_left - 1
        },
{
    if s.requested != 0 {
        match failure {
            BindFailure::AddrInUse => AllocStep::Fail(AllocError::AddressInUse),
            BindFailure::PermissionDenied => AllocStep::Fail(AllocError::PermissionDenied),
            BindFailure::Other => AllocStep::Fail(AllocError::BindFailed),
        }
    } else if s.attempts_left == 0 {
        AllocStep::Fail(AllocError::NoPortAvailable)
    } else {
        s.attempts_left = s.attempts_left - 1;
        AllocStep::Try(random_port_in(s.lo, s.hi))
    }
}

/// Law: an allocation cannot be driven forever, and against a range in
/// which every bind attempt fails its outcome is fixed. A nonzero request
/// outside the range is refused as `OutOfRange`; a nonzero request inside
/// the range fails as its one bind failure is classified; and a request
/// for "any port" — every one of its random attempts failing — always
/// ends in `NoPortAvailable` once its attempt budget is spent.
pub fn alloc_outcome_when_all_binds_fail(
    lo: u16,
    hi: u16,
    requested: u16,
    failure: BindFailure,
) -> (r: AllocError)
    requires
        lo <= hi,
    ensures
        requested == 0 ==> r == AllocError::NoPortAvailable,
        requested != 0 && port_in_range(lo, hi, requested) ==> r == classify_bind_failure(failure),
        requested != 0 && !port_in_range(lo, hi, requested) ==> r == AllocError::OutOfRange,
{
    let (mut st, step) = alloc_begin(lo, hi, requested);
    match step {
        AllocStep::Fail(e) => e,
        AllocStep::Try(_) => {
            if requested != 0 {
                match alloc_next(&mut st, failure) {
                    AllocStep::Fail(e) => e,
                    AllocStep::Try(_) => {
                        proof {
                            assert(false);
                        }
                        AllocError::BindFailed
                    },
                }
            } else {
                let mut budget: u16 = ANY_PORT_ATTEMPTS;
                let mut out: Option<AllocError> = None;
                while out.is_none()
                    invariant
                        st.wf(),
                        st.requested == 0,
                        st.lo == lo && st.hi == hi,
                        out is None ==> budget == st.attempts_left + 1,
                        (out matches Some(e) ==> e == AllocError::NoPortAvailable),
                    decreases budget,
                {
                    match alloc_next(&mut st, failure) {
                        AllocStep::Fail(e) => {
                            out = Some(e);
                            budget = 0;
                        },
                        AllocStep::Try(_) => {
                            budget = budget - 1;
                        },
                    }
                }
                match out {
                    Some(e) => e,
                    None => AllocError::NoPortAvailable,
                }
            }
        },
    }
}

impl AllocError {
    /// The view of the description `message` returns.
    pub open spec fn message_spec(self) -> Seq<char> {
        match self {
            AllocError::OutOfRange => "client port number not in allowed range"@,
            AllocError::AddressInUse => "port already in use"@,
            AllocError::PermissionDenied => "permission denied"@,
            AllocError::BindFailed => "failed to bind to port"@,
            AllocError::NoPortAvailable => "failed to find an available port"@,
        }
    }

    /// The description of this failure, sent to the client in an `Error`
    /// message.
    pub fn message(&self) -> (r: &'static str)
        ensures
            r@ == self.message_spec(),
    {
        match self {
            AllocError::OutOfRange => "client port number not in allowed range",
            AllocError::AddressInUse => "port already in use",
            AllocError::PermissionDenied => "permission denied",
            AllocError::BindFailed => "failed to bind to port",
            AllocError::NoPortAvailable => "failed to find an available port",
        }
    }
}

} // verus!
