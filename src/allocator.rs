//! The code allocator as a state machine. It decides; the caller performs each
//! store operation that it asks for and reports the outcome as an event.
//!
//! A run starts by looking the URL up (the dedup fast path). If the URL is
//! unknown, a random candidate code is drawn and inserted; a store-reported
//! duplicate makes the allocator look the URL up again and then draw anew,
//! moving to longer codes after `retries_per_length` collisions at one length,
//! and giving up after `max_attempts` collisions in all.
use crate::clock::now_utc_seconds;
use crate::code::{draw_code, is_code};
use crate::store::{
    first_with_url, has_code, has_url, new_link, LinkModel, LinkStore, StoreError,
};
use vstd::prelude::*;

verus! {

/// The tunable constants of code generation.
#[derive(Clone, Copy, Debug, PartialEq, Eq, Structural)]
pub struct AllocPolicy {
    /// Length of the first candidate drawn.
    pub start_length: usize,
    /// Collisions allowed at one length before the length grows by one.
    pub retries_per_length: u32,
    /// Collisions allowed in all before the allocation fails.
    pub max_attempts: u32,
}

impl AllocPolicy {
    pub open spec fn wf(&self) -> bool {
        &&& self.start_length >= 1
        &&& self.retries_per_length >= 1
        &&& self.max_attempts >= 1
        &&& self.start_length + self.max_attempts <= usize::MAX
    }

    /// Codes start at three symbols; the length grows after two collisions at
    /// one length; at most 32 collisions are tolerated.
    pub fn standard() -> (r: AllocPolicy)
        ensures
            r.wf(),
            r.start_length == 3,
            r.retries_per_length == 2,
            r.max_attempts == 32,
    {
        AllocPolicy { start_length: 3, retries_per_length: 2, max_attempts: 32 }
    }
}

/// Why an allocation failed.
#[derive(Clone, Copy, Debug, PartialEq, Eq, Structural)]
pub enum AllocError {
    /// The cap on collisions was reached.
    AllocationExhausted,
    /// The store could not serve a read or a write.
    StorageUnavailable,
}

/// Where a run of the allocator stands.
#[derive(Debug)]
pub enum Phase {
    /// Waiting for the lookup of the URL.
    Lookup,
    /// Waiting for the outcome of inserting this candidate.
    Inserting { short_code: String, created_at: i64 },
    /// Done: the URL has this code.
    Finished { short_code: String, created_at: i64 },
    /// Done: the allocation failed.
    Failed { error: AllocError },
}

/// The outcome of a store operation, as reported back to the allocator.
#[derive(Debug)]
pub enum StoreEvent {
    /// The URL lookup found a record.
    UrlFound { short_code: String, created_at: i64 },
    /// The URL lookup found none.
    UrlAbsent,
    /// The insert succeeded.
    Inserted,
    /// The insert was refused: the code is taken.
    DuplicateCode,
    /// The insert was refused: the URL got a record meanwhile.
    DuplicateUrl,
    /// The store could not serve the operation.
    StorageUnavailable,
}

/// What the allocator asks its caller to do next.
#[derive(Debug)]
pub enum Action {
    /// Look up the record of the URL being allocated.
    FindByUrl,
    /// Insert a record with this code for the URL being allocated.
    Insert { short_code: String, created_at: i64 },
    /// Hand this code back to the requester.
    Return { short_code: String, created_at: i64 },
    /// Report this error to the requester.
    Fail { error: AllocError },
}

/// The action that a phase asks for.
pub open spec fn action_of(p: Phase) -> Action {
    match p {
        Phase::Lookup => Action::FindByUrl,
        Phase::Inserting { short_code, created_at } => Action::Insert { short_code, created_at },
        Phase::Finished { short_code, created_at } => Action::Return { short_code, created_at },
        Phase::Failed { error } => Action::Fail { error },
    }
}

pub struct Allocator {
    original_url: String,
    policy: AllocPolicy,
    length: usize,
    collisions_at_length: u32,
    attempts: u32,
    phase: Phase,
}

impl Allocator {
    pub closed spec fn spec_url(&self) -> Seq<char> {
        self.original_url@
    }

    pub closed spec fn spec_policy(&self) -> AllocPolicy {
        self.policy
    }

    /// Length of the next candidate.
    pub closed spec fn spec_length(&self) -> nat {
        self.length as nat
    }

    /// Collisions since the length last grew.
    pub closed spec fn spec_collisions_at_length(&self) -> nat {
        self.collisions_at_length as nat
    }

    /// Collisions so far.
    pub closed spec fn spec_attempts(&self) -> nat {
        self.attempts as nat
    }

    pub closed spec fn spec_phase(&self) -> Phase {
        self.phase
    }

    pub open spec fn wf(&self) -> bool {
        let p = self.spec_policy();
        &&& p.wf()
        &&& self.spec_attempts() <= p.max_attempts
        &&& p.start_length <= self.spec_length() <= p.start_length + self.spec_attempts()
        &&& self.spec_collisions_at_length() < p.retries_per_length
        &&& self.spec_phase() matches Phase::Inserting { short_code, created_at } ==> {
            &&& self.spec_attempts() < p.max_attempts
            &&& short_code@.len() == self.spec_length()
            &&& is_code(short_code@)
        }
    }

    /// An upper bound on the number of steps left before the run is done.
    pub open spec fn remaining(&self) -> nat {
        match self.spec_phase() {
            Phase::Lookup => (2 * (self.spec_policy().max_attempts - self.spec_attempts()) + 1) as nat,
            Phase::Inserting { .. } => (2 * (self.spec_policy().max_attempts
                - self.spec_attempts())) as nat,
            _ => 0,
        }
    }

    /// The counters are those of `other`.
    pub open spec fn same_counters(&self, other: &Allocator) -> bool {
        &&& self.spec_length() == other.spec_length()
        &&& self.spec_collisions_at_length() == other.spec_collisions_at_length()
        &&& self.spec_attempts() == other.spec_attempts()
    }

    /// The counters after one more collision than `before` had.
    pub open spec fn collided_from(&self, before: &Allocator) -> bool {
        &&& self.spec_attempts() == before.spec_attempts() + 1
        &&& if before.spec_collisions_at_length() + 1 >= before.spec_policy().retries_per_length {
            &&& self.spec_length() == before.spec_length() + 1
            &&& self.spec_collisions_at_length() == 0
        } else {
            &&& self.spec_length() == before.spec_length()
            &&& self.spec_collisions_at_length() == before.spec_collisions_at_length() + 1
        }
    }

    /// The counters after one more attempt than `before` had, at the same length.
    pub open spec fn rechecked_from(&self, before: &Allocator) -> bool {
        &&& self.spec_attempts() == before.spec_attempts() + 1
        &&& self.spec_length() == before.spec_length()
        &&& self.spec_collisions_at_length() == before.spec_collisions_at_length()
    }

    /// A run for `original_url`; its first action is the lookup of the URL.
    pub fn new(original_url: String, policy: AllocPolicy) -> (r: Allocator)
        requires
            policy.wf(),
        ensures
            r.wf(),
            r.spec_url() == original_url@,
            r.spec_policy() == policy,
            r.spec_length() == policy.start_length,
            r.spec_collisions_at_length() == 0,
            r.spec_attempts() == 0,
            r.spec_phase() == Phase::Lookup,
    {
        Allocator {
            original_url,
            policy,
            length: policy.start_length,
            collisions_at_length: 0,
            attempts: 0,
            phase: Phase::Lookup,
        }
    }

    /// The URL being allocated.
    pub fn original_url(&self) -> (r: &String)
        ensures
            r@ == self.spec_url(),
    {
        &self.original_url
    }

    /// The action that the current phase asks for.
    pub fn pending(&self) -> (r: Action)
        ensures
            r == action_of(self.spec_phase()),
    {
        match &self.phase {
            Phase::Lookup => Action::FindByUrl,
            Phase::Inserting { short_code, created_at } => Action::Insert {
                short_code: short_code.clone(),
                created_at: *created_at,
            },
            Phase::Finished { short_code, created_at } => Action::Return {
                short_code: short_code.clone(),
                created_at: *created_at,
            },
            Phase::Failed { error } => Action::Fail { error: *error },
        }
    }

    /// Takes the outcome of the pending action and returns the next action.
    /// An event that does not answer the pending action changes nothing.
    pub fn step(&mut self, ev: StoreEvent) -> (r: Action)
        requires
            old(self).wf(),
        ensures
            final(self).wf(),
            final(self).spec_url() == old(self).spec_url(),
            final(self).spec_policy() == old(self).spec_policy(),
            r == action_of(final(self).spec_phase()),
            match old(self).spec_phase() {
                Phase::Lookup => match ev {
                    StoreEvent::UrlFound { short_code, created_at } => {
                        &&& final(self).spec_phase() == Phase::Finished { short_code, created_at }
                        &&& final(self).same_counters(old(self))
                    },
                    StoreEvent::UrlAbsent => {
                        &&& final(self).same_counters(old(self))
                        &&& if old(self).spec_attempts() < old(self).spec_policy().max_attempts {
                            final(self).spec_phase() matches Phase::Inserting { short_code, .. }
                                && short_code@.len() == old(self).spec_length() && is_code(
                                short_code@,
                            )
                        } else {
                            final(self).spec_phase() == Phase::Failed {
                                error: AllocError::AllocationExhausted,
                            }
                        }
                    },
                    StoreEvent::StorageUnavailable => {
                        &&& final(self).spec_phase() == Phase::Failed {
                            error: AllocError::StorageUnavailable,
                        }
                        &&& final(self).same_counters(old(self))
                    },
                    _ => *final(self) == *old(self),
                },
                Phase::Inserting { short_code, created_at } => match ev {
                    StoreEvent::Inserted => {
                        &&& final(self).spec_phase() == Phase::Finished { short_code, created_at }
                        &&& final(self).same_counters(old(self))
                    },
                    StoreEvent::DuplicateCode => {
                        &&& final(self).spec_phase() == Phase::Lookup
                        &&& final(self).collided_from(old(self))
                    },
                    StoreEvent::DuplicateUrl => {
                        &&& final(self).spec_phase() == Phase::Lookup
                        &&& final(self).rechecked_from(old(self))
                    },
                    StoreEvent::StorageUnavailable => {
                        &&& final(self).spec_phase() == Phase::Failed {
                            error: AllocError::StorageUnavailable,
                        }
                        &&& final(self).same_counters(old(self))
                    },
                    _ => *final(self) == *old(self),
                },
                _ => *final(self) == *old(self),
            },
    {
        let mut collided = false;
        let mut rechecked = false;
        let next: Option<Phase> = match &self.phase {
            Phase::Lookup => match ev {
                StoreEvent::UrlFound { short_code, created_at } => Some(
                    Phase::Finished { short_code, created_at },
                ),
                StoreEvent::UrlAbsent => {
                    if self.attempts < self.policy.max_attempts {
                        let short_code = draw_code(self.length);
                        let created_at = now_utc_seconds();
                        Some(Phase::Inserting { short_code, created_at })
                    } else {
                        Some(Phase::Failed { error: AllocError::AllocationExhausted })
                    }
                },
                StoreEvent::StorageUnavailable => Some(
                    Phase::Failed { error: AllocError::StorageUnavailable },
                ),
                _ => None,
            },
            Phase::Inserting { short_code, created_at } => match ev {
                StoreEvent::Inserted => Some(
                    Phase::Finished { short_code: short_code.clone(), created_at: *created_at },
                ),
                StoreEvent::DuplicateCode => {
                    collided = true;
                    Some(Phase::Lookup)
                },
                StoreEvent::DuplicateUrl => {
                    rechecked = true;
                    Some(Phase::Lookup)
                },
                StoreEvent::StorageUnavailable => Some(
                    Phase::Failed { error: AllocError::StorageUnavailable },
                ),
                _ => None,
            },
            _ => None,
        };
        if collided {
            self.attempts = self.attempts + 1;
            if self.collisions_at_length + 1 >= self.policy.retries_per_length {
                self.length = self.length + 1;
                self.collisions_at_length = 0;
            } else {
                self.collisions_at_length = self.collisions_at_length + 1;
            }
        }
        if rechecked {
            self.attempts = self.attempts + 1;
        }
        match next {
            Some(p) => {
                self.phase = p;
            },
            None => {},
        }
        self.pending()
    }
}

/// `s1` is `s0` with one new record for `url`: a code `code` that no record of
/// `s0` holds, drawn at a length that `policy` allows, created at `created_at`.
pub open spec fn fresh_link(
    s0: Seq<LinkModel>,
    url: Seq<char>,
    policy: AllocPolicy,
    s1: Seq<LinkModel>,
    code: Seq<char>,
    created_at: i64,
) -> bool {
    &&& s1 == s0.push(new_link(s0, code, url, created_at))
    &&& !has_code(s0, code)
    &&& is_code(code)
    &&& policy.start_length <= code.len() <= policy.start_length + policy.max_attempts
    &&& forall|len: int|
        policy.start_length <= len < code.len() ==> #[trigger] holds_code_of_length(s0, len)
}

/// Some record of `s` holds a code of length `len`.
pub open spec fn holds_code_of_length(s: Seq<LinkModel>, len: int) -> bool {
    exists|i: int| 0 <= i < s.len() && (#[trigger] s[i]).short_code.len() == len
}

/// `s` holds a code of every length that `policy` draws at before its cap on
/// collisions is reached: only then can every candidate collide.
pub open spec fn occupies_drawn_lengths(s: Seq<LinkModel>, policy: AllocPolicy) -> bool {
    forall|len: int|
        policy.start_length <= len && (len - policy.start_length) * policy.retries_per_length
            < policy.max_attempts ==> #[trigger] holds_code_of_length(s, len)
}

/// The outcome of allocating a code for `url` in store `s0`, leaving store `s1`.
/// A known URL gets the code of its first record and leaves the store as it
/// was; an unknown one gets a fresh record, or an error and no change.
pub open spec fn allocated(
    s0: Seq<LinkModel>,
    url: Seq<char>,
    policy: AllocPolicy,
    s1: Seq<LinkModel>,
    r: Result<(String, i64), AllocError>,
) -> bool {
    if has_url(s0, url) {
        &&& s1 == s0
        &&& r is Ok
        &&& exists|i: int|
            first_with_url(s0, url, i) && (#[trigger] s0[i]).short_code == r->Ok_0.0@
                && s0[i].created_at == r->Ok_0.1
    } else {
        match r {
            Ok((code, created_at)) => fresh_link(s0, url, policy, s1, code@, created_at),
            Err(_) => s1 == s0,
        }
    }
}

/// When every collision so far filled the lengths from `start_length` up, and
/// the cap is reached, the store holds a code of every length drawn at.
proof fn lemma_exhaustion_occupies_lengths(
    s: Seq<LinkModel>,
    policy: AllocPolicy,
    length: int,
    collisions: int,
)
    requires
        policy.wf(),
        policy.start_length <= length,
        0 <= collisions < policy.retries_per_length,
        (length - policy.start_length) * policy.retries_per_length + collisions
            == policy.max_attempts,
        forall|len: int|
            policy.start_length <= len < length ==> #[trigger] holds_code_of_length(s, len),
        collisions > 0 ==> holds_code_of_length(s, length),
    ensures
        occupies_drawn_lengths(s, policy),
{
    let r = policy.retries_per_length as int;
    let start = policy.start_length as int;
    assert forall|len: int|
        start <= len && (len - start) * r < policy.max_attempts implies #[trigger] holds_code_of_length(
        s,
        len,
    ) by {
        if len > length {
            let a = len - start;
            let b = length - start;
            assert(a * r >= (b + 1) * r) by (nonlinear_arith)
                requires
                    a >= b + 1,
                    r > 0,
            ;
            assert((b + 1) * r == b * r + r) by (nonlinear_arith);
        }
    }
}

/// Returns the code of `original_url` in `store`, creating a record with a new
/// random code if the URL has none. Duplicate codes reported by the store are
/// retried as `policy` allows and never reach the caller.
/// Exhaustion needs a collision at every length drawn at, so it is ruled out
/// unless the store holds a code of each of those lengths; in particular an
/// empty store always yields a code, of exactly `start_length` symbols.
pub fn unique_short_url(store: &mut LinkStore, original_url: &String, policy: AllocPolicy) -> (r:
    Result<(String, i64), AllocError>)
    requires
        old(store).wf(),
        policy.wf(),
    ensures
        final(store).wf(),
        allocated(old(store)@, original_url@, policy, final(store)@, r),
        r == Err::<(String, i64), AllocError>(AllocError::StorageUnavailable) ==> old(
            store,
        ).is_full(),
        old(store).is_full() ==> r is Err || has_url(old(store)@, original_url@),
        r == Err::<(String, i64), AllocError>(AllocError::AllocationExhausted)
            ==> occupies_drawn_lengths(old(store)@, policy),
        !old(store).is_full() && !occupies_drawn_lengths(old(store)@, policy) ==> r is Ok,
        old(store)@.len() == 0 ==> r is Ok,
{
    let ghost s0 = store@;
    let ghost full0 = store.is_full();
    let mut alloc = Allocator::new(original_url.clone(), policy);
    let mut action = alloc.pending();
    loop
        invariant
            s0 == old(store)@,
            full0 == old(store).is_full(),
            old(store).wf(),
            store.wf(),
            alloc.wf(),
            alloc.spec_url() == original_url@,
            alloc.spec_policy() == policy,
            action == action_of(alloc.spec_phase()),
            (alloc.spec_length() - policy.start_length) * policy.retries_per_length
                + alloc.spec_collisions_at_length() == alloc.spec_attempts(),
            forall|len: int|
                policy.start_length <= len < alloc.spec_length() ==> #[trigger] holds_code_of_length(
                    s0,
                    len,
                ),
            alloc.spec_collisions_at_length() > 0 ==> holds_code_of_length(
                s0,
                alloc.spec_length() as int,
            ),
            match alloc.spec_phase() {
                Phase::Lookup => store@ == s0 && store.is_full() == full0,
                Phase::Inserting { .. } => {
                    &&& store@ == s0
                    &&& store.is_full() == full0
                    &&& !has_url(s0, original_url@)
                },
                Phase::Finished { short_code, created_at } => {
                    ||| {
                        &&& store@ == s0
                        &&& exists|i: int|
                            first_with_url(s0, original_url@, i) && (#[trigger] s0[i]).short_code
                                == short_code@ && s0[i].created_at == created_at
                    }
                    ||| {
                        &&& !has_url(s0, original_url@)
                        &&& !full0
                        &&& fresh_link(
                            s0,
                            original_url@,
                            policy,
                            store@,
                            short_code@,
                            created_at,
                        )
                    }
                },
                Phase::Failed { error } => {
                    &&& store@ == s0
                    &&& !has_url(s0, original_url@)
                    &&& error == AllocError::StorageUnavailable ==> full0
                    &&& error == AllocError::AllocationExhausted ==> alloc.spec_attempts()
                        == policy.max_attempts
                },
            },
        decreases alloc.remaining(),
    {
        let ev = match action {
            Action::FindByUrl => match store.find_by_original_url(original_url) {
                Some(rec) => StoreEvent::UrlFound {
                    short_code: rec.short_code,
                    created_at: rec.created_at,
                },
                None => StoreEvent::UrlAbsent,
            },
            Action::Insert { short_code, created_at } => {
                match store.insert(short_code, original_url.clone(), created_at) {
                    Ok(_) => StoreEvent::Inserted,
                    Err(StoreError::DuplicateCode) => StoreEvent::DuplicateCode,
                    Err(StoreError::DuplicateUrl) => StoreEvent::DuplicateUrl,
                    Err(StoreError::StorageUnavailable) => StoreEvent::StorageUnavailable,
                }
            },
            Action::Return { short_code, created_at } => {
                proof {
                    assert forall|i: int| first_with_url(s0, original_url@, i) implies has_url(
                        s0,
                        original_url@,
                    ) by {
                        assert(s0[i].original_url == original_url@);
                    }
                }
                return Ok((short_code, created_at));
            },
            Action::Fail { error } => {
                proof {
                    match error {
                        AllocError::AllocationExhausted => {
                            lemma_exhaustion_occupies_lengths(
                                s0,
                                policy,
                                alloc.spec_length() as int,
                                alloc.spec_collisions_at_length() as int,
                            );
                            assert(holds_code_of_length(s0, policy.start_length as int));
                        },
                        AllocError::StorageUnavailable => {
                            old(store).lemma_links_valid();
                        },
                    }
                }
                return Err(error);
            },
        };
        let ghost before = alloc;
        action = alloc.step(ev);
        proof {
            if before.spec_phase() is Inserting && alloc.spec_phase() is Lookup {
                let len = before.spec_length() as int;
                let r = policy.retries_per_length as int;
                let k = len - policy.start_length;
                assert(holds_code_of_length(s0, len));
                if alloc.spec_length() == before.spec_length() + 1 {
                    assert((k + 1) * r == k * r + r) by (nonlinear_arith);
                }
            }
        }
    }
}

} // verus!
