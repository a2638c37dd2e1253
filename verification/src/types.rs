//! Identifiers, tenancy scopes and the bi-temporal time model.
//!
//! Every memory and every edge carries a [`BiTemporal`] stamp: history is
//! never overwritten, a fact is invalidated and a new version is written.

use vstd::prelude::*;
use vstd::std_specs::convert::FromSpecImpl;

verus! {

/// Sortable identifier of log entries and entities: the 128-bit value of a
/// ULID (48 bits of millisecond timestamp, then 80 random bits). Ids compare
/// and order exactly as the ULIDs they come from.
pub type Id = u128;

#[verifier::external_body]
fn ulid_new_value() -> u128 {
    ulid::Ulid::new().0
}

/// Generates a fresh time-ordered id.
///
/// The value depends on the clock and on a random source, so nothing is
/// promised of it beyond its type.
pub fn new_id() -> Id {
    ulid_new_value()
}

/// Typed reference to a memory.
#[derive(Debug, Clone, Copy, PartialEq, Eq, Structural, Hash)]
pub struct MemoryRef(pub Id);

/// Typed reference to an episode.
#[derive(Debug, Clone, Copy, PartialEq, Eq, Structural, Hash)]
pub struct EpisodeRef(pub Id);

/// Typed reference to a recorded outcome.
#[derive(Debug, Clone, Copy, PartialEq, Eq, Structural, Hash)]
pub struct OutcomeRef(pub Id);

/// Typed reference to a policy artifact.
#[derive(Debug, Clone, Copy, PartialEq, Eq, Structural, Hash)]
pub struct ArtifactRef(pub Id);

/// Typed reference to a trajectory.
#[derive(Debug, Clone, Copy, PartialEq, Eq, Structural, Hash)]
pub struct TrajectoryRef(pub Id);

/// Identifier of a procedural proposal.
#[derive(Debug, Clone, Copy, PartialEq, Eq, Structural, Hash)]
pub struct ProposalId(pub Id);

impl From<Id> for MemoryRef {
    fn from(id: Id) -> (r: Self) {
        MemoryRef(id)
    }
}

impl FromSpecImpl<Id> for MemoryRef {
    open spec fn obeys_from_spec() -> bool {
        true
    }

    open spec fn from_spec(id: Id) -> Self {
        MemoryRef(id)
    }
}

impl From<Id> for EpisodeRef {
    fn from(id: Id) -> (r: Self) {
        EpisodeRef(id)
    }
}

impl FromSpecImpl<Id> for EpisodeRef {
    open spec fn obeys_from_spec() -> bool {
        true
    }

    open spec fn from_spec(id: Id) -> Self {
        EpisodeRef(id)
    }
}

impl From<Id> for OutcomeRef {
    fn from(id: Id) -> (r: Self) {
        OutcomeRef(id)
    }
}

impl FromSpecImpl<Id> for OutcomeRef {
    open spec fn obeys_from_spec() -> bool {
        true
    }

    open spec fn from_spec(id: Id) -> Self {
        OutcomeRef(id)
    }
}

impl From<Id> for ArtifactRef {
    fn from(id: Id) -> (r: Self) {
        ArtifactRef(id)
    }
}

impl FromSpecImpl<Id> for ArtifactRef {
    open spec fn obeys_from_spec() -> bool {
        true
    }

    open spec fn from_spec(id: Id) -> Self {
        ArtifactRef(id)
    }
}

impl From<Id> for TrajectoryRef {
    fn from(id: Id) -> (r: Self) {
        TrajectoryRef(id)
    }
}

impl FromSpecImpl<Id> for TrajectoryRef {
    open spec fn obeys_from_spec() -> bool {
        true
    }

    open spec fn from_spec(id: Id) -> Self {
        TrajectoryRef(id)
    }
}

impl From<Id> for ProposalId {
    fn from(id: Id) -> (r: Self) {
        ProposalId(id)
    }
}

impl FromSpecImpl<Id> for ProposalId {
    open spec fn obeys_from_spec() -> bool {
        true
    }

    open spec fn from_spec(id: Id) -> Self {
        ProposalId(id)
    }
}

// ---------------------------------------------------------------------------
// Bi-temporal stamps
// ---------------------------------------------------------------------------

#[verifier::external_body]
fn now_utc_unix_nanos() -> i128 {
    time::OffsetDateTime::now_utc().unix_timestamp_nanos()
}

/// Bi-temporal stamp: validity time (when the fact was true in the world)
/// and transaction time (when the system learned/forgot it). Instants are
/// nanoseconds since the Unix epoch, UTC.
///
/// `valid_to` / `tx_to` are `None` while the fact is current.
#[derive(Debug, Clone, Copy, PartialEq, Eq, Structural)]
pub struct BiTemporal {
    pub valid_from: i128,
    pub valid_to: Option<i128>,
    pub tx_from: i128,
    pub tx_to: Option<i128>,
}

/// The fact is valid at `at` (inside `[valid_from, valid_to)`) and has not
/// been superseded in the system.
pub open spec fn spec_is_live(b: BiTemporal, at: int) -> bool {
    &&& b.valid_from <= at
    &&& match b.valid_to {
        None => true,
        Some(end) => at < end,
    }
    &&& b.tx_to is None
}

impl BiTemporal {
    /// A stamp that is valid-now and was just recorded.
    pub fn now() -> (stamp: BiTemporal)
        ensures
            stamp.valid_from == stamp.tx_from,
            stamp.valid_to is None,
            stamp.tx_to is None,
            spec_is_live(stamp, stamp.valid_from as int),
    {
        BiTemporal::recorded_at(now_utc_unix_nanos())
    }

    /// The stamp of a fact that became valid at instant `t` and was recorded
    /// at that same instant; it is current in both times.
    pub fn recorded_at(t: i128) -> (stamp: BiTemporal)
        ensures
            stamp == (BiTemporal { valid_from: t, valid_to: None, tx_from: t, tx_to: None }),
            spec_is_live(stamp, t as int),
    {
        BiTemporal { valid_from: t, valid_to: None, tx_from: t, tx_to: None }
    }

    /// True if the fact is valid at `at` and not yet superseded in the system.
    pub fn is_live(&self, at: i128) -> (live: bool)
        ensures
            live == spec_is_live(*self, at as int),
    {
        let valid = self.valid_from <= at && match self.valid_to {
            None => true,
            Some(end) => at < end,
        };
        let current = self.tx_to.is_none();
        valid && current
    }
}

/// A superseded fact (one whose transaction time has ended) is never live,
/// whatever instant it is asked about.
pub proof fn lemma_superseded_never_live(b: BiTemporal, at: int)
    requires
        b.tx_to is Some,
    ensures
        !spec_is_live(b, at),
{
}

/// Liveness of a current fact is exactly membership of the half-open
/// validity interval `[valid_from, valid_to)`.
pub proof fn lemma_live_iff_in_validity_interval(b: BiTemporal, at: int)
    requires
        b.tx_to is None,
    ensures
        spec_is_live(b, at) <==> (b.valid_from <= at && (b.valid_to is None || at < b.valid_to->0)),
{
}

// ---------------------------------------------------------------------------
// Scopes
// ---------------------------------------------------------------------------

/// Tenancy + ownership boundary. Procedural learning and memory evolution
/// never cross a scope boundary without an explicit aggregation step.
#[derive(Debug, Clone, PartialEq, Eq, Hash)]
pub struct Scope {
    pub tenant: String,
    pub user: Option<String>,
    /// `None` => applies to the whole user/tenant; `Some` => single session.
    pub session: Option<String>,
}

/// The mathematical content of a [`Scope`].
pub struct ScopeView {
    pub tenant: Seq<char>,
    pub user: Option<Seq<char>>,
    pub session: Option<Seq<char>>,
}

pub open spec fn opt_string_view(o: Option<String>) -> Option<Seq<char>> {
    match o {
        None => None,
        Some(s) => Some(s@),
    }
}

impl View for Scope {
    type V = ScopeView;

    open spec fn view(&self) -> ScopeView {
        ScopeView {
            tenant: self.tenant@,
            user: opt_string_view(self.user),
            session: opt_string_view(self.session),
        }
    }
}

/// `a` may read/learn from data stamped `b`: same tenant, and `a` is at
/// least as wide as `b` (global ⊇ user ⊇ session).
pub open spec fn scope_contains(a: ScopeView, b: ScopeView) -> bool {
    &&& a.tenant == b.tenant
    &&& match a.user {
        None => true,
        Some(u) => {
            &&& b.user == Some(u)
            &&& match a.session {
                None => true,
                Some(s) => b.session == Some(s),
            }
        },
    }
}

impl Scope {
    /// The tenant-wide scope: no user, no session.
    pub fn global(tenant: &str) -> (s: Scope)
        ensures
            s@.tenant == tenant@,
            s@.user is None,
            s@.session is None,
    {
        Scope { tenant: tenant.to_owned(), user: None, session: None }
    }

    /// True if `self` is allowed to read/learn from data stamped `other`.
    /// Global scope contains user scope contains session scope.
    pub fn contains(&self, other: &Scope) -> (ok: bool)
        ensures
            ok == scope_contains(self@, other@),
    {
        if !self.tenant.eq(&other.tenant) {
            return false;
        }
        match (&self.user, &other.user) {
            (None, _) => true,
            (Some(_), None) => false,
            (Some(a), Some(b)) => {
                a.eq(b) && match (&self.session, &other.session) {
                    (None, _) => true,
                    (Some(_), None) => false,
                    (Some(x), Some(y)) => x.eq(y),
                }
            },
        }
    }
}

/// Every scope may read its own data.
pub proof fn lemma_scope_contains_reflexive(a: ScopeView)
    ensures
        scope_contains(a, a),
{
}

/// Containment composes: reading rights pass down the global ⊇ user ⊇
/// session hierarchy.
pub proof fn lemma_scope_contains_transitive(a: ScopeView, b: ScopeView, c: ScopeView)
    requires
        scope_contains(a, b),
        scope_contains(b, c),
    ensures
        scope_contains(a, c),
{
}

/// The tenant is a hard security boundary: no scope reads across tenants.
pub proof fn lemma_scope_never_crosses_tenant(a: ScopeView, b: ScopeView)
    requires
        a.tenant != b.tenant,
    ensures
        !scope_contains(a, b),
{
}

/// A tenant-wide scope reads exactly the data of its own tenant.
pub proof fn lemma_global_scope_reads_whole_tenant(a: ScopeView, b: ScopeView)
    requires
        a.user is None,
    ensures
        scope_contains(a, b) <==> a.tenant == b.tenant,
{
}

/// A narrower scope never reads a wider one: a user scope cannot read
/// tenant-wide data, and a session scope cannot read user-wide data.
pub proof fn lemma_narrow_scope_cannot_read_wider(a: ScopeView, b: ScopeView)
    ensures
        a.user is Some && b.user is None ==> !scope_contains(a, b),
        a.session is Some && b.session is None && a.user is Some ==> !scope_contains(a, b),
{
}

/// A user-scoped reader reads only the data of that exact user, and a
/// session-scoped reader only the data of that exact session.
pub proof fn lemma_user_scope_reads_only_its_user(a: ScopeView, b: ScopeView)
    ensures
        a.user is Some && scope_contains(a, b) ==> b.user == a.user,
        a.user is Some && a.session is Some && scope_contains(a, b) ==> b.session == a.session,
        a.user is Some && b.user is Some && a.user != b.user ==> !scope_contains(a, b),
{
}

} // verus!
