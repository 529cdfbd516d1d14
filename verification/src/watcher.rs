//! The watcher handle and the membership extractor.
//!
//! A `PeerWatcher` wraps the watched path and the Change Signal: a shared
//! boolean that the background worker's callbacks set and that the consumer
//! reads and clears. The extractor turns the lines of the peer file into
//! member descriptors; the file read and the address resolution happen at
//! the caller's edge, and the verified functions here make every decision
//! in between.

use std::sync::Arc;
use std::sync::atomic::{AtomicBool, Ordering};
use vstd::prelude::*;
use vstd::string::{StrSliceExecFns, StringExecFns};

use crate::error::{Error, ErrorV};
use crate::member::{member_of_address, member_wf, Member, MemberV};

verus! {

/// Relies on core::sync::atomic::AtomicBool::store with relaxed ordering:
/// writes the shared Change Signal. The flag is shared across threads, so
/// no later read is pinned to this value.
#[verifier::external_body]
fn flag_store(flag: &Arc<AtomicBool>, value: bool) {
    flag.store(value, Ordering::Relaxed);
}

/// Relies on core::sync::atomic::AtomicBool::load with relaxed ordering:
/// reads the shared Change Signal. Another thread may change the flag at
/// any moment, so nothing can be promised of the value.
#[verifier::external_body]
fn flag_load(flag: &Arc<AtomicBool>) -> bool {
    flag.load(Ordering::Relaxed)
}

/// Relies on std::sync::Arc::clone: returns another handle to the same
/// shared Change Signal allocation, so the clone is equal to what it was
/// cloned from.
#[verifier::external_body]
fn flag_clone(flag: &Arc<AtomicBool>) -> (r: Arc<AtomicBool>)
    ensures
        r == *flag,
{
    Arc::clone(flag)
}

/// Whether some character of `s` is a colon, which makes a peer line carry
/// its own port.
pub open spec fn contains_colon(s: Seq<char>) -> bool {
    exists|i: int| 0 <= i < s.len() && s[i] == ':'
}

/// The `:port` suffix appended to a peer line that names no port: the
/// decimal digits of [`crate::DEFAULT_GOSSIP_PORT`].
pub open spec fn default_port_suffix() -> Seq<char> {
    ":9638"@
}

/// The appended suffix is a colon followed by the decimal digits of
/// [`crate::DEFAULT_GOSSIP_PORT`].
pub proof fn lemma_default_port_suffix()
    ensures
        default_port_suffix() == seq![':', '9', '6', '3', '8'],
{
    reveal_strlit(":9638");
    assert(default_port_suffix() =~= seq![':', '9', '6', '3', '8']);
}

/// The `host:port` text that one non-empty peer line resolves through: the
/// line itself when it already carries a colon, otherwise the line with the
/// default gossip port appended.
pub open spec fn peer_addr_spec(line: Seq<char>) -> Seq<char> {
    if contains_colon(line) {
        line
    } else {
        line + default_port_suffix()
    }
}

/// Turns one line of the peer file into the `host:port` text handed to
/// address resolution. A blank line carries no peer and is skipped.
pub fn peer_addr_for_line(line: &str) -> (r: Option<String>)
    ensures
        r is Some <==> line@.len() > 0,
        r matches Some(s) ==> s@ == peer_addr_spec(line@),
{
    let n = line.unicode_len();
    if n == 0 {
        return None;
    }
    let mut i: usize = 0;
    let mut found = false;
    while i < n
        invariant
            0 <= i <= n,
            n == line@.len(),
            found ==> contains_colon(line@),
            !found ==> forall|j: int| 0 <= j < i ==> line@[j] != ':',
        decreases n - i,
    {
        if line.get_char(i) == ':' {
            found = true;
        }
        i = i + 1;
    }
    if found {
        Some(line.to_owned())
    } else {
        let mut s = line.to_owned();
        s.append(":9638");
        Some(s)
    }
}

/// Mathematical model of a [`Resolution`].
#[verifier::ext_equal]
pub enum ResolutionV {
    Resolved(Seq<char>, u16),
    Failed(Seq<char>),
}

/// The outcome of resolving one peer line's `host:port` text to a socket
/// address, as the caller's edge hands it back: the textual IP and port of
/// the first resolved address, or the rendered resolution error.
#[derive(Debug, Clone)]
pub enum Resolution {
    Resolved(String, u16),
    Failed(String),
}

impl View for Resolution {
    type V = ResolutionV;

    open spec fn view(&self) -> ResolutionV {
        match self {
            Resolution::Resolved(addr, port) => ResolutionV::Resolved(addr@, *port),
            Resolution::Failed(msg) => ResolutionV::Failed(msg@),
        }
    }
}

/// The views of a sequence of resolutions.
pub open spec fn res_views(rs: Seq<Resolution>) -> Seq<ResolutionV> {
    rs.map_values(|r: Resolution| r@)
}

/// The views of a sequence of members.
pub open spec fn member_views(ms: Seq<Member>) -> Seq<MemberV> {
    ms.map_values(|m: Member| m@)
}

/// Whether every peer line resolved to an address.
pub open spec fn all_resolved(rs: Seq<ResolutionV>) -> bool {
    forall|i: int| 0 <= i < rs.len() ==> rs[i] is Resolved
}

/// The member that one resolution yields. Only meaningful for a resolved
/// entry; a failed entry aborts extraction before any member is built, so
/// the value given here for it is never returned by anything.
pub open spec fn member_of_resolution(r: ResolutionV) -> MemberV {
    match r {
        ResolutionV::Resolved(addr, port) => member_of_address(addr, port),
        ResolutionV::Failed(msg) => member_of_address(msg, 0),
    }
}

/// The member sequence of fully resolved peer lines, in file order.
pub open spec fn members_of(rs: Seq<ResolutionV>) -> Seq<MemberV> {
    rs.map_values(|r: ResolutionV| member_of_resolution(r))
}

/// The position of the first resolution failure.
pub open spec fn first_failure_index(rs: Seq<ResolutionV>) -> int
    decreases rs.len(),
{
    if rs.len() == 0 {
        0
    } else if !(rs[0] is Resolved) {
        0
    } else {
        1 + first_failure_index(rs.drop_first())
    }
}

/// The rendered error of the first resolution failure.
pub open spec fn failure_message(rs: Seq<ResolutionV>) -> Seq<char> {
    rs[first_failure_index(rs)]->Failed_0
}

/// What membership extraction returns for a given sequence of resolutions:
/// the members of all lines in file order, or, if any line failed to
/// resolve, a name-lookup error carrying the first failure — with no
/// members at all, not even those of earlier lines.
pub open spec fn extraction_outcome(rs: Seq<ResolutionV>) -> Result<Seq<MemberV>, ErrorV> {
    if all_resolved(rs) {
        Result::Ok(members_of(rs))
    } else {
        Result::Err(ErrorV::NameLookup(failure_message(rs)))
    }
}

proof fn lemma_member_views_push(ms: Seq<Member>, m: Member)
    ensures
        member_views(ms.push(m)) == member_views(ms).push(m@),
{
    assert(member_views(ms.push(m)) =~= member_views(ms).push(m@));
}

proof fn lemma_members_of_take_step(rs: Seq<ResolutionV>, i: int)
    requires
        0 <= i < rs.len(),
    ensures
        members_of(rs.take(i + 1)) == members_of(rs.take(i)).push(member_of_resolution(rs[i])),
{
    assert(members_of(rs.take(i + 1)) =~= members_of(rs.take(i)).push(member_of_resolution(rs[i])));
}

proof fn lemma_first_failure(rs: Seq<ResolutionV>, i: int)
    requires
        0 <= i < rs.len(),
        !(rs[i] is Resolved),
        forall|j: int| 0 <= j < i ==> rs[j] is Resolved,
    ensures
        first_failure_index(rs) == i,
    decreases i,
{
    if i > 0 {
        assert(forall|j: int| 0 <= j < i - 1 ==> rs.drop_first()[j] is Resolved);
        lemma_first_failure(rs.drop_first(), i - 1);
    }
}

/// Every member that extraction yields is well formed: its identifier is
/// empty and its one resolved port fills both port roles.
pub proof fn lemma_members_well_formed(rs: Seq<ResolutionV>)
    ensures
        forall|i: int| 0 <= i < members_of(rs).len() ==> member_wf(#[trigger] members_of(rs)[i]),
{
}

/// Extraction is deterministic: equal resolution sequences yield equal
/// outcomes, so reading unchanged file content twice in a row returns the
/// same member sequence both times.
pub proof fn lemma_extraction_deterministic(a: Seq<ResolutionV>, b: Seq<ResolutionV>)
    requires
        a == b,
    ensures
        extraction_outcome(a) == extraction_outcome(b),
{
}

/// The callback capability handed to a file-watching backend: three hooks,
/// one per kind of filesystem change, each setting the shared Change Signal
/// and discarding what exactly changed — the consumer always re-reads the
/// whole file.
pub struct PeerCallbacks {
    have_events: Arc<AtomicBool>,
}

impl PeerCallbacks {
    /// The shared Change Signal this capability raises.
    pub closed spec fn signal(&self) -> Arc<AtomicBool> {
        self.have_events
    }

    /// The watched file came into existence: raise the Change Signal.
    pub fn file_appeared(&mut self, _path: &str)
        ensures
            *final(self) == *old(self),
    {
        flag_store(&self.have_events, true);
    }

    /// The watched file changed: raise the Change Signal.
    pub fn file_modified(&mut self, _path: &str)
        ensures
            *final(self) == *old(self),
    {
        flag_store(&self.have_events, true);
    }

    /// The watched file went away: raise the Change Signal.
    pub fn file_disappeared(&mut self, _path: &str)
        ensures
            *final(self) == *old(self),
    {
        flag_store(&self.have_events, true);
    }
}

/// The watcher handle: the watched path and the consumer's end of the
/// Change Signal. Its view is the watched path's text, immutable after
/// construction.
pub struct PeerWatcher {
    path: String,
    have_events: Arc<AtomicBool>,
}

impl View for PeerWatcher {
    type V = Seq<char>;

    closed spec fn view(&self) -> Seq<char> {
        self.path@
    }
}

impl PeerWatcher {
    /// The shared Change Signal this handle reads and clears.
    pub closed spec fn signal(&self) -> Arc<AtomicBool> {
        self.have_events
    }

    /// Creates the watcher handle for `path` with a fresh, lowered Change
    /// Signal. Construction itself cannot fail; the caller that spawns the
    /// background worker surfaces its own spawning failure, which is why
    /// the result is wrapped.
    pub fn run(path: String) -> (r: Result<PeerWatcher, Error>)
        ensures
            r matches Ok(w) && w@ == path@,
    {
        Ok(PeerWatcher { path, have_events: Arc::new(AtomicBool::new(false)) })
    }

    /// Whether a backend callback raised the Change Signal since the last
    /// clear: one relaxed atomic read, with no lock to contend on, so the
    /// call returns promptly however busy the worker is. The worker may
    /// raise the flag at any moment, so no value can be promised of the
    /// read.
    pub fn has_fs_events(&self) -> bool {
        flag_load(&self.have_events)
    }

    /// The watched path's text.
    pub fn path(&self) -> (r: &str)
        ensures
            r@ == self@,
    {
        self.path.as_str()
    }

    /// A callback capability bound to this watcher's own Change Signal,
    /// for a backend to invoke.
    pub fn callbacks(&self) -> (r: PeerCallbacks)
        ensures
            r.signal() == self.signal(),
    {
        PeerCallbacks { have_events: flag_clone(&self.have_events) }
    }

    /// The member list when the watched path names no regular file: the
    /// steady "no peer file configured" state. Clears the Change Signal and
    /// yields the empty sequence — not an error.
    pub fn members_for_missing_file(&self) -> (r: Vec<Member>)
        ensures
            r@.len() == 0,
    {
        flag_store(&self.have_events, false);
        Vec::new()
    }

    /// What a failure to open the watched file becomes: the distinct I/O
    /// error kind, carrying the rendered cause. Clears the Change Signal,
    /// as every extraction attempt does, so the signal reads false after
    /// the failed call too.
    pub fn io_failure(&self, detail: String) -> (e: Error)
        ensures
            e@ == ErrorV::Io(detail@),
    {
        flag_store(&self.have_events, false);
        Error::Io(detail)
    }

    /// Finishes membership extraction once the caller's edge has read the
    /// file and resolved each non-blank line, in file order. Returns the
    /// members of all lines, or the name-lookup error of the first line
    /// that failed to resolve — discarding the members of earlier lines.
    /// Clears the Change Signal whether or not extraction succeeds: after
    /// any extraction the signal reads false until the next backend
    /// callback fires.
    pub fn conclude_members(&self, resolutions: Vec<Resolution>) -> (r: Result<Vec<Member>, Error>)
        ensures
            (r is Ok) == all_resolved(res_views(resolutions@)),
            r is Ok ==> member_views(r->Ok_0@) == members_of(res_views(resolutions@)),
            r is Ok ==> forall|i: int|
                0 <= i < r->Ok_0@.len() ==> member_wf(#[trigger] member_views(r->Ok_0@)[i]),
            r is Err ==> r->Err_0@ == ErrorV::NameLookup(failure_message(res_views(resolutions@))),
    {
        proof {
            lemma_members_well_formed(res_views(resolutions@));
        }
        let ghost rs = res_views(resolutions@);
        let mut members: Vec<Member> = Vec::new();
        let n = resolutions.len();
        let mut idx: usize = 0;
        while idx < n
            invariant
                0 <= idx <= n,
                n == resolutions@.len(),
                rs == res_views(resolutions@),
                rs.len() == n,
                forall|j: int| 0 <= j < idx ==> rs[j] is Resolved,
                member_views(members@) == members_of(rs.take(idx as int)),
            decreases n - idx,
        {
            let item = &resolutions[idx];
            match item {
                Resolution::Resolved(addr, port) => {
                    let ghost prev = members@;
                    let m = Member::from_resolved(addr.clone(), *port);
                    proof {
                        assert(rs[idx as int] == ResolutionV::Resolved(addr@, *port));
                    }
                    members.push(m);
                    proof {
                        lemma_member_views_push(prev, m);
                        lemma_members_of_take_step(rs, idx as int);
                        assert(member_views(members@) == members_of(rs.take(idx as int + 1)));
                    }
                }
                Resolution::Failed(msg) => {
                    proof {
                        lemma_first_failure(rs, idx as int);
                    }
                    flag_store(&self.have_events, false);
                    return Err(Error::NameLookup(msg.clone()));
                }
            }
            idx = idx + 1;
        }
        proof {
            assert(rs.take(n as int) =~= rs);
        }
        flag_store(&self.have_events, false);
        Ok(members)
    }
}

} // verus!
