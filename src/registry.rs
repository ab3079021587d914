//! The registry of active peer sessions, keyed by a session identifier that
//! is never issued twice.

use vstd::prelude::*;

verus! {

/// How many fresh identifiers `add_session` draws before giving up.
pub const MAX_ID_ATTEMPTS: u32 = 8;

/// A lower-case hexadecimal digit.
pub open spec fn is_lower_hex_digit(c: char) -> bool {
    ('0' <= c && c <= '9') || ('a' <= c && c <= 'f')
}

/// The hyphenated text form of a UUID: 36 characters, hyphens at positions
/// 8, 13, 18 and 23, lower-case hexadecimal digits elsewhere.
pub open spec fn is_hyphenated_uuid(s: Seq<char>) -> bool {
    &&& s.len() == 36
    &&& forall|i: int|
        0 <= i < 36 ==> if i == 8 || i == 13 || i == 18 || i == 23 {
            s[i] == '-'
        } else {
            is_lower_hex_digit(#[trigger] s[i])
        }
}

/// Relies on `uuid::Uuid::new_v4` and the `Display` form of `uuid::Uuid`
/// (lower-case hyphenated encoding): a random version 4 identifier, written
/// as 32 lower-case hexadecimal digits in groups of 8-4-4-4-12.
#[verifier::external_body]
fn new_session_uuid() -> (r: String)
    ensures
        is_hyphenated_uuid(r@),
{
    uuid::Uuid::new_v4().to_string()
}

/// One active peer session: its identifier and the handle of its peer
/// connection.
pub struct WebrtcSession<H> {
    pub agent_rtc_uuid: String,
    pub peer_rtc_connection: Option<H>,
}

/// Failures of registry operations.
#[derive(Clone, Copy, Debug, PartialEq, Eq)]
pub enum RegistryError {
    /// The identifier was issued before.
    DuplicateSessionId,
    /// Every identifier drawn had been issued before.
    SessionIdExhausted,
}

/// The identifiers of a list of sessions, in order.
pub open spec fn session_ids<H>(sessions: Seq<WebrtcSession<H>>) -> Seq<Seq<char>> {
    sessions.map_values(|s: WebrtcSession<H>| s.agent_rtc_uuid@)
}

/// The set of active sessions, and every identifier ever issued by it.
pub struct WebrtcSessionManager<H> {
    sessions: Vec<WebrtcSession<H>>,
    issued: Vec<String>,
}

impl<H> WebrtcSessionManager<H> {
    /// The active sessions, in the order they were added.
    pub closed spec fn sessions(&self) -> Seq<WebrtcSession<H>> {
        self.sessions@
    }

    /// Every identifier this registry has handed out, in order.
    pub closed spec fn issued(&self) -> Seq<Seq<char>> {
        self.issued@.map_values(|s: String| s@)
    }

    pub open spec fn ids(&self) -> Seq<Seq<char>> {
        session_ids(self.sessions())
    }

    /// Active identifiers are distinct and were all issued by this registry.
    pub open spec fn wf(&self) -> bool {
        &&& self.ids().no_duplicates()
        &&& forall|i: int| 0 <= i < self.ids().len() ==> self.issued().contains(#[trigger] self.ids()[i])
    }

    pub fn new() -> (r: Self)
        ensures
            r.wf(),
            r.sessions() == Seq::<WebrtcSession<H>>::empty(),
            r.issued() == Seq::<Seq<char>>::empty(),
    {
        let r = WebrtcSessionManager { sessions: Vec::new(), issued: Vec::new() };
        assert(r.ids() =~= Seq::<Seq<char>>::empty());
        assert(r.issued() =~= Seq::<Seq<char>>::empty());
        r
    }

    /// The number of active sessions.
    pub fn len(&self) -> (r: usize)
        ensures
            r == self.sessions().len(),
    {
        self.sessions.len()
    }

    /// Whether `id` was ever issued by this registry.
    pub fn was_issued(&self, id: &String) -> (r: bool)
        ensures
            r == self.issued().contains(id@),
    {
        let mut i: usize = 0;
        while i < self.issued.len()
            invariant
                i <= self.issued@.len(),
                forall|j: int| 0 <= j < i ==> self.issued()[j] != id@,
            decreases self.issued@.len() - i,
        {
            if self.issued[i] == *id {
                assert(self.issued()[i as int] == id@);
                return true;
            }
            i = i + 1;
        }
        false
    }

    /// The position of the active session `id`.
    pub fn position(&self, id: &String) -> (r: Option<usize>)
        ensures
            match r {
                Some(i) => i < self.ids().len() && self.ids()[i as int] == id@,
                None => !self.ids().contains(id@),
            },
    {
        let mut i: usize = 0;
        while i < self.sessions.len()
            invariant
                i <= self.sessions@.len(),
                forall|j: int| 0 <= j < i ==> self.ids()[j] != id@,
            decreases self.sessions@.len() - i,
        {
            if self.sessions[i].agent_rtc_uuid == *id {
                return Some(i);
            }
            i = i + 1;
        }
        None
    }

    /// Whether `id` names an active session.
    pub fn contains(&self, id: &String) -> (r: bool)
        ensures
            r == self.ids().contains(id@),
    {
        self.position(id).is_some()
    }

    /// Adds a session under `id`, unless `id` was issued before.
    pub fn insert_session(&mut self, id: String, connection: H) -> (r: Result<(), RegistryError>)
        requires
            old(self).wf(),
        ensures
            final(self).wf(),
            r is Err <==> old(self).issued().contains(id@),
            r is Err ==> {
                &&& r == Err::<(), RegistryError>(RegistryError::DuplicateSessionId)
                &&& final(self).sessions() == old(self).sessions()
                &&& final(self).issued() == old(self).issued()
            },
            r is Ok ==> {
                &&& final(self).issued() == old(self).issued().push(id@)
                &&& final(self).sessions().len() == old(self).sessions().len() + 1
                &&& final(self).sessions().drop_last() == old(self).sessions()
                &&& final(self).sessions().last().agent_rtc_uuid@ == id@
                &&& final(self).sessions().last().peer_rtc_connection == Some(connection)
            },
    {
        if self.was_issued(&id) {
            return Err(RegistryError::DuplicateSessionId);
        }
        let ghost old_ids = self.ids();
        let ghost old_issued = self.issued();
        let key = id.clone();
        self.issued.push(key);
        self.sessions.push(WebrtcSession { agent_rtc_uuid: id, peer_rtc_connection: Some(connection) });
        proof {
            assert(self.issued() =~= old_issued.push(id@));
            assert(self.ids() =~= old_ids.push(id@));
            assert(self.sessions().drop_last() =~= old(self).sessions());
            assert forall|i: int| 0 <= i < self.ids().len() implies self.issued().contains(
                #[trigger] self.ids()[i],
            ) by {
                if i < old_ids.len() {
                    assert(old_issued.contains(old_ids[i]));
                    let k = choose|k: int| 0 <= k < old_issued.len() && old_issued[k] == old_ids[i];
                    assert(self.issued()[k] == old_ids[i]);
                } else {
                    assert(self.issued()[old_issued.len() as int] == id@);
                }
            }
            assert forall|i: int, j: int|
                0 <= i < self.ids().len() && 0 <= j < self.ids().len() && i != j implies self.ids()[i]
                != self.ids()[j] by {
                if i < old_ids.len() && j < old_ids.len() {
                } else if i < old_ids.len() {
                    assert(old_issued.contains(old_ids[i]));
                } else {
                    assert(old_issued.contains(old_ids[j]));
                }
            }
        }
        Ok(())
    }

    /// No identifier issued so far has the shape of a drawn UUID (true in
    /// particular of a registry that has issued nothing).
    pub open spec fn no_uuid_issued(&self) -> bool {
        forall|i: int| 0 <= i < self.issued().len() ==> !is_hyphenated_uuid(#[trigger] self.issued()[i])
    }

    /// Adds a session holding `connection` under a freshly drawn identifier
    /// that this registry has never issued before, and returns that
    /// identifier. Fails, leaving the registry as it was, only when every one
    /// of `MAX_ID_ATTEMPTS` draws had been issued already; so it succeeds
    /// whenever no issued identifier has the shape of a drawn one.
    pub fn add_session(&mut self, connection: H) -> (r: Result<String, RegistryError>)
        requires
            old(self).wf(),
        ensures
            final(self).wf(),
            old(self).issued().len() == 0 ==> r is Ok,
            old(self).no_uuid_issued() ==> r is Ok,
            match r {
                Ok(id) => {
                    &&& !old(self).issued().contains(id@)
                    &&& is_hyphenated_uuid(id@)
                    &&& final(self).issued() == old(self).issued().push(id@)
                    &&& final(self).sessions().len() == old(self).sessions().len() + 1
                    &&& final(self).sessions().drop_last() == old(self).sessions()
                    &&& final(self).sessions().last().agent_rtc_uuid@ == id@
                    &&& final(self).sessions().last().peer_rtc_connection == Some(connection)
                },
                Err(e) => {
                    &&& e == RegistryError::SessionIdExhausted
                    &&& final(self).sessions() == old(self).sessions()
                    &&& final(self).issued() == old(self).issued()
                },
            },
    {
        let mut attempt: u32 = 0;
        while attempt < MAX_ID_ATTEMPTS
            invariant
                self == old(self),
                self.wf(),
                attempt > 0 ==> !self.no_uuid_issued(),
            decreases MAX_ID_ATTEMPTS - attempt,
        {
            let id = new_session_uuid();
            if !self.was_issued(&id) {
                let out = id.clone();
                let inserted = self.insert_session(id, connection);
                assert(inserted is Ok);
                return Ok(out);
            }
            proof {
                let k = choose|k: int| 0 <= k < self.issued().len() && self.issued()[k] == id@;
                assert(is_hyphenated_uuid(self.issued()[k]));
            }
            attempt = attempt + 1;
        }
        Err(RegistryError::SessionIdExhausted)
    }

    /// Removes the session `uuid` if it is active; an unknown identifier
    /// leaves the registry unchanged. Returns whether a session was removed.
    pub fn delete_session(&mut self, uuid: &String) -> (r: bool)
        requires
            old(self).wf(),
        ensures
            final(self).wf(),
            final(self).issued() == old(self).issued(),
            r == old(self).ids().contains(uuid@),
            !final(self).ids().contains(uuid@),
            r ==> exists|i: int|
                0 <= i < old(self).ids().len() && old(self).ids()[i] == uuid@ && final(self).sessions()
                    == old(self).sessions().remove(i),
            !r ==> final(self).sessions() == old(self).sessions(),
    {
        match self.position(uuid) {
            Some(i) => {
                let ghost old_ids = self.ids();
                let ghost old_issued = self.issued();
                let _removed = self.sessions.remove(i);
                proof {
                    assert(self.ids() =~= old_ids.remove(i as int));
                    assert(self.issued() == old_issued);
                    assert forall|a: int, b: int|
                        0 <= a < self.ids().len() && 0 <= b < self.ids().len() && a != b implies self.ids()[a]
                        != self.ids()[b] by {
                        let oa = if a < i { a } else { a + 1 };
                        let ob = if b < i { b } else { b + 1 };
                        assert(self.ids()[a] == old_ids[oa]);
                        assert(self.ids()[b] == old_ids[ob]);
                    }
                    assert forall|a: int| 0 <= a < self.ids().len() implies self.issued().contains(
                        #[trigger] self.ids()[a],
                    ) by {
                        let oa = if a < i { a } else { a + 1 };
                        assert(self.ids()[a] == old_ids[oa]);
                    }
                    if self.ids().contains(uuid@) {
                        let a = choose|a: int| 0 <= a < self.ids().len() && self.ids()[a] == uuid@;
                        let oa = if a < i { a } else { a + 1 };
                        assert(self.ids()[a] == old_ids[oa]);
                        assert(old_ids[i as int] == uuid@);
                    }
                    assert(old_ids.contains(uuid@)) by {
                        assert(old_ids[i as int] == uuid@);
                    }
                }
                true
            },
            None => false,
        }
    }
}

} // verus!
