//! Sessions and the registry that keeps them. The registry is a plain
//! value: whoever shares it between tasks puts it behind a lock.

use vstd::prelude::*;
use crate::assoc::{
    entry_views,
    find_entry,
    get,
    keys,
    lemma_get_put,
    lemma_put_keeps_unique,
    put,
    put_entry,
    unique_keys,
    Entries,
};
use crate::config::opt_text;
use crate::error::{Error, ErrorView};
use crate::json::{Json, JsonView};

verus! {

/// The identifier of a session.
#[derive(Debug, Clone, Hash, Eq, PartialEq)]
pub struct SessionId(String);

impl View for SessionId {
    type V = Seq<char>;

    closed spec fn view(&self) -> Seq<char> {
        self.0@
    }
}

impl SessionId {
    pub fn new(id: &str) -> (r: Self)
        ensures
            r@ == id@,
    {
        SessionId(id.to_owned())
    }

    pub fn as_str(&self) -> (r: &str)
        ensures
            r@ == self@,
    {
        self.0.as_str()
    }

    /// The identifier as text.
    pub fn to_text(&self) -> (r: String)
        ensures
            r@ == self@,
    {
        self.0.clone()
    }
}

/// A session: its identifier, its system prompt, and what else is noted of
/// it, as a list of entries.
#[derive(Debug, PartialEq)]
pub struct Session {
    pub id: SessionId,
    pub system_prompt: Option<String>,
    pub metadata: Vec<(String, Json)>,
}

/// The mathematical value of a [`Session`].
pub struct SessionView {
    pub id: Seq<char>,
    pub system_prompt: Option<Seq<char>>,
    pub metadata: Entries<JsonView>,
}

impl View for Session {
    type V = SessionView;

    open spec fn view(&self) -> SessionView {
        SessionView {
            id: self.id@,
            system_prompt: opt_text(self.system_prompt),
            metadata: entry_views(self.metadata@),
        }
    }
}

impl Session {
    /// A session with nothing but its identifier.
    pub fn new(id: SessionId) -> (r: Self)
        ensures
            r@ == (SessionView { id: id@, system_prompt: None, metadata: Seq::empty() }),
    {
        let r = Session { id, system_prompt: None, metadata: Vec::new() };
        assert(entry_views(r.metadata@) =~= Seq::<(Seq<char>, JsonView)>::empty());
        r
    }

    pub fn with_system_prompt(self, prompt: &str) -> (r: Self)
        ensures
            r@ == (SessionView { system_prompt: Some(prompt@), ..self@ }),
    {
        let mut session = self;
        session.system_prompt = Some(prompt.to_owned());
        session
    }

    pub fn id(&self) -> (r: &SessionId)
        ensures
            r@ == self@.id,
    {
        &self.id
    }

    /// A copy of the session.
    pub fn duplicate(&self) -> (r: Session)
        ensures
            r@ == self@,
    {
        let mut metadata: Vec<(String, Json)> = Vec::new();
        let mut i: usize = 0;
        while i < self.metadata.len()
            invariant
                i <= self.metadata.len(),
                metadata@.len() == i,
                forall|k: int|
                    0 <= k < i ==> (#[trigger] metadata@[k]).0@ == self.metadata@[k].0@
                        && metadata@[k].1@ == self.metadata@[k].1@,
            decreases self.metadata.len() - i,
        {
            let key = self.metadata[i].0.clone();
            let value = self.metadata[i].1.deep_clone();
            metadata.push((key, value));
            i += 1;
        }
        assert(entry_views(metadata@) =~= entry_views(self.metadata@));
        let system_prompt = match &self.system_prompt {
            Some(p) => Some(p.clone()),
            None => None,
        };
        Session { id: SessionId(self.id.0.clone()), system_prompt, metadata }
    }
}

/// The text of a version-4 UUID in the hyphenated, lower-case form.
pub open spec fn is_uuid_v4(s: Seq<char>) -> bool {
    &&& s.len() == 36 && s[8] == '-' && s[13] == '-' && s[18] == '-' && s[23] == '-'
    &&& s[14] == '4' && (s[19] == '8' || s[19] == '9' || s[19] == 'a' || s[19] == 'b')
    &&& forall|i: int|
        0 <= i < 36 && i != 8 && i != 13 && i != 18 && i != 23 ==> lower_hex(#[trigger] s[i])
}

/// Builds a session one setting at a time.
pub struct SessionBuilder {
    session: Session,
    managed: bool,
}

impl View for SessionBuilder {
    type V = SessionView;

    closed spec fn view(&self) -> SessionView {
        self.session@
    }
}

impl SessionBuilder {
    /// Whether the session is meant to be kept in a registry once built.
    pub closed spec fn is_managed(&self) -> bool {
        self.managed
    }

    /// A builder for the session `id`.
    pub fn with_id(id: SessionId, managed: bool) -> (r: Self)
        ensures
            r@ == (SessionView { id: id@, system_prompt: None, metadata: Seq::empty() }),
            r.is_managed() == managed,
    {
        SessionBuilder { session: Session::new(id), managed }
    }

    /// A builder for a session with a fresh random identifier, which no
    /// registry keeps.
    pub fn new() -> (r: Self)
        ensures
            is_uuid_v4(r@.id),
            r@.system_prompt is None,
            r@.metadata.len() == 0,
            !r.is_managed(),
    {
        let id = fresh_id();
        Self::with_id(SessionId::new(id.as_str()), false)
    }

    pub fn with_system_prompt(self, prompt: &str) -> (r: Self)
        ensures
            r@ == (SessionView { system_prompt: Some(prompt@), ..self@ }),
            r.is_managed() == self.is_managed(),
    {
        let mut builder = self;
        builder.session.system_prompt = Some(prompt.to_owned());
        builder
    }

    /// Notes `value` under `key`, in the place of what that key held before.
    pub fn with_metadata(self, key: &str, value: Json) -> (r: Self)
        ensures
            r@ == (SessionView { metadata: put(self@.metadata, key@, value@), ..self@ }),
            r.is_managed() == self.is_managed(),
    {
        let mut builder = self;
        put_entry(&mut builder.session.metadata, key, value);
        builder
    }

    /// The session as built. A managed session is to be stored by the
    /// caller with [`SessionManager::store`].
    pub fn build(self) -> (r: Session)
        ensures
            r@ == self@,
    {
        self.session
    }
}

/// The sessions that are known, each under its identifier.
pub struct SessionManager {
    sessions: Vec<(String, Session)>,
}

impl View for SessionManager {
    type V = Entries<SessionView>;

    closed spec fn view(&self) -> Entries<SessionView> {
        entry_views(self.sessions@)
    }
}

/// The view of an optional session.
pub open spec fn opt_session(s: Option<Session>) -> Option<SessionView> {
    match s {
        Some(s) => Some(s@),
        None => None,
    }
}

/// The outcome of resuming `id` in a registry: the session, or the error
/// that names the identifier.
pub open spec fn resumed(sessions: Entries<SessionView>, id: Seq<char>) -> Result<
    SessionView,
    ErrorView,
> {
    match get(sessions, id) {
        Some(s) => Ok(s),
        None => Err(ErrorView::SessionNotFound(id)),
    }
}

/// The view of a resumption's outcome.
pub open spec fn session_result(r: Result<Session, Error>) -> Result<SessionView, ErrorView> {
    match r {
        Ok(s) => Ok(s@),
        Err(e) => Err(e@),
    }
}

/// The views of a list of identifiers.
pub open spec fn id_views(ids: Seq<SessionId>) -> Seq<Seq<char>> {
    Seq::new(ids.len(), |i: int| ids[i]@)
}

impl SessionManager {
    /// The registry holds no identifier twice, and every session stands
    /// under its own identifier.
    pub open spec fn wf(&self) -> bool {
        &&& unique_keys(self@)
        &&& forall|i: int| 0 <= i < self@.len() ==> (#[trigger] self@[i]).1.id == self@[i].0
    }

    /// An empty registry.
    pub fn new() -> (r: Self)
        ensures
            r@ == Seq::<(Seq<char>, SessionView)>::empty(),
            r.wf(),
    {
        let r = SessionManager { sessions: Vec::new() };
        assert(entry_views(r.sessions@) =~= Seq::<(Seq<char>, SessionView)>::empty());
        r
    }

    /// A builder for a session that no registry keeps.
    pub fn builder() -> (r: SessionBuilder)
        ensures
            is_uuid_v4(r@.id),
            r@.system_prompt is None,
            r@.metadata.len() == 0,
            !r.is_managed(),
    {
        SessionBuilder::new()
    }

    /// A builder for a session with a fresh random identifier that is meant
    /// to be stored here.
    pub fn create_session(&self) -> (r: SessionBuilder)
        ensures
            is_uuid_v4(r@.id),
            r@.system_prompt is None,
            r@.metadata.len() == 0,
            r.is_managed(),
    {
        let id = fresh_id();
        SessionBuilder::with_id(SessionId::new(id.as_str()), true)
    }

    /// The session `id`, where the registry knows it.
    pub fn get(&self, id: &SessionId) -> (r: Option<Session>)
        ensures
            opt_session(r) == get(self@, id@),
    {
        match find_entry(&self.sessions, id.as_str()) {
            Some(s) => Some(s.duplicate()),
            None => None,
        }
    }

    /// The session `id`; an unknown identifier is an error that names it.
    pub fn resume(&self, id: &SessionId) -> (r: Result<Session, Error>)
        ensures
            session_result(r) == resumed(self@, id@),
    {
        match find_entry(&self.sessions, id.as_str()) {
            Some(s) => Ok(s.duplicate()),
            None => Err(Error::SessionNotFound(id.to_text())),
        }
    }

    /// The identifiers of all sessions.
    pub fn list(&self) -> (r: Vec<SessionId>)
        ensures
            id_views(r@) == keys(self@),
    {
        let mut ids: Vec<SessionId> = Vec::new();
        let mut i: usize = 0;
        while i < self.sessions.len()
            invariant
                i <= self.sessions.len(),
                ids@.len() == i,
                forall|k: int| 0 <= k < i ==> (#[trigger] ids@[k])@ == self.sessions@[k].0@,
            decreases self.sessions.len() - i,
        {
            ids.push(SessionId::new(self.sessions[i].0.as_str()));
            i += 1;
        }
        assert(id_views(ids@) =~= keys(self@));
        ids
    }

    /// Keeps `session` under its identifier, in the place of the session
    /// that was kept under it before.
    pub fn store(&mut self, session: Session)
        ensures
            final(self)@ == put(old(self)@, session@.id, session@),
            old(self).wf() ==> final(self).wf(),
            forall|id: Seq<char>|
                #[trigger] get(final(self)@, id) == (if id == session@.id {
                    Some(session@)
                } else {
                    get(old(self)@, id)
                }),
    {
        let key = session.id.to_text();
        let ghost before = self@;
        put_entry(&mut self.sessions, key.as_str(), session);
        proof {
            if old(self).wf() {
                lemma_put_keeps_unique(before, session@.id, session@);
            }
            crate::assoc::lemma_index_of(before, session@.id);
            assert forall|id: Seq<char>|
                #[trigger] get(self@, id) == (if id == session@.id {
                    Some(session@)
                } else {
                    get(before, id)
                }) by {
                lemma_get_put(before, session@.id, session@, id);
            }
        }
    }
}

/// A digit of lower-case hexadecimal notation.
pub open spec fn lower_hex(c: char) -> bool {
    ('0' <= c && c <= '9') || ('a' <= c && c <= 'f')
}

/// `uuid::Uuid::new_v4`, written out by the `Display` of `uuid::Uuid`. The
/// crate draws 128 random bits, sets the version to 4 and the variant to the
/// RFC's, and writes the result as 32 lower-case hexadecimal digits in groups
/// of 8, 4, 4, 4 and 12 with hyphens between them. The contract states that
/// shape, which every outcome has, and nothing of the random digits: two
/// calls give different identifiers. The call panics where the operating
/// system can give no random bytes.
#[verifier::external_body]
fn fresh_id() -> (r: String)
    ensures
        is_uuid_v4(r@),
{
    uuid::Uuid::new_v4().to_string()
}

} // verus!
