//! The session layer of a gateway connection: the table of open sessions
//! and the decisions taken for each message, whether it comes from the
//! gateway (northbound, towards the application) or from the application
//! (southbound, towards the gateway).
//!
//! Channels and message bodies stay with the caller; this module decides
//! which session a message belongs to, when a session is created, and which
//! error a message meets.

use vstd::prelude::*;
use std::collections::HashMap;
use rand::Rng;
use crate::text::{decimal, decimal_text, signed_decimal, signed_decimal_text};

verus! {

broadcast use vstd::std_specs::hash::group_hash_axioms;

/// Session identifier.
pub type Id = u32;

/// The kinds of session.
#[derive(Debug, Clone, Copy, PartialEq, Eq, Structural)]
pub enum SessionType {
    /// messages are sent without acknowledgement
    FireAndForget,
    /// each request waits for a reply
    RequestResponse,
}

/// The directions a session carries traffic in.
#[derive(Debug, Clone, Copy, PartialEq, Eq, Structural)]
pub enum SessionDirection {
    Sender,
    Receiver,
    Bidirectional,
}

/// The state of a session.
#[derive(Debug, Clone, Copy, PartialEq, Eq, Structural)]
pub enum State {
    Active,
    Inactive,
}

/// Where a message travels: `North` from the gateway to the application,
/// `South` from the application to the gateway.
#[derive(Debug, Clone, Copy, PartialEq, Eq, Structural)]
pub enum MessageDirection {
    North,
    South,
}

/// What the application learns of a session.
#[derive(Debug, Clone, Copy, PartialEq, Eq, Structural)]
pub struct Info {
    pub id: Id,
    pub session_type: SessionType,
    pub state: State,
}

/// Errors of the session layer.
#[derive(Debug, PartialEq)]
pub enum SessionError {
    AppTransmission(String),
    GatewayTransmission(String),
    AppReception(String),
    SessionIdAlreadyUsed(String),
    SessionUnknown(String),
    MissingSessionId(String),
    MissingSessionHeader,
    SessionNotFound(String),
    MissingAgpHeader(String),
}

/// The mathematical form of a `SessionError`.
pub enum SessionErrorView {
    AppTransmission(Seq<char>),
    GatewayTransmission(Seq<char>),
    AppReception(Seq<char>),
    SessionIdAlreadyUsed(Seq<char>),
    SessionUnknown(Seq<char>),
    MissingSessionId(Seq<char>),
    MissingSessionHeader,
    SessionNotFound(Seq<char>),
    MissingAgpHeader(Seq<char>),
}

impl View for SessionError {
    type V = SessionErrorView;

    open spec fn view(&self) -> SessionErrorView {
        match self {
            SessionError::AppTransmission(s) => SessionErrorView::AppTransmission(s@),
            SessionError::GatewayTransmission(s) => SessionErrorView::GatewayTransmission(s@),
            SessionError::AppReception(s) => SessionErrorView::AppReception(s@),
            SessionError::SessionIdAlreadyUsed(s) => SessionErrorView::SessionIdAlreadyUsed(s@),
            SessionError::SessionUnknown(s) => SessionErrorView::SessionUnknown(s@),
            SessionError::MissingSessionId(s) => SessionErrorView::MissingSessionId(s@),
            SessionError::MissingSessionHeader => SessionErrorView::MissingSessionHeader,
            SessionError::SessionNotFound(s) => SessionErrorView::SessionNotFound(s@),
            SessionError::MissingAgpHeader(s) => SessionErrorView::MissingAgpHeader(s@),
        }
    }
}

/// `r` is an error whose view is `v`.
pub open spec fn fails_with<T>(r: Result<T, SessionError>, v: SessionErrorView) -> bool {
    match r {
        Err(e) => e@ == v,
        Ok(_) => false,
    }
}

/// The name of a session type.
pub open spec fn session_type_text(t: SessionType) -> Seq<char> {
    match t {
        SessionType::FireAndForget => "FireAndForget"@,
        SessionType::RequestResponse => "RequestResponse"@,
    }
}

/// The name of a session type.
pub fn session_type_name(t: SessionType) -> (s: String)
    ensures
        s@ == session_type_text(t),
{
    match t {
        SessionType::FireAndForget => String::from_str("FireAndForget"),
        SessionType::RequestResponse => String::from_str("RequestResponse"),
    }
}

/// Calls `rand::rng().random::<u32>()`: a random number, of which nothing is
/// known.
#[verifier::external_body]
fn random_u32() -> (r: u32) {
    rand::rng().random::<u32>()
}

/// Where a message goes once it leaves a fire-and-forget session.
#[derive(Debug, Clone, Copy, PartialEq, Eq, Structural)]
pub enum Delivery {
    /// to the application, with the session's info
    ToApp(Info),
    /// to the gateway
    ToGateway,
}

/// A fire-and-forget session.
#[derive(Debug, Clone, Copy, PartialEq, Eq, Structural)]
pub struct FireAndForget {
    pub id: Id,
    pub direction: SessionDirection,
    pub state: State,
}

impl FireAndForget {
    /// A new, active session.
    pub fn new(id: Id, direction: SessionDirection) -> (s: FireAndForget)
        ensures
            s == (FireAndForget { id, direction, state: State::Active }),
    {
        FireAndForget { id, direction, state: State::Active }
    }

    /// The session's identifier.
    pub fn id(&self) -> (i: Id)
        ensures
            i == self.id,
    {
        self.id
    }

    /// The session's state.
    pub fn state(&self) -> (s: State)
        ensures
            s == self.state,
    {
        self.state
    }

    /// The session's type.
    pub fn session_type(&self) -> (t: SessionType)
        ensures
            t == SessionType::FireAndForget,
    {
        SessionType::FireAndForget
    }

    /// What the application learns when the session opens.
    pub fn open(&self) -> (info: Info)
        ensures
            info == (Info { id: self.id, session_type: SessionType::FireAndForget, state: self.state }),
    {
        Info { id: self.id, session_type: SessionType::FireAndForget, state: self.state }
    }

    /// Decides where a message of this session goes and rewrites its
    /// session header: a message without one is refused; otherwise the
    /// header is marked fire-and-forget (its type code becomes `fnf_code`,
    /// the code of that type in the wire format), and a northbound message
    /// goes to the application while a southbound one gets a fresh random
    /// message id and goes to the gateway.
    pub fn on_message(
        &self,
        header: &mut Option<HeaderInfo>,
        direction: MessageDirection,
        fnf_code: i32,
    ) -> (r: Result<Delivery, SessionError>)
        ensures
            (*old(header)) is None ==> (*final(header)) is None
                && fails_with(r, SessionErrorView::AppTransmission("missing header"@)),
            (*old(header)) is Some && direction == MessageDirection::North ==> {
                &&& *final(header) == Some(HeaderInfo {
                    header_type: fnf_code,
                    kind: Some(HeaderKind::Fnf),
                    ..(*old(header))->Some_0
                })
                &&& r == Ok::<Delivery, SessionError>(Delivery::ToApp(
                    Info { id: self.id, session_type: SessionType::FireAndForget, state: self.state },
                ))
            },
            (*old(header)) is Some && direction == MessageDirection::South ==> {
                &&& *final(header) matches Some(h) && h == (HeaderInfo {
                    header_type: fnf_code,
                    kind: Some(HeaderKind::Fnf),
                    message_id: h.message_id,
                    ..(*old(header))->Some_0
                })
                &&& r == Ok::<Delivery, SessionError>(Delivery::ToGateway)
            },
    {
        match header {
            Some(h) => {
                h.header_type = fnf_code;
                h.kind = Some(HeaderKind::Fnf);
                match direction {
                    MessageDirection::North => Ok(Delivery::ToApp(self.open())),
                    MessageDirection::South => {
                        h.message_id = random_u32();
                        Ok(Delivery::ToGateway)
                    },
                }
            },
            None => Err(SessionError::AppTransmission(String::from_str("missing header"))),
        }
    }

    /// The outcome of handing a message of this session on: a failed send to
    /// the application or to the gateway becomes the matching transmission
    /// error, with the failure's text.
    pub fn sent(&self, direction: MessageDirection, outcome: Result<(), String>) -> (r: Result<(), SessionError>)
        ensures
            match outcome {
                Ok(()) => r is Ok,
                Err(e) => match direction {
                    MessageDirection::North => fails_with(r, SessionErrorView::AppTransmission(e@)),
                    MessageDirection::South => fails_with(r, SessionErrorView::GatewayTransmission(e@)),
                },
            },
    {
        match outcome {
            Ok(()) => Ok(()),
            Err(e) => match direction {
                MessageDirection::North => Err(SessionError::AppTransmission(e)),
                MessageDirection::South => Err(SessionError::GatewayTransmission(e)),
            },
        }
    }
}

/// The session type that a message header announces.
pub enum HeaderKind {
    /// fire-and-forget
    Fnf,
    /// another type, with its name
    Other(String),
}

/// What the session layer reads of a message's session header.
pub struct HeaderInfo {
    /// the session the message belongs to
    pub session_id: Id,
    /// the header's type code
    pub header_type: i32,
    /// the session type of the message, if the code stands for one
    pub kind: Option<HeaderKind>,
    /// the message's id
    pub message_id: u32,
}

/// What to do with a message.
#[derive(Debug, Clone, Copy, PartialEq, Eq, Structural)]
pub enum Route {
    /// hand it to the open session with this id
    Deliver(Id),
    /// a session was just created for it: open the application's channel
    /// with this info, then hand it to the session
    Opened(Info),
}

/// The session stored for a new fire-and-forget session with id `id`.
pub open spec fn fresh_session(id: Id) -> FireAndForget {
    FireAndForget { id, direction: SessionDirection::Bidirectional, state: State::Active }
}

/// The info of a new fire-and-forget session with id `id`.
pub open spec fn fresh_info(id: Id) -> Info {
    Info { id, session_type: SessionType::FireAndForget, state: State::Active }
}

/// The session layer of one connection: its open sessions by id.
pub struct SessionLayer {
    pool: HashMap<Id, FireAndForget>,
    conn_id: u64,
}

impl View for SessionLayer {
    type V = Map<Id, FireAndForget>;

    closed spec fn view(&self) -> Map<Id, FireAndForget> {
        self.pool@
    }
}

impl SessionLayer {
    /// The identifier of the connection.
    pub closed spec fn spec_conn_id(&self) -> u64 {
        self.conn_id
    }

    /// A session layer without sessions.
    pub fn new(conn_id: u64) -> (l: SessionLayer)
        ensures
            l@ == Map::<Id, FireAndForget>::empty(),
            l.spec_conn_id() == conn_id,
    {
        SessionLayer { pool: HashMap::new(), conn_id }
    }

    /// The identifier of the connection.
    pub fn conn_id(&self) -> (c: u64)
        ensures
            c == self.spec_conn_id(),
    {
        self.conn_id
    }

    /// Whether a session with id `id` is open.
    pub fn contains(&self, id: Id) -> (b: bool)
        ensures
            b == self@.contains_key(id),
    {
        self.pool.contains_key(&id)
    }

    /// The session open under `id`, if any.
    pub fn session(&self, id: Id) -> (r: Option<FireAndForget>)
        ensures
            r == if self@.contains_key(id) { Some(self@[id]) } else { None },
    {
        match self.pool.get(&id) {
            Some(s) => Some(*s),
            None => None,
        }
    }

    /// Adds a session under `id`; an id in use is refused.
    pub fn insert_session(&mut self, id: Id, session: FireAndForget) -> (r: Result<(), SessionError>)
        ensures
            old(self)@.contains_key(id) ==> final(self)@ == old(self)@
                && fails_with(r, SessionErrorView::SessionIdAlreadyUsed(decimal(id as nat))),
            !old(self)@.contains_key(id) ==> final(self)@ == old(self)@.insert(id, session) && r is Ok,
            final(self).spec_conn_id() == old(self).spec_conn_id(),
    {
        if self.pool.contains_key(&id) {
            return Err(SessionError::SessionIdAlreadyUsed(decimal_text(id as u64)));
        }
        self.pool.insert(id, session);
        Ok(())
    }

    /// Removes the session with id `id`; returns whether there was one.
    pub fn remove_session(&mut self, id: Id) -> (r: bool)
        ensures
            r == old(self)@.contains_key(id),
            final(self)@ == old(self)@.remove(id),
            final(self).spec_conn_id() == old(self).spec_conn_id(),
    {
        self.pool.remove(&id).is_some()
    }

    /// Creates and stores a session of type `session_type` under `id`, or
    /// under a random id when none is given; only fire-and-forget sessions
    /// can be created. Returns what the application learns of the session.
    pub fn create_session(&mut self, session_type: SessionType, id: Option<Id>) -> (r: Result<Info, SessionError>)
        ensures
            final(self).spec_conn_id() == old(self).spec_conn_id(),
            session_type != SessionType::FireAndForget ==> final(self)@ == old(self)@
                && fails_with(r, SessionErrorView::SessionUnknown(session_type_text(session_type))),
            session_type == SessionType::FireAndForget ==> match r {
                Ok(info) => {
                    &&& id is Some ==> info.id == id->Some_0
                    &&& info == fresh_info(info.id)
                    &&& !old(self)@.contains_key(info.id)
                    &&& final(self)@ == old(self)@.insert(info.id, fresh_session(info.id))
                },
                Err(e) => {
                    &&& final(self)@ == old(self)@
                    &&& exists|used: Id| {
                        &&& (id is Some ==> used == id->Some_0)
                        &&& old(self)@.contains_key(used)
                        &&& e@ == SessionErrorView::SessionIdAlreadyUsed(decimal(used as nat))
                    }
                },
            },
    {
        match id {
            Some(i) => self.create_session_with(session_type, Some(i), i),
            None => {
                let drawn = random_u32();
                self.create_session_with(session_type, None, drawn)
            },
        }
    }

    /// Creates and stores a session of type `session_type` under `id`, or,
    /// when no id is given, under `drawn`; only fire-and-forget sessions can
    /// be created, and an id in use is refused. Returns what the application
    /// learns of the session.
    pub fn create_session_with(&mut self, session_type: SessionType, id: Option<Id>, drawn: Id) -> (r: Result<Info, SessionError>)
        ensures
            final(self).spec_conn_id() == old(self).spec_conn_id(),
            ({
                let used = match id {
                    Some(i) => i,
                    None => drawn,
                };
                if session_type != SessionType::FireAndForget {
                    final(self)@ == old(self)@
                        && fails_with(r, SessionErrorView::SessionUnknown(session_type_text(session_type)))
                } else if old(self)@.contains_key(used) {
                    final(self)@ == old(self)@
                        && fails_with(r, SessionErrorView::SessionIdAlreadyUsed(decimal(used as nat)))
                } else {
                    &&& r == Ok::<Info, SessionError>(fresh_info(used))
                    &&& final(self)@ == old(self)@.insert(used, fresh_session(used))
                }
            }),
    {
        let id = match id {
            Some(id) => id,
            None => drawn,
        };
        let session = match session_type {
            SessionType::FireAndForget => FireAndForget::new(id, SessionDirection::Bidirectional),
            _ => {
                return Err(SessionError::SessionUnknown(session_type_name(session_type)));
            },
        };
        let info = session.open();
        match self.insert_session(id, session) {
            Ok(()) => Ok(info),
            Err(e) => Err(e),
        }
    }

    /// Decides what to do with a message: northbound messages are routed by
    /// their header; southbound ones need the id of the session they belong
    /// to.
    pub fn handle_message(
        &mut self,
        direction: MessageDirection,
        session_id: Option<Id>,
        header: &mut Option<HeaderInfo>,
    ) -> (r: Result<Route, SessionError>)
        ensures
            final(self).spec_conn_id() == old(self).spec_conn_id(),
            direction == MessageDirection::North ==> *final(header) == *old(header)
                && gateway_outcome(old(self)@, *old(header), r, final(self)@),
            direction == MessageDirection::South ==> final(self)@ == old(self)@ && match session_id {
                None => *final(header) == *old(header)
                    && fails_with(r, SessionErrorView::MissingSessionId("none"@)),
                Some(id) => app_outcome(old(self)@, id, *old(header), r, *final(header)),
            },
    {
        match direction {
            MessageDirection::North => self.handle_message_from_gateway(&*header),
            MessageDirection::South => {
                let session_id = match session_id {
                    Some(id) => id,
                    None => {
                        return Err(SessionError::MissingSessionId(String::from_str("none")));
                    },
                };
                self.handle_message_from_app(session_id, header)
            },
        }
    }

    /// Decides what to do with a message from the application for session
    /// `session_id`: the session must be open, and the message must carry a
    /// session header, which then records `session_id`.
    pub fn handle_message_from_app(&self, session_id: Id, header: &mut Option<HeaderInfo>) -> (r: Result<Route, SessionError>)
        ensures
            app_outcome(self@, session_id, *old(header), r, *final(header)),
    {
        if self.pool.contains_key(&session_id) {
            return match header {
                Some(h) => {
                    h.session_id = session_id;
                    Ok(Route::Deliver(session_id))
                },
                None => Err(SessionError::MissingSessionHeader),
            };
        }
        Err(SessionError::SessionNotFound(decimal_text(session_id as u64)))
    }

    /// The outcome of opening the application's channel for a session that a
    /// gateway message created: a failure becomes the reception error, with
    /// the failure's text.
    pub fn channel_opened(&self, outcome: Result<(), String>) -> (r: Result<(), SessionError>)
        ensures
            match outcome {
                Ok(()) => r is Ok,
                Err(e) => fails_with(r, SessionErrorView::AppReception(e@)),
            },
    {
        match outcome {
            Ok(()) => Ok(()),
            Err(e) => Err(SessionError::AppReception(e)),
        }
    }

    /// Decides what to do with a message from the gateway: it needs a header
    /// whose type code names a session type; it goes to the open session of
    /// its id, or, for a fire-and-forget header, to a session created for
    /// it.
    pub fn handle_message_from_gateway(&mut self, header: &Option<HeaderInfo>) -> (r: Result<Route, SessionError>)
        ensures
            gateway_outcome(old(self)@, *header, r, final(self)@),
            final(self).spec_conn_id() == old(self).spec_conn_id(),
    {
        let h = match header {
            Some(h) => h,
            None => {
                return Err(SessionError::MissingAgpHeader(String::from_str("missing AGP header")));
            },
        };
        let kind = match &h.kind {
            Some(k) => k,
            None => {
                return Err(SessionError::SessionUnknown(signed_decimal_text(h.header_type)));
            },
        };
        let id = h.session_id;
        if self.pool.contains_key(&id) {
            return Ok(Route::Deliver(id));
        }
        match kind {
            HeaderKind::Fnf => {
                let info = match self.create_session(SessionType::FireAndForget, Some(id)) {
                    Ok(info) => info,
                    Err(e) => {
                        return Err(e);
                    },
                };
                Ok(Route::Opened(info))
            },
            HeaderKind::Other(name) => Err(SessionError::SessionUnknown(name.clone())),
        }
    }
}

/// Removing a session that was just added under a free id gives back the
/// sessions as they were.
pub proof fn law_remove_undoes_insert(pool: Map<Id, FireAndForget>, id: Id, session: FireAndForget)
    requires
        !pool.contains_key(id),
    ensures
        pool.insert(id, session).remove(id) == pool,
{
    assert(pool.insert(id, session).remove(id) =~= pool);
}

/// An id stays taken once a session is added under it, so a second session
/// under the same id is refused, whatever the first session was.
pub proof fn law_id_used_once(pool: Map<Id, FireAndForget>, id: Id, first: FireAndForget)
    ensures
        pool.insert(id, first).contains_key(id),
{
}

/// A session created for a gateway message is the one that the next
/// message for the same id is delivered to.
pub proof fn law_created_session_receives_next_message(pool: Map<Id, FireAndForget>, h: HeaderInfo)
    requires
        !pool.contains_key(h.session_id),
        h.kind matches Some(HeaderKind::Fnf),
    ensures
        gateway_outcome(
            pool.insert(h.session_id, fresh_session(h.session_id)),
            Some(h),
            Ok(Route::Deliver(h.session_id)),
            pool.insert(h.session_id, fresh_session(h.session_id)),
        ),
{
}

/// A gateway message for an open session goes to that session, whatever
/// session type its header announces, and leaves the sessions unchanged;
/// any message the layer delivers goes to the session its header names.
pub proof fn law_open_session_takes_gateway_message(
    pool: Map<Id, FireAndForget>,
    h: HeaderInfo,
    r: Result<Route, SessionError>,
    after: Map<Id, FireAndForget>,
)
    requires
        gateway_outcome(pool, Some(h), r, after),
    ensures
        h.kind is Some && pool.contains_key(h.session_id) ==> r == Ok::<Route, SessionError>(Route::Deliver(h.session_id))
            && after == pool,
        r matches Ok(Route::Deliver(id)) ==> id == h.session_id && pool.contains_key(id) && after == pool,
        r matches Ok(Route::Opened(info)) ==> info.id == h.session_id && !pool.contains_key(info.id)
            && after.contains_key(info.id),
{
}

/// The decision for a message from the application for session `id`, with
/// the session header `before`, and the header `after` it.
pub open spec fn app_outcome(
    pool: Map<Id, FireAndForget>,
    id: Id,
    before: Option<HeaderInfo>,
    r: Result<Route, SessionError>,
    after: Option<HeaderInfo>,
) -> bool {
    if !pool.contains_key(id) {
        after == before && fails_with(r, SessionErrorView::SessionNotFound(decimal(id as nat)))
    } else {
        match before {
            None => after == before && fails_with(r, SessionErrorView::MissingSessionHeader),
            Some(h) => {
                &&& after == Some(HeaderInfo { session_id: id, ..h })
                &&& r == Ok::<Route, SessionError>(Route::Deliver(id))
            },
        }
    }
}

/// The decision for a message from the gateway, and the sessions after it.
pub open spec fn gateway_outcome(
    pool: Map<Id, FireAndForget>,
    header: Option<HeaderInfo>,
    r: Result<Route, SessionError>,
    after: Map<Id, FireAndForget>,
) -> bool {
    match header {
        None => after == pool && fails_with(r, SessionErrorView::MissingAgpHeader("missing AGP header"@)),
        Some(h) => match h.kind {
            None => after == pool && fails_with(r, SessionErrorView::SessionUnknown(signed_decimal(h.header_type as int))),
            Some(kind) => if pool.contains_key(h.session_id) {
                after == pool && r == Ok::<Route, SessionError>(Route::Deliver(h.session_id))
            } else {
                match kind {
                    HeaderKind::Fnf => {
                        &&& after == pool.insert(h.session_id, fresh_session(h.session_id))
                        &&& r == Ok::<Route, SessionError>(Route::Opened(fresh_info(h.session_id)))
                    },
                    HeaderKind::Other(name) => after == pool && fails_with(r, SessionErrorView::SessionUnknown(name@)),
                }
            },
        },
    }
}

} // verus!
