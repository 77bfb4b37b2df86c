//! The per-request authentication gateway, as a state machine.
//!
//! `begin` looks at an inbound request and either grants it at once (a valid
//! session token), answers it (redirect to the provider, 401), or asks the
//! caller to exchange an authorization code. From then on the caller performs
//! each requested step (the provider exchange, user-store reads and writes)
//! and hands the outcome back to `step`, until a final answer comes out.
//!
//! A presented token that does not verify, for whatever reason, is treated as
//! no credential: the request falls through to the callback path, and the
//! session cookie is cleared on the answer if no new session is granted.
use vstd::prelude::*;
use crate::callback::{callback_code, callback_outcome, form_pairs, CallbackError};
use crate::credential::{
    opt_str_view,
    opt_view,
    presented_credential,
    request_scope,
    resolve_credential,
    scope_from_header,
};
use crate::token::{issue_at, issued_token, jwt_claims, verdict, verify_at, ClaimsView, TokenError};
use crate::user::{table_write, User, UserTable, UserView};

verus! {

/// The gateway's configuration, as mathematical values.
pub ghost struct ConfigView {
    pub secret: Seq<u8>,
    pub ttl: u64,
    pub default_scope: Seq<char>,
    pub authorize_url: Seq<char>,
    pub expected_state: Seq<char>,
}

/// Read-only configuration, built once at startup.
pub struct GatewayConfig {
    /// Symmetric secret that session tokens are signed with.
    pub secret: Vec<u8>,
    /// Lifetime of a session token, in seconds.
    pub ttl: u64,
    /// Scope of requests that name none.
    pub default_scope: String,
    /// The provider's authorize URL that first visits are sent to.
    pub authorize_url: String,
    /// The `state` value that was sent out with the authorize URL.
    pub expected_state: String,
}

impl View for GatewayConfig {
    type V = ConfigView;

    open spec fn view(&self) -> ConfigView {
        ConfigView {
            secret: self.secret@,
            ttl: self.ttl,
            default_scope: self.default_scope@,
            authorize_url: self.authorize_url@,
            expected_state: self.expected_state@,
        }
    }
}

/// What an inbound request presents, as mathematical values.
pub ghost struct RequestView {
    pub scope_header: Option<Seq<char>>,
    pub authorization: Option<Seq<char>>,
    pub session_cookie: Option<Seq<char>>,
    pub query: Option<Seq<char>>,
}

/// The parts of an inbound request that the gateway reads.
pub struct InboundRequest {
    /// Value of the scope header, if present and readable.
    pub scope_header: Option<String>,
    /// Value of the `Authorization` header, if present and readable.
    pub authorization: Option<String>,
    /// Value of the session cookie, if present.
    pub session_cookie: Option<String>,
    /// The URI's query string, if any.
    pub query: Option<String>,
}

impl View for InboundRequest {
    type V = RequestView;

    open spec fn view(&self) -> RequestView {
        RequestView {
            scope_header: opt_view(self.scope_header),
            authorization: opt_view(self.authorization),
            session_cookie: opt_view(self.session_cookie),
            query: opt_view(self.query),
        }
    }
}

/// Where a request stands on the callback path, as mathematical values.
pub ghost enum PhaseView {
    Exchanging,
    Looking { id: Seq<char>, live_token: Seq<char>, after_conflict: bool },
    Inserting { user: UserView },
    Updating { user: UserView },
    Finished,
}

/// Where a request stands on the callback path.
pub enum Phase {
    /// Waiting for the provider exchange.
    Exchanging,
    /// Waiting for the store's lookup of `id`; `after_conflict` once an insert
    /// found the id already taken.
    Looking { id: String, live_token: String, after_conflict: bool },
    /// Waiting for the store to insert `user`.
    Inserting { user: User },
    /// Waiting for the store to replace the record of `user.id`.
    Updating { user: User },
    /// A final answer has been given.
    Finished,
}

impl View for Phase {
    type V = PhaseView;

    open spec fn view(&self) -> PhaseView {
        match self {
            Phase::Exchanging => PhaseView::Exchanging,
            Phase::Looking { id, live_token, after_conflict } => PhaseView::Looking {
                id: id@,
                live_token: live_token@,
                after_conflict: *after_conflict,
            },
            Phase::Inserting { user } => PhaseView::Inserting { user: user@ },
            Phase::Updating { user } => PhaseView::Updating { user: user@ },
            Phase::Finished => PhaseView::Finished,
        }
    }
}

/// A request in progress, as mathematical values.
pub ghost struct PendingView {
    pub scope: Seq<char>,
    pub clear_session: bool,
    pub phase: PhaseView,
}

/// A request in progress.
pub struct Pending {
    /// The request's scope.
    pub scope: String,
    /// The request presented a token that did not verify.
    pub clear_session: bool,
    /// Where the request stands.
    pub phase: Phase,
}

impl View for Pending {
    type V = PendingView;

    open spec fn view(&self) -> PendingView {
        PendingView { scope: self.scope@, clear_session: self.clear_session, phase: self.phase@ }
    }
}

/// The outcome of a step that the caller performed, as mathematical values.
pub ghost enum EventView {
    Exchanged { id: Seq<char>, live_token: Seq<char> },
    ExchangeFailed,
    ProfileFetchFailed,
    UserFound { user: UserView },
    UserAbsent,
    Inserted,
    InsertConflict,
    Updated,
    StorageFailed,
}

/// The outcome of a step that the caller performed.
pub enum Event {
    /// The code was exchanged and the account looked up: its login and the
    /// provider's access token.
    Exchanged { id: String, live_token: String },
    /// The provider refused the code, or could not be reached in time.
    ExchangeFailed,
    /// The code was exchanged but the account could not be looked up.
    ProfileFetchFailed,
    /// The store holds this record for the id.
    UserFound { user: User },
    /// The store holds no record for the id.
    UserAbsent,
    /// The record was inserted.
    Inserted,
    /// The insert found a record with the same id already there.
    InsertConflict,
    /// The record was replaced.
    Updated,
    /// The store could not be used.
    StorageFailed,
}

impl View for Event {
    type V = EventView;

    open spec fn view(&self) -> EventView {
        match self {
            Event::Exchanged { id, live_token } => EventView::Exchanged { id: id@, live_token: live_token@ },
            Event::ExchangeFailed => EventView::ExchangeFailed,
            Event::ProfileFetchFailed => EventView::ProfileFetchFailed,
            Event::UserFound { user } => EventView::UserFound { user: user@ },
            Event::UserAbsent => EventView::UserAbsent,
            Event::Inserted => EventView::Inserted,
            Event::InsertConflict => EventView::InsertConflict,
            Event::Updated => EventView::Updated,
            Event::StorageFailed => EventView::StorageFailed,
        }
    }
}

/// What the gateway asks of the caller, as mathematical values.
pub ghost enum StepView {
    Exchange { code: Seq<char> },
    FindUser { id: Seq<char> },
    InsertUser { user: UserView },
    UpdateUser { user: UserView },
    Proceed { user: UserView, session: Seq<char> },
    Redirect { location: Seq<char>, clear_session: bool },
    Unauthorized { clear_session: bool },
    ServerError { clear_session: bool },
}

/// What the gateway asks of the caller next.
pub enum Step {
    /// Exchange `code` at the provider and look up the account; report with
    /// `Exchanged`, `ExchangeFailed` or `ProfileFetchFailed`.
    Exchange { code: String },
    /// Look up the record of `id`; report with `UserFound`, `UserAbsent` or
    /// `StorageFailed`.
    FindUser { id: String },
    /// Insert `user` unless its id is taken; report with `Inserted`,
    /// `InsertConflict` or `StorageFailed`.
    InsertUser { user: User },
    /// Replace the record of `user.id`; report with `Updated` or `StorageFailed`.
    UpdateUser { user: User },
    /// Final: run the downstream handler with `user` bound, and set `session`
    /// on its response.
    Proceed { user: User, session: String },
    /// Final: answer `302 Found` to `location`.
    Redirect { location: String, clear_session: bool },
    /// Final: answer `401 Unauthorized`.
    Unauthorized { clear_session: bool },
    /// Final: answer `500 Internal Server Error`.
    ServerError { clear_session: bool },
}

impl View for Step {
    type V = StepView;

    open spec fn view(&self) -> StepView {
        match self {
            Step::Exchange { code } => StepView::Exchange { code: code@ },
            Step::FindUser { id } => StepView::FindUser { id: id@ },
            Step::InsertUser { user } => StepView::InsertUser { user: user@ },
            Step::UpdateUser { user } => StepView::UpdateUser { user: user@ },
            Step::Proceed { user, session } => StepView::Proceed { user: user@, session: session@ },
            Step::Redirect { location, clear_session } => StepView::Redirect {
                location: location@,
                clear_session: *clear_session,
            },
            Step::Unauthorized { clear_session } => StepView::Unauthorized { clear_session: *clear_session },
            Step::ServerError { clear_session } => StepView::ServerError { clear_session: *clear_session },
        }
    }
}

/// What the gateway decides: ask for a step, or grant the request to a user
/// (which takes issuing a session token for them).
pub ghost enum Plan {
    Ask(StepView),
    Grant(UserView),
}

/// The user a verified token binds to the request.
pub open spec fn bound_user(c: ClaimsView) -> UserView {
    UserView { id: c.user, scope: c.scope, live_token: c.token }
}

/// The authorization code the request's query delivers.
pub open spec fn callback_result(cfg: ConfigView, req: RequestView) -> Result<Seq<char>, CallbackError> {
    match req.query {
        Some(q) => callback_outcome(form_pairs(q), cfg.expected_state),
        None => Err(CallbackError::MissingCredential),
    }
}

/// The verdict on the credential a request presents, if it presents one.
pub open spec fn credential_verdict(cfg: ConfigView, req: RequestView, now: u64) -> Option<Result<ClaimsView, TokenError>> {
    match presented_credential(req.authorization, req.session_cookie) {
        Some(t) => Some(verdict(jwt_claims(t, cfg.secret), request_scope(req.scope_header, cfg.default_scope), now)),
        None => None,
    }
}

/// How the gateway opens on a request at time `now`.
pub open spec fn entry(cfg: ConfigView, req: RequestView, now: u64) -> (PendingView, Plan) {
    let scope = request_scope(req.scope_header, cfg.default_scope);
    let checked = credential_verdict(cfg, req, now);
    let clear = checked is Some;
    let finished = PendingView { scope, clear_session: clear, phase: PhaseView::Finished };
    match checked {
        Some(Ok(c)) => (
            PendingView { scope, clear_session: false, phase: PhaseView::Finished },
            Plan::Grant(bound_user(c)),
        ),
        _ => match callback_result(cfg, req) {
            Ok(code) => (
                PendingView { scope, clear_session: clear, phase: PhaseView::Exchanging },
                Plan::Ask(StepView::Exchange { code }),
            ),
            Err(CallbackError::MissingCredential) => (
                finished,
                Plan::Ask(StepView::Redirect { location: cfg.authorize_url, clear_session: clear }),
            ),
            Err(CallbackError::StateMismatch) => (
                finished,
                Plan::Ask(StepView::Unauthorized { clear_session: clear }),
            ),
        },
    }
}

/// The record a login writes: the request's scope and the fresh provider token.
pub open spec fn login_record(id: Seq<char>, scope: Seq<char>, live_token: Seq<char>) -> UserView {
    UserView { id, scope, live_token }
}

/// How the gateway moves on when the caller reports `ev`.
pub open spec fn advance(p: PendingView, ev: EventView) -> (PendingView, Plan) {
    let finish = PendingView { phase: PhaseView::Finished, ..p };
    let fail = (finish, Plan::Ask(StepView::ServerError { clear_session: p.clear_session }));
    match p.phase {
        PhaseView::Exchanging => match ev {
            EventView::Exchanged { id, live_token } => (
                PendingView { phase: PhaseView::Looking { id, live_token, after_conflict: false }, ..p },
                Plan::Ask(StepView::FindUser { id }),
            ),
            EventView::ExchangeFailed => (finish, Plan::Ask(StepView::Unauthorized { clear_session: p.clear_session })),
            EventView::ProfileFetchFailed => (finish, Plan::Ask(StepView::Unauthorized { clear_session: p.clear_session })),
            _ => fail,
        },
        PhaseView::Looking { id, live_token, after_conflict } => {
            let row = login_record(id, p.scope, live_token);
            match ev {
                EventView::UserFound { user } => (
                    PendingView { phase: PhaseView::Updating { user: row }, ..p },
                    Plan::Ask(StepView::UpdateUser { user: row }),
                ),
                EventView::UserAbsent => if after_conflict {
                    fail
                } else {
                    (
                        PendingView { phase: PhaseView::Inserting { user: row }, ..p },
                        Plan::Ask(StepView::InsertUser { user: row }),
                    )
                },
                _ => fail,
            }
        },
        PhaseView::Inserting { user } => match ev {
            EventView::Inserted => (finish, Plan::Grant(user)),
            EventView::InsertConflict => (
                PendingView {
                    phase: PhaseView::Looking { id: user.id, live_token: user.live_token, after_conflict: true },
                    ..p
                },
                Plan::Ask(StepView::FindUser { id: user.id }),
            ),
            _ => fail,
        },
        PhaseView::Updating { user } => match ev {
            EventView::Updated => (finish, Plan::Grant(user)),
            _ => fail,
        },
        PhaseView::Finished => fail,
    }
}

/// `step` carries out `plan` for the request `p` at time `now`: an asked step
/// is given as it is; a grant comes out as the user with a session token
/// issued to them in the request's scope when the token's expiry fits, and as
/// a server error when it does not.
pub open spec fn carries_out(cfg: ConfigView, p: PendingView, plan: Plan, now: u64, step: StepView) -> bool {
    match plan {
        Plan::Ask(s) => step == s,
        Plan::Grant(u) => if now + cfg.ttl <= u64::MAX {
            step matches StepView::Proceed { user, session } && user == u && issued_token(
                session,
                cfg.secret,
                u.id,
                p.scope,
                u.live_token,
                now,
                cfg.ttl,
            )
        } else {
            step == StepView::ServerError { clear_session: p.clear_session }
        },
    }
}

fn opt_str(o: &Option<String>) -> (r: Option<&str>)
    ensures
        opt_str_view(r) == opt_view(*o),
{
    match o {
        Some(s) => Some(s.as_str()),
        None => None,
    }
}

/// Grants the request to `user`, issuing a session token in `scope`.
fn grant(cfg: &GatewayConfig, scope: &str, clear_session: bool, user: User, now: u64) -> (r: Step)
    ensures
        carries_out(
            cfg@,
            PendingView { scope: scope@, clear_session, phase: PhaseView::Finished },
            Plan::Grant(user@),
            now,
            r@,
        ),
{
    match issue_at(user.id.as_str(), scope, user.live_token.as_str(), cfg.secret.as_slice(), cfg.ttl, now) {
        Ok(session) => Step::Proceed { user, session },
        Err(_) => Step::ServerError { clear_session },
    }
}

/// Opens the gateway on a request at time `now`.
pub fn begin(cfg: &GatewayConfig, req: &InboundRequest, now: u64) -> (r: (Pending, Step))
    ensures
        r.0@ == entry(cfg@, req@, now).0,
        carries_out(cfg@, r.0@, entry(cfg@, req@, now).1, now, r.1@),
{
    let scope = scope_from_header(opt_str(&req.scope_header), cfg.default_scope.as_str());
    let presented = resolve_credential(opt_str(&req.authorization), opt_str(&req.session_cookie));
    let clear = presented.is_some();
    if let Some(t) = &presented {
        if let Ok(c) = verify_at(t.as_str(), cfg.secret.as_slice(), scope.as_str(), now) {
            let user = User { id: c.user, scope: c.scope, live_token: c.token };
            let step = grant(cfg, scope.as_str(), false, user, now);
            return (Pending { scope, clear_session: false, phase: Phase::Finished }, step);
        }
    }
    let outcome = match &req.query {
        Some(q) => callback_code(q.as_str(), cfg.expected_state.as_str()),
        None => Err(CallbackError::MissingCredential),
    };
    match outcome {
        Ok(code) => (Pending { scope, clear_session: clear, phase: Phase::Exchanging }, Step::Exchange { code }),
        Err(CallbackError::MissingCredential) => (
            Pending { scope, clear_session: clear, phase: Phase::Finished },
            Step::Redirect { location: cfg.authorize_url.clone(), clear_session: clear },
        ),
        Err(CallbackError::StateMismatch) => (
            Pending { scope, clear_session: clear, phase: Phase::Finished },
            Step::Unauthorized { clear_session: clear },
        ),
    }
}


fn finished(scope: String, clear_session: bool) -> (r: Pending)
    ensures
        r@ == (PendingView { scope: scope@, clear_session, phase: PhaseView::Finished }),
{
    Pending { scope, clear_session, phase: Phase::Finished }
}

fn failed(scope: String, clear_session: bool) -> (r: (Pending, Step))
    ensures
        r.0@ == (PendingView { scope: scope@, clear_session, phase: PhaseView::Finished }),
        r.1@ == (StepView::ServerError { clear_session }),
{
    (finished(scope, clear_session), Step::ServerError { clear_session })
}

/// Moves a request on with the outcome `ev` of the step the caller performed,
/// at time `now`.
pub fn step(cfg: &GatewayConfig, pending: Pending, ev: Event, now: u64) -> (r: (Pending, Step))
    ensures
        r.0@ == advance(pending@, ev@).0,
        carries_out(cfg@, r.0@, advance(pending@, ev@).1, now, r.1@),
{
    let Pending { scope, clear_session, phase } = pending;
    match phase {
        Phase::Exchanging => match ev {
            Event::Exchanged { id, live_token } => {
                let find = Step::FindUser { id: id.clone() };
                let phase = Phase::Looking { id, live_token, after_conflict: false };
                (Pending { scope, clear_session, phase }, find)
            },
            Event::ExchangeFailed => (finished(scope, clear_session), Step::Unauthorized { clear_session }),
            Event::ProfileFetchFailed => (finished(scope, clear_session), Step::Unauthorized { clear_session }),
            _ => failed(scope, clear_session),
        },
        Phase::Looking { id, live_token, after_conflict } => match ev {
            Event::UserFound { user: _ } => {
                let row = User { id, scope: scope.clone(), live_token };
                let update = Step::UpdateUser { user: row.duplicate() };
                (Pending { scope, clear_session, phase: Phase::Updating { user: row } }, update)
            },
            Event::UserAbsent => {
                if after_conflict {
                    failed(scope, clear_session)
                } else {
                    let row = User { id, scope: scope.clone(), live_token };
                    let insert = Step::InsertUser { user: row.duplicate() };
                    (Pending { scope, clear_session, phase: Phase::Inserting { user: row } }, insert)
                }
            },
            _ => failed(scope, clear_session),
        },
        Phase::Inserting { user } => match ev {
            Event::Inserted => {
                let granted = grant(cfg, scope.as_str(), clear_session, user, now);
                (finished(scope, clear_session), granted)
            },
            Event::InsertConflict => {
                let find = Step::FindUser { id: user.id.clone() };
                let phase = Phase::Looking { id: user.id, live_token: user.live_token, after_conflict: true };
                (Pending { scope, clear_session, phase }, find)
            },
            _ => failed(scope, clear_session),
        },
        Phase::Updating { user } => match ev {
            Event::Updated => {
                let granted = grant(cfg, scope.as_str(), clear_session, user, now);
                (finished(scope, clear_session), granted)
            },
            _ => failed(scope, clear_session),
        },
        Phase::Finished => failed(scope, clear_session),
    }
}

/// How a store holding `table` answers `s`, and what it then holds. Lookups
/// are by id; an insert never replaces a record; an update writes the whole
/// record under its id.
pub open spec fn store_answer(table: UserTable, s: StepView) -> (UserTable, EventView) {
    match s {
        StepView::FindUser { id } => (table, if table.contains_key(id) {
            EventView::UserFound { user: table[id] }
        } else {
            EventView::UserAbsent
        }),
        StepView::InsertUser { user } => if table.contains_key(user.id) {
            (table, EventView::InsertConflict)
        } else {
            (table_write(table, user), EventView::Inserted)
        },
        StepView::UpdateUser { user } => (table_write(table, user), EventView::Updated),
        _ => (table, EventView::StorageFailed),
    }
}

/// `s` is a request to the user store.
pub open spec fn is_store_request(s: StepView) -> bool {
    s is FindUser || s is InsertUser || s is UpdateUser
}

/// Runs up to `fuel` store requests of a request in progress against a store
/// holding `table`, each answered in turn; returns what the store then holds,
/// the request's state and the gateway's last decision.
pub open spec fn run_store(table: UserTable, p: PendingView, plan: Plan, fuel: nat) -> (UserTable, PendingView, Plan)
    decreases fuel,
{
    if fuel == 0 {
        (table, p, plan)
    } else {
        match plan {
            Plan::Ask(s) => if is_store_request(s) {
                let (t, ev) = store_answer(table, s);
                let (q, next) = advance(p, ev);
                run_store(t, q, next, (fuel - 1) as nat)
            } else {
                (table, p, plan)
            },
            Plan::Grant(_) => (table, p, plan),
        }
    }
}

/// The callback path of a request in `scope`, from the provider's report of
/// `id` and `live_token` on, against a store holding `table`.
pub open spec fn login_against(
    table: UserTable,
    scope: Seq<char>,
    clear_session: bool,
    id: Seq<char>,
    live_token: Seq<char>,
) -> (UserTable, PendingView, Plan) {
    let (p, plan) = advance(
        PendingView { scope, clear_session, phase: PhaseView::Exchanging },
        EventView::Exchanged { id, live_token },
    );
    run_store(table, p, plan, 2)
}

proof fn lemma_login_writes_record(
    table: UserTable,
    scope: Seq<char>,
    clear_session: bool,
    id: Seq<char>,
    live_token: Seq<char>,
)
    ensures
        login_against(table, scope, clear_session, id, live_token).2
            == Plan::Grant(login_record(id, scope, live_token)),
        login_against(table, scope, clear_session, id, live_token).0
            == table_write(table, login_record(id, scope, live_token)),
{
    reveal_with_fuel(run_store, 3);
    let start = PendingView { scope, clear_session, phase: PhaseView::Exchanging };
    let (looking, find) = advance(start, EventView::Exchanged { id, live_token });
    assert(find == Plan::Ask(StepView::FindUser { id }));
    let (_, seen) = store_answer(table, StepView::FindUser { id });
    let (_, write) = advance(looking, seen);
    if table.contains_key(id) {
        assert(write == Plan::Ask(StepView::UpdateUser { user: login_record(id, scope, live_token) }));
    } else {
        assert(write == Plan::Ask(StepView::InsertUser { user: login_record(id, scope, live_token) }));
    }
}

/// Logging in against a store that answers each request in turn grants the
/// request to a record that holds the request's scope and the new provider
/// token, written under the id. Logging in again with the same id and scope
/// leaves exactly one record for that id, holding the latest token, and every
/// other record as it was; with the same token too, the second login changes
/// nothing.
pub proof fn lemma_login_upsert_idempotent(
    table: UserTable,
    scope: Seq<char>,
    clear_session: bool,
    id: Seq<char>,
    first_token: Seq<char>,
    second_token: Seq<char>,
)
    ensures
        login_against(table, scope, clear_session, id, first_token).2
            == Plan::Grant(login_record(id, scope, first_token)),
        login_against(table, scope, clear_session, id, first_token).0
            == table_write(table, login_record(id, scope, first_token)),
        ({
            let once = login_against(table, scope, clear_session, id, first_token).0;
            let twice = login_against(once, scope, clear_session, id, second_token);
            &&& twice.2 == Plan::Grant(login_record(id, scope, second_token))
            &&& twice.0 == table_write(table, login_record(id, scope, second_token))
            &&& twice.0.dom() == table.dom().insert(id)
            &&& twice.0[id].live_token == second_token
            &&& forall|k: Seq<char>| k != id && table.contains_key(k) ==> twice.0[k] == table[k]
            &&& second_token == first_token ==> twice.0 == once
        }),
{
    lemma_login_writes_record(table, scope, clear_session, id, first_token);
    let row1 = login_record(id, scope, first_token);
    let row2 = login_record(id, scope, second_token);
    let once = table_write(table, row1);
    lemma_login_writes_record(once, scope, clear_session, id, second_token);
    assert(table_write(once, row2) =~= table_write(table, row2));
    assert(table_write(table, row2).dom() =~= table.dom().insert(id));
    assert(table_write(once, row1) =~= once);
}


/// The step a plan asks for; a grant asks for nothing of the store.
pub open spec fn asked(plan: Plan) -> StepView {
    match plan {
        Plan::Ask(s) => s,
        Plan::Grant(u) => StepView::Proceed { user: u, session: Seq::empty() },
    }
}

/// Two first-time callbacks for the same `id` racing against a store holding
/// `table`: both have their exchange reported, both look the id up before
/// either inserts, request `a` inserts first, and request `b` then finishes
/// against the store on its own. Returns what the store then holds and the
/// last decision on each request.
pub open spec fn first_login_race(
    table: UserTable,
    a_scope: Seq<char>,
    b_scope: Seq<char>,
    id: Seq<char>,
    a_token: Seq<char>,
    b_token: Seq<char>,
) -> (UserTable, Plan, Plan) {
    let (a_look, a_find) = advance(
        PendingView { scope: a_scope, clear_session: false, phase: PhaseView::Exchanging },
        EventView::Exchanged { id, live_token: a_token },
    );
    let (b_look, b_find) = advance(
        PendingView { scope: b_scope, clear_session: false, phase: PhaseView::Exchanging },
        EventView::Exchanged { id, live_token: b_token },
    );
    let (t_a_seen, a_seen) = store_answer(table, asked(a_find));
    let (t_b_seen, b_seen) = store_answer(t_a_seen, asked(b_find));
    let (a_ins, a_insert) = advance(a_look, a_seen);
    let (b_ins, b_insert) = advance(b_look, b_seen);
    let (t_a_done, a_done) = store_answer(t_b_seen, asked(a_insert));
    let (t_b_done, b_done) = store_answer(t_a_done, asked(b_insert));
    let (_, a_end) = advance(a_ins, a_done);
    let (b_next, b_plan) = advance(b_ins, b_done);
    let (t_end, _, b_end) = run_store(t_b_done, b_next, b_plan, 2);
    (t_end, a_end, b_end)
}

/// Two concurrent first logins for an id the store does not hold both get
/// through: the first to insert creates the record, the other finds its insert
/// in conflict, reads the record again and replaces it. Afterwards the store
/// holds exactly one record for the id, the one the last writer wrote, and
/// every other record as it was.
pub proof fn lemma_concurrent_first_logins(
    table: UserTable,
    a_scope: Seq<char>,
    b_scope: Seq<char>,
    id: Seq<char>,
    a_token: Seq<char>,
    b_token: Seq<char>,
)
    requires
        !table.contains_key(id),
    ensures
        ({
            let (t, a_end, b_end) = first_login_race(table, a_scope, b_scope, id, a_token, b_token);
            &&& a_end == Plan::Grant(login_record(id, a_scope, a_token))
            &&& b_end == Plan::Grant(login_record(id, b_scope, b_token))
            &&& t == table_write(table, login_record(id, b_scope, b_token))
            &&& t.dom() == table.dom().insert(id)
            &&& forall|k: Seq<char>| k != id && table.contains_key(k) ==> t[k] == table[k]
        }),
{
    reveal_with_fuel(run_store, 3);
    let a_row = login_record(id, a_scope, a_token);
    let b_row = login_record(id, b_scope, b_token);
    let inserted = table_write(table, a_row);
    assert(inserted.contains_key(id));
    assert(table_write(inserted, b_row) =~= table_write(table, b_row));
    assert(table_write(table, b_row).dom() =~= table.dom().insert(id));
}

} // verus!
