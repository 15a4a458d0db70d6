use vstd::prelude::*;
use vstd::string::StrSliceExecFns;
use crate::password::{bcrypt_verdict, has_digest_form, hash_password, verify_password};
use crate::store::{
    arg_views,
    execute_statement, last_insert_rowid, query_reply, query_user_row, ArgView, DbState, Reply,
    Sent, SqlArg,
    StoredUser,
};
use crate::types::{
    accept, acceptance, msg_already_exists, msg_fields_required, msg_invalid_credentials,
    msg_logged_in, msg_logged_out, msg_login_fields_required, msg_password_too_short,
    msg_registered, reject, rejection, snapshot_opt, user_opt_view, with_context, AuthResponse, AuthView,
    LoginRequest, RegisterRequest, User, UserView,
};

verus! {

/// The answer to a registration request decided before the store is touched: `None`
/// where the request may go on.
pub open spec fn registration_check(username: Seq<char>, email: Seq<char>, password: Seq<
    char,
>) -> Option<AuthView> {
    if username.len() == 0 || password.len() == 0 || email.len() == 0 {
        Some(rejection(msg_fields_required()))
    } else if password.len() < 6 {
        Some(rejection(msg_password_too_short()))
    } else {
        None
    }
}

/// The answer to a login request decided before the store is touched.
pub open spec fn login_check(username: Seq<char>, password: Seq<char>) -> Option<AuthView> {
    if username.len() == 0 || password.len() == 0 {
        Some(rejection(msg_login_fields_required()))
    } else {
        None
    }
}

/// The public identity of a stored row.
pub open spec fn public_view(row: StoredUser) -> UserView {
    UserView {
        id: row.id,
        username: row.username@,
        email: row.email@,
        created_at: row.created_at@,
    }
}

/// The answer to a login once the row for the username has been looked up and, where
/// there is one, the password checked against its digest. An unknown username and a
/// wrong password get the same answer.
pub open spec fn login_view(row: Option<UserView>, password_ok: bool) -> AuthView {
    match row {
        Some(u) => if password_ok {
            acceptance(msg_logged_in(), Some(u))
        } else {
            rejection(msg_invalid_credentials())
        },
        None => rejection(msg_invalid_credentials()),
    }
}

/// The session slot after a command answered `resp`: a successful answer puts its user
/// (none, for logout) in the slot; any other leaves the slot as it was.
pub open spec fn session_step(slot: Option<UserView>, resp: AuthView) -> Option<UserView> {
    if resp.success {
        resp.user
    } else {
        slot
    }
}

/// The session slot after the answers `resps`, in order, starting from `slot`.
pub open spec fn session_after(slot: Option<UserView>, resps: Seq<AuthView>) -> Option<
    UserView,
>
    decreases resps.len(),
{
    if resps.len() == 0 {
        slot
    } else {
        session_step(session_after(slot, resps.drop_last()), resps.last())
    }
}

pub const PROBE_SQL: &'static str = "SELECT id, username, email, password_hash, created_at FROM users WHERE username = ?1 OR email = ?2";

pub const INSERT_USER_SQL: &'static str = "INSERT INTO users (username, email, password_hash) VALUES (?1, ?2, ?3)";

pub const INSERT_PREFERENCES_SQL: &'static str = "INSERT INTO user_preferences (user_id) VALUES (?1)";

pub const USER_BY_ID_SQL: &'static str = "SELECT id, username, email, password_hash, created_at FROM users WHERE id = ?1";

pub const USER_BY_NAME_SQL: &'static str = "SELECT id, username, email, password_hash, created_at FROM users WHERE username = ?1";

/// `s` is the statement `sql` with the arguments `args`, whatever the reply.
pub open spec fn sent_as(s: Sent, sql: Seq<char>, args: Seq<ArgView>) -> bool {
    s.sql == sql && s.args == args
}

/// The arguments of the probe for a username and an email.
pub open spec fn probe_args(username: Seq<char>, email: Seq<char>) -> Seq<ArgView> {
    seq![ArgView::Text(username), ArgView::Text(email)]
}

/// The arguments of a user insert.
pub open spec fn insert_user_args(username: Seq<char>, email: Seq<char>, digest: Seq<char>) -> Seq<
    ArgView,
> {
    seq![ArgView::Text(username), ArgView::Text(email), ArgView::Text(digest)]
}

/// The arguments that name a user by id.
pub open spec fn id_args(user_id: i64) -> Seq<ArgView> {
    seq![ArgView::Integer(user_id)]
}

/// The id that a preferences insert names.
pub open spec fn id_of(s: Sent) -> i64 {
    match s.args[0] {
        ArgView::Integer(i) => i,
        _ => 0,
    }
}

/// The digest sent in a user insert.
pub open spec fn digest_of(s: Sent) -> Seq<char> {
    match s.args[2] {
        ArgView::Text(h) => h,
        _ => Seq::empty(),
    }
}

/// The outcome of a registration whose probe found no row, given what was sent after
/// the probe: the user insert, then the preferences insert for the id the engine gave,
/// then the re-read by that id, each only if the one before was carried out.
pub open spec fn registration_tail(
    t: Seq<Sent>,
    username: Seq<char>,
    email: Seq<char>,
    digest: Seq<char>,
    outcome: Result<AuthView, Seq<char>>,
) -> bool {
    &&& 1 <= t.len() <= 3
    &&& sent_as(t[0], INSERT_USER_SQL@, insert_user_args(username, email, digest))
    &&& t.len() >= 2 ==> t[0].reply == Reply::Done && sent_as(
        t[1],
        INSERT_PREFERENCES_SQL@,
        id_args(id_of(t[1])),
    )
    &&& t.len() == 3 ==> t[1].reply == Reply::Done && sent_as(
        t[2],
        USER_BY_ID_SQL@,
        id_args(id_of(t[1])),
    )
    &&& t.len() < 3 ==> t.last().reply is Failed
    &&& outcome == match t.last().reply {
        Reply::Failed(m) => Err(
            if t.len() == 1 {
                "Failed to create user: "@ + m
            } else if t.len() == 2 {
                "Failed to create user preferences: "@ + m
            } else {
                "Failed to fetch user: "@ + m
            },
        ),
        Reply::Row(Some(w)) => Ok(
            acceptance(
                msg_registered(),
                Some(
                    UserView {
                        id: id_of(t[1]),
                        username,
                        email,
                        created_at: w.created_at@,
                    },
                ),
            ),
        ),
        _ => Err("Failed to fetch user: "@ + "Query returned no rows"@),
    }
}

/// What a registration that passed its checks sent after `before`, and its outcome:
/// the probe for the username and email; a probe that failed is the error; a probe that
/// found a row is the already-exists rejection, with nothing sent after it; a probe
/// that found none is followed as [`registration_tail`] says, with `digest`.
pub open spec fn registration_sends(
    before: Seq<Sent>,
    after: Seq<Sent>,
    username: Seq<char>,
    email: Seq<char>,
    digest: Seq<char>,
    outcome: Result<AuthView, Seq<char>>,
) -> bool {
    let n = before.len() as int;
    &&& after.len() > n
    &&& after.subrange(0, n) == before
    &&& sent_as(after[n], PROBE_SQL@, probe_args(username, email))
    &&& match after[n].reply {
        Reply::Failed(m) => after.len() == n + 1 && outcome == Err::<AuthView, Seq<char>>(m),
        Reply::Row(Some(_)) => after.len() == n + 1 && outcome == Ok::<AuthView, Seq<char>>(
            rejection(msg_already_exists()),
        ),
        Reply::Row(None) => registration_tail(
            after.subrange(n + 1, after.len() as int),
            username,
            email,
            digest,
            outcome,
        ),
        Reply::Done => false,
    }
}

/// `after` is `before` followed by one registration of `password` that went through:
/// the probe found no row, the user row with a digest of the digest shape that verifies
/// against `password` and the preferences row for `user_id` were inserted, and the
/// re-read found the row.
pub open spec fn records_registration(
    before: Seq<Sent>,
    after: Seq<Sent>,
    username: Seq<char>,
    email: Seq<char>,
    password: Seq<char>,
    user_id: i64,
) -> bool {
    let n = before.len() as int;
    let digest = digest_of(after[n + 1]);
    &&& after.len() == n + 4
    &&& after.subrange(0, n) == before
    &&& sent_as(after[n], PROBE_SQL@, probe_args(username, email))
    &&& after[n].reply == Reply::Row(None)
    &&& sent_as(after[n + 1], INSERT_USER_SQL@, insert_user_args(username, email, digest))
    &&& after[n + 1].reply == Reply::Done
    &&& sent_as(after[n + 2], INSERT_PREFERENCES_SQL@, id_args(user_id))
    &&& after[n + 2].reply == Reply::Done
    &&& sent_as(after[n + 3], USER_BY_ID_SQL@, id_args(user_id))
    &&& after[n + 3].reply is Row
    &&& has_digest_form(digest)
    &&& bcrypt_verdict(password, digest) == Some(true)
}

/// The model of a command's outcome: the answer, or the error message.
pub open spec fn outcome_view(r: Result<AuthResponse, String>) -> Result<AuthView, Seq<char>> {
    match r {
        Ok(resp) => Ok(resp@),
        Err(e) => Err(e@),
    }
}

/// The outcome of a login for `username`, given what the lookup returned and the
/// verdict on the password against the row's digest. A failed lookup and a verification
/// error are errors; a row under another username counts as none.
pub open spec fn login_result(
    username: Seq<char>,
    lookup: Result<Option<StoredUser>, String>,
    verdict: Result<bool, String>,
) -> Result<AuthView, Seq<char>> {
    match lookup {
        Err(e) => Err(e@),
        Ok(None) => Ok(rejection(msg_invalid_credentials())),
        Ok(Some(w)) => match verdict {
            Err(e) => Err("Password verification error: "@ + e@),
            Ok(b) => Ok(login_view(Some(public_view(w)), b && w.username@ == username)),
        },
    }
}

/// Where no answer succeeded, the session slot holds what it held at the start.
pub proof fn lemma_session_kept_without_success(slot: Option<UserView>, resps: Seq<AuthView>)
    requires
        forall|j: int| 0 <= j < resps.len() ==> !(#[trigger] resps[j]).success,
    ensures
        session_after(slot, resps) == slot,
    decreases resps.len(),
{
    if resps.len() > 0 {
        let init = resps.drop_last();
        assert(!resps[resps.len() - 1].success);
        assert forall|j: int| 0 <= j < init.len() implies !(#[trigger] init[j]).success by {
            assert(init[j] == resps[j]);
        }
        lemma_session_kept_without_success(slot, init);
    }
}

/// The session slot holds the user of the most recent successful answer: the user
/// signed in by a register or login, or none after a logout.
pub proof fn lemma_session_follows_last_success(
    slot: Option<UserView>,
    resps: Seq<AuthView>,
    i: int,
)
    requires
        0 <= i < resps.len(),
        resps[i].success,
        forall|j: int| i < j < resps.len() ==> !(#[trigger] resps[j]).success,
    ensures
        session_after(slot, resps) == resps[i].user,
    decreases resps.len(),
{
    let init = resps.drop_last();
    if i < resps.len() - 1 {
        assert(!resps[resps.len() - 1].success);
        assert(init[i] == resps[i]);
        assert forall|j: int| i < j < init.len() implies !(#[trigger] init[j]).success by {
            assert(init[j] == resps[j]);
        }
        lemma_session_follows_last_success(slot, init, i);
    }
}

/// A failed login answers the same whether the username is unknown or the password is
/// wrong.
pub proof fn lemma_login_rejection_discloses_nothing(known: UserView)
    ensures
        login_view(None, false) == login_view(Some(known), false),
        login_view(None, true) == login_view(Some(known), false),
        login_view(Some(known), false) == rejection(msg_invalid_credentials()),
{
}

/// After a registration of `password` has been recorded, the digest it sent verifies
/// against that password; a login under that username whose lookup returns a row
/// holding that digest, with the verdict `true` that the digest gives, is accepted with
/// that row's user, and with the verdict `false` is refused with the generic rejection.
pub proof fn lemma_registered_password_logs_in(
    before: Seq<Sent>,
    after: Seq<Sent>,
    username: Seq<char>,
    email: Seq<char>,
    password: Seq<char>,
    user_id: i64,
    row: StoredUser,
)
    requires
        records_registration(before, after, username, email, password, user_id),
        row.username@ == username,
    ensures
        bcrypt_verdict(password, digest_of(after[before.len() + 1int])) == Some(true),
        login_result(username, Ok(Some(row)), Ok(true)) == Ok::<AuthView, Seq<char>>(
            acceptance(msg_logged_in(), Some(public_view(row))),
        ),
        login_result(username, Ok(Some(row)), Ok(false)) == Ok::<AuthView, Seq<char>>(
            rejection(msg_invalid_credentials()),
        ),
{
}

/// Every digest that a registration stores differs from the password it was made
/// from, unless that password itself has the shape of a digest.
pub proof fn lemma_stored_digest_is_not_plaintext(
    before: Seq<Sent>,
    after: Seq<Sent>,
    username: Seq<char>,
    email: Seq<char>,
    password: Seq<char>,
    user_id: i64,
)
    requires
        records_registration(before, after, username, email, password, user_id),
        !has_digest_form(password),
    ensures
        digest_of(after[before.len() + 1int]) != password,
{
    crate::password::lemma_digest_is_not_plaintext(password, digest_of(after[before.len() + 1int]));
}

/// Checks a registration request before any work: the three fields must be present and
/// the password at least six characters long.
pub fn check_registration(request: &RegisterRequest) -> (r: Option<AuthResponse>)
    ensures
        match r {
            Some(resp) => registration_check(
                request.username@,
                request.email@,
                request.password@,
            ) == Some(resp@),
            None => registration_check(request.username@, request.email@, request.password@)
                is None,
        },
{
    if request.username.as_str().is_empty() || request.password.as_str().is_empty()
        || request.email.as_str().is_empty() {
        return Some(reject("Username, email, and password are required"));
    }
    if request.password.as_str().unicode_len() < 6 {
        return Some(reject("Password must be at least 6 characters"));
    }
    None
}

/// Checks a login request before any work: both fields must be present.
pub fn check_login(request: &LoginRequest) -> (r: Option<AuthResponse>)
    ensures
        match r {
            Some(resp) => login_check(request.username@, request.password@) == Some(resp@),
            None => login_check(request.username@, request.password@) is None,
        },
{
    if request.username.as_str().is_empty() || request.password.as_str().is_empty() {
        return Some(reject("Username and password are required"));
    }
    None
}


/// What a login that passed its checks sent after `before`, and its outcome: the
/// lookup by username; a failed lookup is the error; no row is the generic rejection; a
/// row is judged by the verdict on the password against its digest, where a
/// verification error is an error behind "Password verification error: ".
pub open spec fn login_sends(
    before: Seq<Sent>,
    after: Seq<Sent>,
    username: Seq<char>,
    password: Seq<char>,
    outcome: Result<AuthView, Seq<char>>,
) -> bool {
    let n = before.len() as int;
    &&& after.len() == n + 1
    &&& after.subrange(0, n) == before
    &&& sent_as(after[n], USER_BY_NAME_SQL@, seq![ArgView::Text(username)])
    &&& match after[n].reply {
        Reply::Failed(m) => outcome == Err::<AuthView, Seq<char>>(m),
        Reply::Row(None) => outcome == Ok::<AuthView, Seq<char>>(
            rejection(msg_invalid_credentials()),
        ),
        Reply::Row(Some(w)) => match bcrypt_verdict(password, w.password_hash@) {
            None => exists|m: Seq<char>|
                outcome == Err::<AuthView, Seq<char>>("Password verification error: "@ + m),
            Some(b) => outcome == Ok::<AuthView, Seq<char>>(
                login_view(Some(public_view(w)), b && w.username@ == username),
            ),
        },
        Reply::Done => false,
    }
}

/// The answer to a registration given what the probe for its username and email
/// returned: any stored row means the registration is refused.
pub fn registration_answer(existing: &Option<StoredUser>) -> (r: Option<AuthResponse>)
    ensures
        r is Some <==> existing is Some,
        r is Some ==> r->0@ == rejection(msg_already_exists()),
{
    match existing {
        Some(_) => Some(reject("Username or email already exists")),
        None => None,
    }
}

/// The creation time of the row that the re-read returned; no row is an error.
pub fn created_at_of(row: Option<StoredUser>) -> (r: Result<String, String>)
    ensures
        r is Ok <==> row is Some,
        r is Ok ==> r->Ok_0@ == row->0.created_at@,
        r is Err ==> r->Err_0@ == "Query returned no rows"@,
{
    match row {
        Some(stored) => Ok(stored.created_at),
        None => Err("Query returned no rows".to_owned()),
    }
}

/// The rest of a registration once the probe has found no row: the user row is
/// inserted with the digest, its default preferences row with the id the engine gave,
/// and the row re-read by that id for its creation time; the first failure ends it as
/// an error, and a re-read row makes the new user the answer and the session.
pub fn register_after_probe(
    request: RegisterRequest,
    password_hash: String,
    db_state: &mut DbState,
) -> (r: Result<AuthResponse, String>)
    ensures
        final(db_state).sent().len() > old(db_state).sent().len(),
        final(db_state).sent().subrange(0, old(db_state).sent().len() as int) == old(
            db_state,
        ).sent(),
        registration_tail(
            final(db_state).sent().subrange(
                old(db_state).sent().len() as int,
                final(db_state).sent().len() as int,
            ),
            request.username@,
            request.email@,
            password_hash@,
            outcome_view(r),
        ),
        final(db_state).path() == old(db_state).path(),
        r is Err ==> final(db_state).session() == old(db_state).session(),
        r is Ok ==> user_opt_view(final(db_state).session()) == session_step(
            user_opt_view(old(db_state).session()),
            r->Ok_0@,
        ),
{
    let ghost before = db_state.sent();
    let ghost n = before.len() as int;
    let insert_args = vec![
        SqlArg::Text(request.username.clone()),
        SqlArg::Text(request.email.clone()),
        SqlArg::Text(password_hash.clone()),
    ];
    assert(arg_views(insert_args@) =~= insert_user_args(
        request.username@,
        request.email@,
        password_hash@,
    ));
    let inserted = execute_statement(db_state, INSERT_USER_SQL, &insert_args);
    assert(db_state.sent().subrange(0, n) =~= before);
    let ghost s1 = db_state.sent()[n];
    if let Err(e) = inserted {
        assert(db_state.sent().subrange(n, db_state.sent().len() as int) =~= seq![s1]);
        return Err(with_context("Failed to create user: ", e));
    }
    let user_id = last_insert_rowid(db_state);
    let id_list = vec![SqlArg::Integer(user_id)];
    assert(arg_views(id_list@) =~= id_args(user_id));
    let prefs = execute_statement(db_state, INSERT_PREFERENCES_SQL, &id_list);
    assert(db_state.sent().subrange(0, n) =~= before);
    let ghost s2 = db_state.sent()[n + 1];
    assert(id_of(s2) == user_id);
    if let Err(e) = prefs {
        assert(db_state.sent().subrange(n, db_state.sent().len() as int) =~= seq![s1, s2]);
        return Err(with_context("Failed to create user preferences: ", e));
    }
    let reread = query_user_row(db_state, USER_BY_ID_SQL, &id_list);
    assert(db_state.sent().subrange(0, n) =~= before);
    let ghost s3 = db_state.sent()[n + 2];
    assert(db_state.sent().subrange(n, db_state.sent().len() as int) =~= seq![s1, s2, s3]);
    let row = match reread {
        Ok(row) => row,
        Err(e) => {
            return Err(with_context("Failed to fetch user: ", e));
        },
    };
    let created_at = match created_at_of(row) {
        Ok(c) => c,
        Err(e) => {
            return Err(with_context("Failed to fetch user: ", e));
        },
    };
    let user = User {
        id: user_id,
        username: request.username,
        email: request.email,
        created_at,
    };
    db_state.set_current_user(Some(user.snapshot()));
    Ok(accept("Registration successful", Some(user)))
}

/// The part of a registration that needs the store, given the password's digest: the
/// request is checked, a probe looks for its username or email, its result decides
/// through [`registration_answer`], and where it found no row the rest is
/// [`register_after_probe`]. A rejection changes neither the session nor sends more
/// than the probe; an error never changes the session.
pub fn store_registration(
    request: RegisterRequest,
    password_hash: String,
    db_state: &mut DbState,
) -> (r: Result<AuthResponse, String>)
    ensures
        registration_check(request.username@, request.email@, request.password@) is Some ==> r
            is Ok && Some(r->Ok_0@) == registration_check(
            request.username@,
            request.email@,
            request.password@,
        ) && final(db_state).sent() == old(db_state).sent(),
        registration_check(request.username@, request.email@, request.password@) is None
            ==> registration_sends(
            old(db_state).sent(),
            final(db_state).sent(),
            request.username@,
            request.email@,
            password_hash@,
            outcome_view(r),
        ),
        final(db_state).path() == old(db_state).path(),
        r is Err ==> final(db_state).session() == old(db_state).session(),
        r is Ok ==> user_opt_view(final(db_state).session()) == session_step(
            user_opt_view(old(db_state).session()),
            r->Ok_0@,
        ),
{
    if let Some(resp) = check_registration(&request) {
        return Ok(resp);
    }
    let ghost before = db_state.sent();
    let ghost n = before.len() as int;
    let probe_list = vec![
        SqlArg::Text(request.username.clone()),
        SqlArg::Text(request.email.clone()),
    ];
    assert(arg_views(probe_list@) =~= probe_args(request.username@, request.email@));
    let probe = query_user_row(db_state, PROBE_SQL, &probe_list);
    assert(db_state.sent().subrange(0, n) =~= before);
    let existing = match probe {
        Ok(existing) => existing,
        Err(e) => {
            return Err(e);
        },
    };
    if let Some(resp) = registration_answer(&existing) {
        return Ok(resp);
    }
    let ghost mid = db_state.sent();
    let r = register_after_probe(request, password_hash, db_state);
    proof {
        let after = db_state.sent();
        assert(after.subrange(0, mid.len() as int) == mid);
        assert(after[n] == after.subrange(0, mid.len() as int)[n]);
        assert(after.subrange(0, n) =~= mid.subrange(0, n));
        assert(after.subrange(n + 1, after.len() as int) =~= after.subrange(
            mid.len() as int,
            after.len() as int,
        ));
    }
    r
}

/// Registers a user and signs them in: the request is checked, the password hashed (a
/// hashing error is an error behind "Failed to hash password: ", with nothing sent),
/// and the rest done by [`store_registration`] with that digest.
pub fn register_user(request: RegisterRequest, db_state: &mut DbState) -> (r: Result<
    AuthResponse,
    String,
>)
    ensures
        registration_check(request.username@, request.email@, request.password@) is Some ==> r
            is Ok && Some(r->Ok_0@) == registration_check(
            request.username@,
            request.email@,
            request.password@,
        ) && final(db_state).sent() == old(db_state).sent(),
        registration_check(request.username@, request.email@, request.password@) is None ==> {
            ||| {
                &&& final(db_state).sent() == old(db_state).sent()
                &&& r is Err
                &&& exists|m: Seq<char>| r->Err_0@ == "Failed to hash password: "@ + m
            }
            ||| {
                let n = old(db_state).sent().len() as int;
                let digest = digest_of(final(db_state).sent()[n + 1]);
                &&& registration_sends(
                    old(db_state).sent(),
                    final(db_state).sent(),
                    request.username@,
                    request.email@,
                    digest,
                    outcome_view(r),
                )
                &&& final(db_state).sent().len() > n + 1 ==> has_digest_form(digest)
                    && bcrypt_verdict(request.password@, digest) == Some(true)
            }
        },
        final(db_state).path() == old(db_state).path(),
        r is Err ==> final(db_state).session() == old(db_state).session(),
        r is Ok ==> user_opt_view(final(db_state).session()) == session_step(
            user_opt_view(old(db_state).session()),
            r->Ok_0@,
        ),
        r is Ok && r->Ok_0.success ==> {
            &&& r->Ok_0.message@ == msg_registered()
            &&& r->Ok_0.user is Some
            &&& r->Ok_0.user->0.username@ == request.username@
            &&& r->Ok_0.user->0.email@ == request.email@
            &&& records_registration(
                old(db_state).sent(),
                final(db_state).sent(),
                request.username@,
                request.email@,
                request.password@,
                r->Ok_0.user->0.id,
            )
        },
{
    if let Some(resp) = check_registration(&request) {
        return Ok(resp);
    }
    let password_hash = match hash_password(request.password.as_str()) {
        Ok(h) => h,
        Err(e) => {
            let r = Err(with_context("Failed to hash password: ", e));
            assert(r->Err_0@ == "Failed to hash password: "@ + e@);
            return r;
        },
    };
    let ghost password = request.password@;
    let ghost username = request.username@;
    let ghost email = request.email@;
    let ghost digest = password_hash@;
    let r = store_registration(request, password_hash, db_state);
    proof {
        let before = old(db_state).sent();
        let after = db_state.sent();
        let n = before.len() as int;
        if after[n].reply == Reply::Row(None) {
            let t = after.subrange(n + 1, after.len() as int);
            assert(t[0] == after[n + 1]);
            assert(digest_of(after[n + 1]) =~= digest);
            if r is Ok && r->Ok_0.success {
                assert(t.len() == 3);
                assert(t[1] == after[n + 2]);
                assert(t[2] == after[n + 3]);
            }
        }
    }
    r
}

/// Looks up the row stored for the login's username; the part of a login that needs
/// the store.
pub fn find_login_row(request: &LoginRequest, db_state: &mut DbState) -> (r: Result<
    Option<StoredUser>,
    String,
>)
    ensures
        final(db_state).sent() == old(db_state).sent().push(
            Sent {
                sql: USER_BY_NAME_SQL@,
                args: seq![ArgView::Text(request.username@)],
                reply: query_reply(r),
            },
        ),
        final(db_state).session() == old(db_state).session(),
        final(db_state).path() == old(db_state).path(),
{
    let args = vec![SqlArg::Text(request.username.clone())];
    assert(arg_views(args@) =~= seq![ArgView::Text(request.username@)]);
    query_user_row(db_state, USER_BY_NAME_SQL, &args)
}

/// Checks the login's password against the digest of the row that the lookup
/// returned; with no row, or a failed lookup, there is nothing to check and the
/// verdict is `false`.
pub fn check_row_password(
    request: &LoginRequest,
    lookup: &Result<Option<StoredUser>, String>,
) -> (r: Result<bool, String>)
    ensures
        !(lookup matches Ok(Some(_))) ==> r == Ok::<bool, String>(false),
        lookup matches Ok(Some(w)) ==> (r is Ok <==> bcrypt_verdict(
            request.password@,
            w.password_hash@,
        ) is Some) && (r is Ok ==> bcrypt_verdict(request.password@, w.password_hash@)
            == Some(r->Ok_0)),
{
    match lookup {
        Ok(Some(w)) => verify_password(request.password.as_str(), w.password_hash.as_str()),
        _ => Ok(false),
    }
}

/// The outcome of a login given what the lookup returned and the verdict on the
/// row's digest.
pub fn login_outcome(
    request: &LoginRequest,
    lookup: Result<Option<StoredUser>, String>,
    verdict: Result<bool, String>,
) -> (r: Result<AuthResponse, String>)
    ensures
        outcome_view(r) == login_result(request.username@, lookup, verdict),
{
    match lookup {
        Err(e) => Err(e),
        Ok(None) => Ok(reject("Invalid username or password")),
        Ok(Some(w)) => match verdict {
            Err(e) => Err(with_context("Password verification error: ", e)),
            Ok(b) => {
                if b && w.username == request.username {
                    Ok(accept("Login successful", Some(w.to_user())))
                } else {
                    Ok(reject("Invalid username or password"))
                }
            },
        },
    }
}

/// Ends a login: its outcome from the lookup and the verdict, and on acceptance the
/// user put in the session. Sends nothing to the database.
pub fn finish_login(
    request: &LoginRequest,
    lookup: Result<Option<StoredUser>, String>,
    verdict: Result<bool, String>,
    db_state: &mut DbState,
) -> (r: Result<AuthResponse, String>)
    ensures
        outcome_view(r) == login_result(request.username@, lookup, verdict),
        final(db_state).sent() == old(db_state).sent(),
        final(db_state).path() == old(db_state).path(),
        r is Err ==> final(db_state).session() == old(db_state).session(),
        r is Ok ==> user_opt_view(final(db_state).session()) == session_step(
            user_opt_view(old(db_state).session()),
            r->Ok_0@,
        ),
{
    let r = login_outcome(request, lookup, verdict);
    if let Ok(resp) = &r {
        if resp.success {
            db_state.set_current_user(snapshot_opt(&resp.user));
        }
    }
    r
}

/// Signs a user in: the request is checked, the row for the username looked up, the
/// password checked against its digest, and on a match the user put in the session.
/// An unknown username and a wrong password get the same rejection; a failed lookup or
/// a verification error is returned as an error. Sends only the lookup.
pub fn login_user(request: LoginRequest, db_state: &mut DbState) -> (r: Result<
    AuthResponse,
    String,
>)
    ensures
        login_check(request.username@, request.password@) is Some ==> r is Ok && Some(
            r->Ok_0@,
        ) == login_check(request.username@, request.password@) && final(db_state).sent()
            == old(db_state).sent(),
        login_check(request.username@, request.password@) is None ==> login_sends(
            old(db_state).sent(),
            final(db_state).sent(),
            request.username@,
            request.password@,
            outcome_view(r),
        ),
        final(db_state).path() == old(db_state).path(),
        r is Err ==> final(db_state).session() == old(db_state).session(),
        r is Ok ==> user_opt_view(final(db_state).session()) == session_step(
            user_opt_view(old(db_state).session()),
            r->Ok_0@,
        ),
        r is Ok && r->Ok_0.success ==> {
            &&& r->Ok_0.message@ == msg_logged_in()
            &&& r->Ok_0.user is Some
            &&& r->Ok_0.user->0.username@ == request.username@
        },
{
    if let Some(resp) = check_login(&request) {
        return Ok(resp);
    }
    let ghost before = db_state.sent();
    let lookup = find_login_row(&request, db_state);
    assert(db_state.sent().subrange(0, before.len() as int) =~= before);
    let verdict = check_row_password(&request, &lookup);
    let ghost found = lookup;
    let ghost v = verdict;
    let r = finish_login(&request, lookup, verdict, db_state);
    proof {
        if found matches Ok(Some(w)) {
            if v is Err {
                let m = v->Err_0@;
                assert(outcome_view(r) == Err::<AuthView, Seq<char>>(
                    "Password verification error: "@ + m,
                ));
            }
        }
    }
    r
}

/// Signs the current user out; a no-op on the slot when nobody is signed in.
pub fn logout_user(db_state: &mut DbState) -> (r: Result<AuthResponse, String>)
    ensures
        r is Ok,
        r->Ok_0@ == acceptance(msg_logged_out(), None),
        final(db_state).session() is None,
        final(db_state).sent() == old(db_state).sent(),
        final(db_state).path() == old(db_state).path(),
{
    db_state.set_current_user(None);
    Ok(accept("Logged out successfully", None))
}

/// A copy of the user now signed in, if any.
pub fn get_current_user(db_state: &DbState) -> (r: Result<Option<User>, String>)
    ensures
        r is Ok,
        user_opt_view(r->Ok_0) == user_opt_view(db_state.session()),
{
    Ok(snapshot_opt(db_state.current_user()))
}

} // verus!
