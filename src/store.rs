use vstd::prelude::*;
use crate::types::User;
use rusqlite::Connection;
use rusqlite::OptionalExtension;

verus! {

#[verifier::external_type_specification]
#[verifier::external_body]
pub struct ExConnection(rusqlite::Connection);

/// A positional argument of a statement.
pub enum SqlArg {
    Text(String),
    Integer(i64),
}

/// A full row of the `users` table, digest included.
#[derive(Debug)]
pub struct StoredUser {
    pub id: i64,
    pub username: String,
    pub email: String,
    pub password_hash: String,
    pub created_at: String,
}

impl StoredUser {
    /// The row's public identity, without the digest.
    pub fn to_user(self) -> (r: User)
        ensures
            r.id == self.id,
            r.username@ == self.username@,
            r.email@ == self.email@,
            r.created_at@ == self.created_at@,
    {
        User {
            id: self.id,
            username: self.username,
            email: self.email,
            created_at: self.created_at,
        }
    }
}

/// Mathematical model of a [`SqlArg`].
pub enum ArgView {
    Text(Seq<char>),
    Integer(i64),
}

impl View for SqlArg {
    type V = ArgView;

    open spec fn view(&self) -> ArgView {
        match self {
            SqlArg::Text(s) => ArgView::Text(s@),
            SqlArg::Integer(i) => ArgView::Integer(*i),
        }
    }
}

/// The models of a list of arguments.
pub open spec fn arg_views(args: Seq<SqlArg>) -> Seq<ArgView> {
    args.map_values(|a: SqlArg| a@)
}

/// What the engine answered to a statement.
pub enum Reply {
    /// The engine refused or failed it, with this message.
    Failed(Seq<char>),
    /// A change was carried out.
    Done,
    /// A query returned this first row, or none.
    Row(Option<StoredUser>),
}

/// A statement sent to the database: its SQL text, its positional arguments, and the
/// engine's reply.
pub struct Sent {
    pub sql: Seq<char>,
    pub args: Seq<ArgView>,
    pub reply: Reply,
}

/// The reply recorded for the outcome of a change.
pub open spec fn change_reply(r: Result<usize, String>) -> Reply {
    match r {
        Ok(_) => Reply::Done,
        Err(e) => Reply::Failed(e@),
    }
}

/// The reply recorded for the outcome of a query.
pub open spec fn query_reply(r: Result<Option<StoredUser>, String>) -> Reply {
    match r {
        Ok(row) => Reply::Row(row),
        Err(e) => Reply::Failed(e@),
    }
}

/// The store: one connection to the database file, and the session slot holding at
/// most one signed-in user. Exclusive access (`&mut`) is the store lock.
pub struct DbState {
    pub conn: Connection,
    current_user: Option<User>,
    sent: Ghost<Seq<Sent>>,
    path: Ghost<Seq<char>>,
}

impl DbState {
    /// Every statement that the library sent to the database through this value, with
    /// the engine's replies, in order.
    pub closed spec fn sent(&self) -> Seq<Sent> {
        self.sent@
    }

    /// The path of the database file that this value opened.
    pub closed spec fn path(&self) -> Seq<char> {
        self.path@
    }

    /// The session slot: the user signed in, if any.
    pub closed spec fn session(&self) -> Option<User> {
        self.current_user
    }

    /// The session slot.
    pub fn current_user(&self) -> (r: &Option<User>)
        ensures
            *r == self.session(),
    {
        &self.current_user
    }

    /// Replaces the occupant of the session slot; sends nothing.
    pub fn set_current_user(&mut self, user: Option<User>)
        ensures
            final(self).session() == user,
            final(self).sent() == old(self).sent(),
            final(self).path() == old(self).path(),
    {
        self.current_user = user;
    }
}

/// Relies on rusqlite::Connection::open: opens the database file at `path`, creating it
/// if absent; an engine error is returned as its message. The store it gives has sent
/// nothing and has nobody signed in.
#[verifier::external_body]
fn open_connection(path: &str) -> (r: Result<DbState, String>)
    ensures
        r is Ok ==> r->Ok_0.path() == path@,
        r is Ok ==> r->Ok_0.sent() == Seq::<Sent>::empty(),
        r is Ok ==> r->Ok_0.session() is None,
{
    let conn = Connection::open(path).map_err(|e| e.to_string())?;
    Ok(DbState { conn, current_user: None, sent: Ghost(Seq::empty()), path: Ghost(path@) })
}

/// Relies on rusqlite::Connection::execute: runs one statement with positional
/// arguments and returns the number of rows changed; an engine error is returned as its
/// message. The statement is recorded in the log, whatever the outcome.
#[verifier::external_body]
pub(crate) fn execute_statement(db: &mut DbState, sql: &str, args: &Vec<SqlArg>) -> (r: Result<
    usize,
    String,
>)
    ensures
        final(db).sent() == old(db).sent().push(
            Sent { sql: sql@, args: arg_views(args@), reply: change_reply(r) },
        ),
        final(db).session() == old(db).session(),
        final(db).path() == old(db).path(),
{
    let values = args.iter().map(|a| match a {
        SqlArg::Text(s) => rusqlite::types::Value::Text(s.clone()),
        SqlArg::Integer(i) => rusqlite::types::Value::Integer(*i),
    });
    db.conn.execute(sql, rusqlite::params_from_iter(values)).map_err(|e| e.to_string())
}

/// Relies on rusqlite::Connection::query_row with OptionalExtension::optional: the first
/// row that the query returns, read as the columns (id, username, email, password_hash,
/// created_at); `None` where it returns no row; an engine error is returned as its
/// message. The query is recorded in the log, whatever the outcome.
#[verifier::external_body]
pub(crate) fn query_user_row(db: &mut DbState, sql: &str, args: &Vec<SqlArg>) -> (r: Result<
    Option<StoredUser>,
    String,
>)
    ensures
        final(db).sent() == old(db).sent().push(
            Sent { sql: sql@, args: arg_views(args@), reply: query_reply(r) },
        ),
        final(db).session() == old(db).session(),
        final(db).path() == old(db).path(),
{
    let values = args.iter().map(|a| match a {
        SqlArg::Text(s) => rusqlite::types::Value::Text(s.clone()),
        SqlArg::Integer(i) => rusqlite::types::Value::Integer(*i),
    });
    db.conn.query_row(sql, rusqlite::params_from_iter(values), |row| {
        let (id, username, email) = (row.get(0)?, row.get(1)?, row.get(2)?);
        Ok(StoredUser { id, username, email, password_hash: row.get(3)?, created_at: row.get(4)? })
    }).optional().map_err(|e| e.to_string())
}

/// Relies on rusqlite::Connection::last_insert_rowid: the rowid of the connection's most
/// recent successful INSERT.
#[verifier::external_body]
pub(crate) fn last_insert_rowid(db: &DbState) -> (r: i64) {
    db.conn.last_insert_rowid()
}

pub const USERS_TABLE: &'static str = "CREATE TABLE IF NOT EXISTS users (
    id INTEGER PRIMARY KEY AUTOINCREMENT,
    username TEXT NOT NULL UNIQUE,
    email TEXT NOT NULL UNIQUE,
    password_hash TEXT NOT NULL,
    created_at TEXT NOT NULL DEFAULT (datetime('now'))
)";

pub const RECIPES_TABLE: &'static str = "CREATE TABLE IF NOT EXISTS user_recipes (
    id TEXT PRIMARY KEY,
    user_id INTEGER NOT NULL,
    name TEXT NOT NULL,
    description TEXT,
    category TEXT NOT NULL,
    components TEXT NOT NULL,
    total_volume REAL NOT NULL,
    volume_unit TEXT NOT NULL,
    ph REAL,
    instructions TEXT,
    notes TEXT,
    tags TEXT,
    created_at TEXT NOT NULL,
    modified_at TEXT NOT NULL,
    FOREIGN KEY (user_id) REFERENCES users(id) ON DELETE CASCADE
)";

pub const MEASUREMENTS_TABLE: &'static str = "CREATE TABLE IF NOT EXISTS user_measurements (
    id TEXT PRIMARY KEY,
    user_id INTEGER NOT NULL,
    protein_name TEXT NOT NULL,
    date TEXT NOT NULL,
    absorbance_280 REAL NOT NULL,
    extinction_coefficient REAL NOT NULL,
    molecular_weight REAL NOT NULL,
    path_length REAL NOT NULL,
    concentration REAL NOT NULL,
    concentration_molar REAL NOT NULL,
    notes TEXT,
    sequence TEXT,
    batch_number TEXT,
    FOREIGN KEY (user_id) REFERENCES users(id) ON DELETE CASCADE
)";

pub const PREFERENCES_TABLE: &'static str = "CREATE TABLE IF NOT EXISTS user_preferences (
    user_id INTEGER PRIMARY KEY,
    default_volume REAL NOT NULL DEFAULT 100,
    default_volume_unit TEXT NOT NULL DEFAULT 'mL',
    default_concentration_unit TEXT NOT NULL DEFAULT 'M',
    recent_chemicals TEXT,
    favorite_recipes TEXT,
    theme TEXT NOT NULL DEFAULT 'auto',
    scientific_notation INTEGER NOT NULL DEFAULT 0,
    decimal_places INTEGER NOT NULL DEFAULT 4,
    FOREIGN KEY (user_id) REFERENCES users(id) ON DELETE CASCADE
)";

pub const FOREIGN_KEYS_ON: &'static str = "PRAGMA foreign_keys = ON";

/// The statements that open a store, in order: foreign-key cascades on, then the four
/// tables, each created only where absent.
pub open spec fn schema_sql() -> Seq<Seq<char>> {
    seq![FOREIGN_KEYS_ON@, USERS_TABLE@, RECIPES_TABLE@, MEASUREMENTS_TABLE@, PREFERENCES_TABLE@]
}

/// `log` is the first `log.len()` schema statements, each with no argument, all but
/// the last carried out; the last one carried out too unless it is the failure.
pub open spec fn schema_prefix(log: Seq<Sent>) -> bool {
    &&& 1 <= log.len() <= 5
    &&& forall|i: int| 0 <= i < log.len() ==> (#[trigger] log[i]).sql == schema_sql()[i]
        && log[i].args == Seq::<ArgView>::empty()
    &&& forall|i: int| 0 <= i < log.len() - 1 ==> (#[trigger] log[i]).reply == Reply::Done
}

impl DbState {
    /// Sends the schema statements in order, stopping at the first failure, which is
    /// returned as the engine's message. None of them drops or alters what the file
    /// holds.
    pub fn create_schema(&mut self) -> (r: Result<(), String>)
        ensures
            final(self).session() == old(self).session(),
            final(self).path() == old(self).path(),
            final(self).sent().subrange(0, old(self).sent().len() as int) == old(self).sent(),
            schema_prefix(final(self).sent().subrange(old(self).sent().len() as int, final(self).sent().len() as int)),
            r is Ok <==> final(self).sent().len() == old(self).sent().len() + 5
                && final(self).sent().last().reply == Reply::Done,
            r is Err ==> final(self).sent().last().reply == Reply::Failed(r->Err_0@),
    {
        let ghost before = self.sent();
        let no_args: Vec<SqlArg> = Vec::new();
        assert(arg_views(no_args@) =~= seq![]);
        let stmts = [FOREIGN_KEYS_ON, USERS_TABLE, RECIPES_TABLE, MEASUREMENTS_TABLE, PREFERENCES_TABLE];
        let mut i: usize = 0;
        while i < 5
            invariant
                i <= 5,
                before == old(self).sent(),
                stmts@ == seq![FOREIGN_KEYS_ON, USERS_TABLE, RECIPES_TABLE, MEASUREMENTS_TABLE, PREFERENCES_TABLE],
                arg_views(no_args@) == Seq::<ArgView>::empty(),
                self.session() == old(self).session(),
                self.path() == old(self).path(),
                self.sent().len() == before.len() + i,
                self.sent().subrange(0, before.len() as int) == before,
                forall|k: int| 0 <= k < i ==> (#[trigger] self.sent()[before.len() + k]).sql
                    == schema_sql()[k] && self.sent()[before.len() + k].args
                    == Seq::<ArgView>::empty() && self.sent()[before.len() + k].reply
                    == Reply::Done,
            decreases 5 - i,
        {
            let res = execute_statement(self, stmts[i], &no_args);
            assert(self.sent().subrange(0, before.len() as int) =~= before);
            match res {
                Ok(_) => {},
                Err(e) => {
                    let ghost tail = self.sent().subrange(before.len() as int, self.sent().len() as int);
                    assert forall|k: int| 0 <= k < tail.len() implies (#[trigger] tail[k]).sql == schema_sql()[k]
                        && tail[k].args == Seq::<ArgView>::empty() && (k < tail.len() - 1 ==> tail[k].reply == Reply::Done) by {
                        assert(tail[k] == self.sent()[before.len() + k]);
                    }
                    assert(self.sent().last().reply == Reply::Failed(e@));
                    return Err(e);
                },
            }
            i = i + 1;
        }
        let ghost tail = self.sent().subrange(before.len() as int, self.sent().len() as int);
        assert forall|k: int| 0 <= k < tail.len() implies (#[trigger] tail[k]).sql == schema_sql()[k]
            && tail[k].args == Seq::<ArgView>::empty() && tail[k].reply == Reply::Done by {
            assert(tail[k] == self.sent()[before.len() + k]);
        }
        assert(self.sent().last() == self.sent()[before.len() + 4int]);
        Ok(())
    }

    /// Opens the store at `db_path`, creating the file if absent, and sends the schema
    /// statements. An open that fails, or a schema statement that fails, is returned as
    /// the engine's message. A store that opens is bound to `db_path`, has nobody
    /// signed in, and has sent exactly the schema statements, each carried out.
    pub fn new(db_path: &str) -> (r: Result<DbState, String>)
        ensures
            r is Ok ==> r->Ok_0.session() is None,
            r is Ok ==> r->Ok_0.path() == db_path@,
            r is Ok ==> r->Ok_0.sent().len() == 5 && schema_prefix(r->Ok_0.sent())
                && r->Ok_0.sent().last().reply == Reply::Done,
    {
        let mut db = open_connection(db_path)?;
        db.create_schema()?;
        assert(db.sent().subrange(0, db.sent().len() as int) =~= db.sent());
        Ok(db)
    }
}

} // verus!
