use vstd::prelude::*;
use vstd::string::StringExecFns;

verus! {

/// Mathematical model of a [`User`].
pub struct UserView {
    pub id: i64,
    pub username: Seq<char>,
    pub email: Seq<char>,
    pub created_at: Seq<char>,
}

/// The public identity of a user; the password digest never leaves the store.
#[derive(Debug, Clone)]
pub struct User {
    pub id: i64,
    pub username: String,
    pub email: String,
    pub created_at: String,
}

impl View for User {
    type V = UserView;

    open spec fn view(&self) -> UserView {
        UserView {
            id: self.id,
            username: self.username@,
            email: self.email@,
            created_at: self.created_at@,
        }
    }
}

impl User {
    /// An independent copy of this user.
    pub fn snapshot(&self) -> (r: User)
        ensures
            r@ == self@,
    {
        User {
            id: self.id,
            username: self.username.clone(),
            email: self.email.clone(),
            created_at: self.created_at.clone(),
        }
    }
}

/// The model of an optional user.
pub open spec fn user_opt_view(u: Option<User>) -> Option<UserView> {
    match u {
        Some(x) => Some(x@),
        None => None,
    }
}

/// Copies an optional user.
pub fn snapshot_opt(u: &Option<User>) -> (r: Option<User>)
    ensures
        user_opt_view(r) == user_opt_view(*u),
{
    match u {
        Some(x) => Some(x.snapshot()),
        None => None,
    }
}

#[derive(Debug)]
pub struct RegisterRequest {
    pub username: String,
    pub email: String,
    pub password: String,
}

#[derive(Debug)]
pub struct LoginRequest {
    pub username: String,
    pub password: String,
}

/// Mathematical model of an [`AuthResponse`].
pub struct AuthView {
    pub success: bool,
    pub message: Seq<char>,
    pub user: Option<UserView>,
}

/// The uniform answer of register, login and logout.
#[derive(Debug)]
pub struct AuthResponse {
    pub success: bool,
    pub message: String,
    pub user: Option<User>,
}

impl View for AuthResponse {
    type V = AuthView;

    open spec fn view(&self) -> AuthView {
        AuthView { success: self.success, message: self.message@, user: user_opt_view(self.user) }
    }
}

pub open spec fn msg_fields_required() -> Seq<char> {
    "Username, email, and password are required"@
}

pub open spec fn msg_password_too_short() -> Seq<char> {
    "Password must be at least 6 characters"@
}

pub open spec fn msg_already_exists() -> Seq<char> {
    "Username or email already exists"@
}

pub open spec fn msg_registered() -> Seq<char> {
    "Registration successful"@
}

pub open spec fn msg_login_fields_required() -> Seq<char> {
    "Username and password are required"@
}

pub open spec fn msg_invalid_credentials() -> Seq<char> {
    "Invalid username or password"@
}

pub open spec fn msg_logged_in() -> Seq<char> {
    "Login successful"@
}

pub open spec fn msg_logged_out() -> Seq<char> {
    "Logged out successfully"@
}

/// A rejection: `success` false, the given message, no user.
pub open spec fn rejection(message: Seq<char>) -> AuthView {
    AuthView { success: false, message, user: None }
}

/// An acceptance: `success` true, the given message and user.
pub open spec fn acceptance(message: Seq<char>, user: Option<UserView>) -> AuthView {
    AuthView { success: true, message, user }
}

/// Builds a rejection carrying `message`.
pub fn reject(message: &str) -> (r: AuthResponse)
    ensures
        r@ == rejection(message@),
{
    AuthResponse { success: false, message: message.to_owned(), user: None }
}

/// Builds an acceptance carrying `message` and `user`.
pub fn accept(message: &str, user: Option<User>) -> (r: AuthResponse)
    ensures
        r@ == acceptance(message@, user_opt_view(user)),
{
    AuthResponse { success: true, message: message.to_owned(), user }
}

/// `message` behind the context `prefix`.
pub fn with_context(prefix: &str, message: String) -> (r: String)
    ensures
        r@ == prefix@ + message@,
{
    let mut s = prefix.to_owned();
    s.append(message.as_str());
    s
}

} // verus!
