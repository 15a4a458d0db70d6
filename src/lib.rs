//! A local credential store with a single in-process session: users with salted
//! password digests kept in an embedded database file, register / login / logout /
//! whoami over it, and the schema for per-user data.

pub mod auth;
pub mod password;
pub mod store;
pub mod types;

pub use auth::{get_current_user, login_user, logout_user, register_user};
pub use store::DbState;
pub use types::{AuthResponse, LoginRequest, RegisterRequest, User};
