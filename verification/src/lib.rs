//! Local authentication and user management for a point-of-sale backend:
//! a credential store of user accounts with salted password hashes, a
//! session store of bearer tokens with absolute expiry, login / session
//! validation / logout on top of them, and an idempotent default-admin
//! bootstrap.

mod clock;
pub mod crypto;
pub mod db;
mod ident;
pub mod laws;
pub mod types;

pub use db::Database;
pub use db::SESSION_TTL_MS;
pub use types::DbError;
pub use types::LoginRequest;
pub use types::LoginResponse;
pub use types::role_of_text;
pub use types::role_text;
pub use types::SessionRecord;
pub use types::User;
pub use types::UserRecord;
pub use types::UserRole;
