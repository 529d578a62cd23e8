pub mod clock;
pub mod context;
pub mod crypto;
pub mod errors;
pub mod extract;
pub mod guards;
pub mod ops;
pub mod role;
pub mod store;
pub mod strutil;
pub mod tokens;
pub mod user;
pub mod user_uid;
