//! User management core: a validated user name, a random user identity,
//! the user entity, and the decisions of the create-user use case.
pub mod create_user;
pub mod user;

pub use create_user::{finish_create_user, new_user, CreateUserCommand, CreateUserError};
pub use user::{User, UserId, UserName, UserNameError};
