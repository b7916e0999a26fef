//! The decisions of the create-user use case. Saving the user is the
//! caller's work: `new_user` builds the user to save, and
//! `finish_create_user` turns the outcome of the save into the result.
use vstd::prelude::*;

use crate::user::{is_random_uuid, User, UserName};

verus! {

/// The request to create a user: a name that was validated already.
pub struct CreateUserCommand {
    name: UserName,
}

impl View for CreateUserCommand {
    /// The text of the requested name.
    type V = Seq<char>;

    closed spec fn view(&self) -> Seq<char> {
        self.name@
    }
}

impl CreateUserCommand {
    /// A command asking for a user with the given name.
    pub fn new(name: UserName) -> (r: CreateUserCommand)
        ensures
            r@ == name@,
    {
        CreateUserCommand { name }
    }

    /// The requested name.
    pub fn name(&self) -> (r: &UserName)
        ensures
            r@ == self@,
    {
        &self.name
    }
}

/// A failed save of a new user, with the repository's own error kept as
/// its source.
#[derive(Debug)]
pub struct CreateUserError<E> {
    pub source: E,
}

/// The context that a failed save is reported with.
pub open spec fn create_user_failed_message() -> Seq<char> {
    "user creation failed"@
}

impl<E> CreateUserError<E> {
    /// The context of the failure, in words.
    pub fn message(&self) -> (r: String)
        ensures
            r@ == create_user_failed_message(),
    {
        let m = "user creation failed";
        proof {
            reveal_strlit("user creation failed");
        }
        m.to_string()
    }

    /// The repository's error that caused the failure.
    pub fn into_source(self) -> (r: E)
        ensures
            r == self.source,
    {
        self.source
    }
}

/// The result of the use case for `user`, given the outcome of saving it:
/// the user on success, else the save's error with the creation context.
pub open spec fn create_user_outcome<E>(user: User, saved: Result<(), E>) -> Result<
    User,
    CreateUserError<E>,
> {
    match saved {
        Ok(_) => Ok(user),
        Err(e) => Err(CreateUserError { source: e }),
    }
}

/// The user that the use case saves: a fresh identity and the command's
/// name, which is not validated again.
pub fn new_user(cmd: CreateUserCommand) -> (r: User)
    ensures
        r@.1 == cmd@,
        is_random_uuid(r@.0),
{
    User::new(cmd.name)
}

/// Ends the use case once the save of `user` has returned `saved`. Nothing
/// is retried: a failure is handed on with the creation context.
pub fn finish_create_user<E>(user: User, saved: Result<(), E>) -> (r: Result<
    User,
    CreateUserError<E>,
>)
    ensures
        r == create_user_outcome(user, saved),
{
    match saved {
        Ok(()) => Ok(user),
        Err(e) => Err(CreateUserError { source: e }),
    }
}

/// When the save succeeds the use case returns the user it built, whose
/// name is the command's name.
pub proof fn lemma_saved_user_returned<E>(cmd: CreateUserCommand, user: User)
    requires
        user@.1 == cmd@,
    ensures
        create_user_outcome(user, Ok::<(), E>(())) == Ok::<User, CreateUserError<E>>(user),
        create_user_outcome(user, Ok::<(), E>(()))->Ok_0@.1 == cmd@,
{
}

/// When the save fails the use case returns an error that holds the save's
/// error and no user.
pub proof fn lemma_failed_save_reported<E>(user: User, e: E)
    ensures
        create_user_outcome(user, Err::<(), E>(e)) == Err::<User, CreateUserError<E>>(
            (CreateUserError { source: e }),
        ),
{
}

} // verus!
