//! Subscribing a user: what a subscription request is answered with.
use vstd::prelude::*;

use crate::error::{AppError, JsonRejection};

verus! {

broadcast use vstd::string::group_string_axioms;

/// A user who subscribes, with an email address and a name.
#[derive(Debug)]
pub struct SubscribeUser {
    email: String,
    name: String,
}

impl View for SubscribeUser {
    type V = (Seq<char>, Seq<char>);

    /// The email address and the name.
    closed spec fn view(&self) -> (Seq<char>, Seq<char>) {
        (self.email@, self.name@)
    }
}

impl SubscribeUser {
    /// The user with this email address and this name.
    pub fn new(email: String, name: String) -> (user: SubscribeUser)
        ensures
            user@ == (email@, name@),
    {
        SubscribeUser { email, name }
    }

    /// The user's email address.
    pub fn email(&self) -> (email: &str)
        ensures
            email@ == self@.0,
    {
        self.email.as_str()
    }

    /// The user's name.
    pub fn name(&self) -> (name: &str)
        ensures
            name@ == self@.1,
    {
        self.name.as_str()
    }
}

/// What the database made of the statement that stores a subscription.
#[derive(Debug)]
pub enum InsertOutcome {
    /// The subscription was stored.
    Inserted,
    /// The database refused the statement, for a reason that it reports; where the
    /// reason is a constraint of the table, its name.
    DatabaseError { constraint: Option<String> },
    /// The statement failed for a reason other than the database's refusal.
    OtherError,
}

/// The unique constraint on the email addresses of the subscriptions.
pub open spec fn email_constraint() -> Seq<char> {
    "subscriptions_email_key"@
}

/// Whether the database refused a subscription because its email address is stored
/// already.
pub open spec fn is_duplicate_email(outcome: InsertOutcome) -> bool {
    outcome matches InsertOutcome::DatabaseError { constraint: Some(name) } && name@
        == email_constraint()
}

/// What a subscription request is answered with, once the database has been asked to
/// store it: the user again, where it was stored or its email address was stored
/// already, and an error otherwise.
pub open spec fn subscription_response(user: SubscribeUser, outcome: InsertOutcome) -> Result<
    SubscribeUser,
    AppError,
> {
    match outcome {
        InsertOutcome::Inserted => Ok(user),
        _ => if is_duplicate_email(outcome) {
            Ok(user)
        } else {
            Err(AppError::Database)
        },
    }
}

/// Takes the body of a subscription request: the user, or, where the JSON body was
/// refused, the error that answers it.
pub fn accept_subscription(payload: Result<SubscribeUser, JsonRejection>) -> (accepted: Result<
    SubscribeUser,
    AppError,
>)
    ensures
        accepted == match payload {
            Ok(user) => Ok::<SubscribeUser, AppError>(user),
            Err(rejection) => Err(AppError::JsonParsing(rejection)),
        },
{
    match payload {
        Ok(user) => Ok(user),
        Err(rejection) => Err(AppError::from(rejection)),
    }
}

/// Answers a subscription request once the database has been asked to store `user`:
/// a subscription whose email address is stored already succeeds as a new one does.
pub fn subscribe(user: SubscribeUser, outcome: InsertOutcome) -> (response: Result<
    SubscribeUser,
    AppError,
>)
    ensures
        response == subscription_response(user, outcome),
{
    match outcome {
        InsertOutcome::Inserted => Ok(user),
        InsertOutcome::DatabaseError { constraint: Some(name) } => {
            let key = "subscriptions_email_key".to_string();
            if name.eq(&key) {
                Ok(user)
            } else {
                Err(AppError::Database)
            }
        },
        _ => Err(AppError::Database),
    }
}

/// Subscribing with an email address that is stored already is answered as the first
/// subscription with it was: the service does not tell the two apart.
pub proof fn law_subscribing_again_succeeds(user: SubscribeUser, constraint: String)
    requires
        constraint@ == email_constraint(),
    ensures
        subscription_response(
            user,
            InsertOutcome::DatabaseError { constraint: Some(constraint) },
        ) == subscription_response(user, InsertOutcome::Inserted),
        subscription_response(user, InsertOutcome::Inserted) == Ok::<SubscribeUser, AppError>(
            user,
        ),
{
}

/// A subscription that the database refuses for another reason, or that fails
/// otherwise, is answered with an error.
pub proof fn law_other_failures_are_errors(user: SubscribeUser, outcome: InsertOutcome)
    requires
        !(outcome is Inserted),
        !is_duplicate_email(outcome),
    ensures
        subscription_response(user, outcome) == Err::<SubscribeUser, AppError>(AppError::Database),
{
}

} // verus!
