//! Account sub-flow: the operations a user can ask for and the input
//! validation that runs before any mutation is dispatched.

use vstd::prelude::*;

verus! {

/// The account operations offered on the account-management step.
#[derive(Clone, Copy, Debug, PartialEq, Eq, Structural)]
pub enum UserOperation {
    Add,
    List,
    Delete,
    ChangePassword,
}

impl UserOperation {
    /// Every operation, in the order the operation picker shows them.
    pub fn all() -> (ops: [UserOperation; 4])
        ensures
            ops@ == seq![
                UserOperation::Add,
                UserOperation::List,
                UserOperation::Delete,
                UserOperation::ChangePassword,
            ],
    {
        [
            UserOperation::Add,
            UserOperation::List,
            UserOperation::Delete,
            UserOperation::ChangePassword,
        ]
    }

    /// An operation that takes typed input and mutates the account store.
    pub open spec fn is_mutation(self) -> bool {
        self == UserOperation::Add || self == UserOperation::Delete
            || self == UserOperation::ChangePassword
    }

    /// The label the operation picker shows for this operation.
    pub open spec fn label_spec(self) -> Seq<char> {
        match self {
            UserOperation::Add => "add account"@,
            UserOperation::List => "list accounts"@,
            UserOperation::Delete => "delete account"@,
            UserOperation::ChangePassword => "change password"@,
        }
    }

    /// The label the operation picker shows for this operation.
    pub fn label(&self) -> (text: String)
        ensures
            text@ == self.label_spec(),
    {
        match self {
            UserOperation::Add => String::from_str("add account"),
            UserOperation::List => String::from_str("list accounts"),
            UserOperation::Delete => String::from_str("delete account"),
            UserOperation::ChangePassword => String::from_str("change password"),
        }
    }
}

/// Why a submitted account mutation was rejected before dispatch.
#[derive(Clone, Copy, Debug, PartialEq, Eq, Structural)]
pub enum ValidationError {
    EmptyUsername,
    EmptyUsernameOrPassword,
}

impl ValidationError {
    /// The text shown to the user for this rejection.
    pub open spec fn message_spec(self) -> Seq<char> {
        match self {
            ValidationError::EmptyUsername => "empty username"@,
            ValidationError::EmptyUsernameOrPassword => "empty username or password"@,
        }
    }

    /// The text shown to the user for this rejection.
    pub fn message(&self) -> (text: String)
        ensures
            text@ == self.message_spec(),
    {
        match self {
            ValidationError::EmptyUsername => String::from_str("empty username"),
            ValidationError::EmptyUsernameOrPassword => String::from_str(
                "empty username or password",
            ),
        }
    }
}

/// What `validate` returns: `Delete` needs a username, `Add` and
/// `ChangePassword` need both a username and a password, `List` is
/// read-only and never rejected.
pub open spec fn validate_spec(
    op: UserOperation,
    username: Seq<char>,
    password: Seq<char>,
) -> Result<(), ValidationError> {
    match op {
        UserOperation::Delete => if username.len() == 0 {
            Err(ValidationError::EmptyUsername)
        } else {
            Ok(())
        },
        UserOperation::Add | UserOperation::ChangePassword => if username.len() == 0
            || password.len() == 0 {
            Err(ValidationError::EmptyUsernameOrPassword)
        } else {
            Ok(())
        },
        UserOperation::List => Ok(()),
    }
}

/// Checks the typed input for an operation before it is dispatched.
pub fn validate(op: UserOperation, username: &str, password: &str) -> (r: Result<
    (),
    ValidationError,
>)
    ensures
        r == validate_spec(op, username@, password@),
{
    match op {
        UserOperation::Delete => {
            if username.is_empty() {
                Err(ValidationError::EmptyUsername)
            } else {
                Ok(())
            }
        },
        UserOperation::Add | UserOperation::ChangePassword => {
            if username.is_empty() || password.is_empty() {
                Err(ValidationError::EmptyUsernameOrPassword)
            } else {
                Ok(())
            }
        },
        UserOperation::List => Ok(()),
    }
}

/// The credentials captured for one account mutation at dispatch time.
/// The values are copied out of the live wizard state, so a task in
/// flight never reads state that the user keeps editing.
#[derive(Debug)]
pub struct UserAccount {
    pub username: String,
    pub password: String,
}

} // verus!
