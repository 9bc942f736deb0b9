//! The messages that the service hands to clients.

use vstd::prelude::*;

verus! {

/// Every message that a signup or login response can carry.
#[derive(Debug, Clone, Copy, PartialEq, Eq, Structural)]
pub enum Notice {
    FieldsEmpty,
    UsernameLength,
    PasswordLength,
    DuplicateAccount,
    IncorrectCredentials,
    InternalError,
    SignupSuccessful,
    LoginSuccess,
}

impl Notice {
    /// The wording of the message.
    pub open spec fn text(self) -> Seq<char> {
        match self {
            Notice::FieldsEmpty => "Username or password fields empty"@,
            Notice::UsernameLength => "Username too long or short."@,
            Notice::PasswordLength => "Password too long or short"@,
            Notice::DuplicateAccount => "Account with same username already exists, try again."@,
            Notice::IncorrectCredentials => "Username or password incorrect"@,
            Notice::InternalError => "Internal server error"@,
            Notice::SignupSuccessful => "Signup succesful."@,
            Notice::LoginSuccess => "Login success"@,
        }
    }

    /// The wording of the message, as an owned string.
    pub fn wording(self) -> (text: String)
        ensures
            text@ == self.text(),
    {
        match self {
            Notice::FieldsEmpty => String::from_str("Username or password fields empty"),
            Notice::UsernameLength => String::from_str("Username too long or short."),
            Notice::PasswordLength => String::from_str("Password too long or short"),
            Notice::DuplicateAccount => String::from_str(
                "Account with same username already exists, try again.",
            ),
            Notice::IncorrectCredentials => String::from_str("Username or password incorrect"),
            Notice::InternalError => String::from_str("Internal server error"),
            Notice::SignupSuccessful => String::from_str("Signup succesful."),
            Notice::LoginSuccess => String::from_str("Login success"),
        }
    }
}

/// No two notices share a wording: the message tells the client which one
/// it got.
pub proof fn notices_differ(a: Notice, b: Notice)
    requires
        a != b,
    ensures
        a.text() != b.text(),
{
    reveal_strlit("Username or password fields empty");
    reveal_strlit("Username too long or short.");
    reveal_strlit("Password too long or short");
    reveal_strlit("Account with same username already exists, try again.");
    reveal_strlit("Username or password incorrect");
    reveal_strlit("Internal server error");
    reveal_strlit("Signup succesful.");
    reveal_strlit("Login success");
    assert(Notice::FieldsEmpty.text().len() == 33);
    assert(Notice::UsernameLength.text().len() == 27);
    assert(Notice::PasswordLength.text().len() == 26);
    assert(Notice::DuplicateAccount.text().len() == 53);
    assert(Notice::IncorrectCredentials.text().len() == 30);
    assert(Notice::InternalError.text().len() == 21);
    assert(Notice::SignupSuccessful.text().len() == 17);
    assert(Notice::LoginSuccess.text().len() == 13);
}

} // verus!
