use session_auth::notice::Notice;

#[test]
fn every_notice_has_its_wording() {
    assert_eq!(Notice::FieldsEmpty.wording(), "Username or password fields empty");
    assert_eq!(Notice::UsernameLength.wording(), "Username too long or short.");
    assert_eq!(Notice::PasswordLength.wording(), "Password too long or short");
    assert_eq!(
        Notice::DuplicateAccount.wording(),
        "Account with same username already exists, try again."
    );
    assert_eq!(Notice::IncorrectCredentials.wording(), "Username or password incorrect");
    assert_eq!(Notice::InternalError.wording(), "Internal server error");
    assert_eq!(Notice::SignupSuccessful.wording(), "Signup succesful.");
    assert_eq!(Notice::LoginSuccess.wording(), "Login success");
}

#[test]
fn no_two_notices_share_a_wording() {
    let all = [
        Notice::FieldsEmpty,
        Notice::UsernameLength,
        Notice::PasswordLength,
        Notice::DuplicateAccount,
        Notice::IncorrectCredentials,
        Notice::InternalError,
        Notice::SignupSuccessful,
        Notice::LoginSuccess,
    ];
    for (i, a) in all.iter().enumerate() {
        for (j, b) in all.iter().enumerate() {
            assert_eq!(i == j, a.wording() == b.wording());
        }
    }
}
