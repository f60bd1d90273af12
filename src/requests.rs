//! Bodies and queries of the requests that the service accepts.
use vstd::prelude::*;
use crate::user::User;

verus! {

/// A registration form; the email is optional.
pub struct RegistrationRequest {
    pub username: String,
    pub password: String,
    pub email: Option<String>,
}

/// A request for a password-reset link.
pub struct ForgottenPasswordQuery {
    pub username: String,
}

impl ForgottenPasswordQuery {
    /// The reply to this request. It is made from the username alone, so it
    /// is the same whether or not an account has that name, and does not
    /// reveal which usernames are registered.
    pub fn reply(&self) -> (r: String)
        ensures
            r@ == "Successfully generated forgotten password request for user "@ + self.username@ + "."@,
    {
        let mut out = String::new();
        out.append("Successfully generated forgotten password request for user ");
        out.append(self.username.as_str());
        out.append(".");
        out
    }

    /// How to answer this request, given the account that has the username,
    /// if any: the reply, which does not depend on the account, and where to
    /// send a reset link (the account and its address), if anywhere.
    pub fn plan(&self, stored: Option<User>) -> (r: (String, Option<(u128, String)>))
        ensures
            r.0@ == "Successfully generated forgotten password request for user "@ + self.username@ + "."@,
            r.1 == match stored {
                Some(u) => match u.email {
                    Some(e) => Some((u.id, e)),
                    None => None,
                },
                None => None,
            },
    {
        let notify = match stored {
            Some(u) => match u.email {
                Some(e) => Some((u.id, e)),
                None => None,
            },
            None => None,
        };
        (self.reply(), notify)
    }
}

/// The new password of a reset.
pub struct ResetPasswordRequest {
    pub new_password: String,
}

/// One field of a form to create.
pub struct FieldCreationRequest {
    pub caption: String,
    /// The kind of answer the field takes (`type` on the wire).
    pub field_type: String,
}

/// A form to create, with its fields in order.
pub struct FormCreationRequest {
    pub title: String,
    pub fields: Vec<FieldCreationRequest>,
}

/// A scan of a QR code, by its identifier.
#[derive(Clone)]
pub struct ScanQrCodeRequest {
    pub id: String,
}

} // verus!
