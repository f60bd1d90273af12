//! Errors of request handling, and the response status each one becomes.
use vstd::prelude::*;
use crate::auth::AuthenticationError;
use crate::text::push_char;

verus! {

/// The challenge sent with every authentication failure.
pub const BASIC_CHALLENGE: &'static str = "Basic realm=\"publish\"";

/// Why a request failed.
#[derive(Debug)]
pub enum ApplicationError {
    /// The caller is not authenticated; answered with 401 and a Basic challenge.
    AuthError(AuthenticationError),
    /// A fault of the server; answered with a bare 500.
    UnexpectedError(String),
    /// The resource does not exist; answered with 404.
    NotFoundError(String),
}

/// An authentication failure answers as such, except a fault below the
/// authentication logic (store, stored hash), which is a server fault.
pub open spec fn application_error_of(e: AuthenticationError) -> ApplicationError {
    match e {
        AuthenticationError::UnexpectedError(m) => ApplicationError::UnexpectedError(m),
        _ => ApplicationError::AuthError(e),
    }
}

impl From<AuthenticationError> for ApplicationError {
    fn from(e: AuthenticationError) -> (r: ApplicationError)
        ensures
            r == application_error_of(e),
    {
        match e {
            AuthenticationError::UnexpectedError(m) => ApplicationError::UnexpectedError(m),
            other => ApplicationError::AuthError(other),
        }
    }
}

impl vstd::std_specs::convert::FromSpecImpl<AuthenticationError> for ApplicationError {
    open spec fn obeys_from_spec() -> bool {
        true
    }

    open spec fn from_spec(e: AuthenticationError) -> ApplicationError {
        application_error_of(e)
    }
}

impl ApplicationError {
    /// The HTTP status of the response to this error.
    pub fn status_code(&self) -> (r: u16)
        ensures
            r == match self {
                ApplicationError::AuthError(_) => 401u16,
                ApplicationError::UnexpectedError(_) => 500u16,
                ApplicationError::NotFoundError(_) => 404u16,
            },
    {
        match self {
            ApplicationError::AuthError(_) => 401,
            ApplicationError::UnexpectedError(_) => 500,
            ApplicationError::NotFoundError(_) => 404,
        }
    }

    /// The `WWW-Authenticate` value of the response to this error, if any:
    /// the Basic challenge for an authentication failure, none otherwise.
    pub fn www_authenticate(&self) -> (r: Option<&'static str>)
        ensures
            r == match self {
                ApplicationError::AuthError(_) => Some(BASIC_CHALLENGE),
                _ => None,
            },
    {
        match self {
            ApplicationError::AuthError(_) => Some(BASIC_CHALLENGE),
            _ => None,
        }
    }
}

/// The log text of the causes of an error: one `Caused by:` entry each.
pub open spec fn causes_text(causes: Seq<Seq<char>>) -> Seq<char>
    decreases causes.len(),
{
    if causes.len() == 0 {
        Seq::empty()
    } else {
        causes_text(causes.drop_last()) + "Caused by:\n\t"@ + causes.last() + seq!['\n']
    }
}

/// The log text of an error and its chain of causes: the error, a blank
/// line, then each cause in order.
pub open spec fn chain_text(message: Seq<char>, causes: Seq<Seq<char>>) -> Seq<char> {
    message + seq!['\n', '\n'] + causes_text(causes)
}

/// The log text of an error with message `message` whose causes, outermost
/// first, have the messages `causes`.
pub fn error_chain_fmt(message: &str, causes: &Vec<String>) -> (r: String)
    ensures
        r@ == chain_text(message@, causes@.map_values(|c: String| c@)),
{
    let ghost views = causes@.map_values(|c: String| c@);
    let mut out = String::new();
    out.append(message);
    push_char(&mut out, '\n');
    push_char(&mut out, '\n');
    let mut i: usize = 0;
    while i < causes.len()
        invariant
            i <= causes@.len(),
            views == causes@.map_values(|c: String| c@),
            out@ == message@ + seq!['\n', '\n'] + causes_text(views.subrange(0, i as int)),
        decreases causes@.len() - i,
    {
        out.append("Caused by:\n\t");
        out.append(causes[i].as_str());
        push_char(&mut out, '\n');
        i = i + 1;
        proof {
            let prev = views.subrange(0, i - 1);
            let cur = views.subrange(0, i as int);
            assert(cur.drop_last() =~= prev);
            assert(cur.last() == causes@[i - 1]@);
            assert(out@ =~= message@ + seq!['\n', '\n'] + causes_text(cur));
        }
    }
    assert(views.subrange(0, i as int) =~= views);
    out
}

} // verus!
