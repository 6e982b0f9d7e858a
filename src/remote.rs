use crate::codec::{base64_decode_of, base64_encode, base64_encode_of, decode_base64};
use crate::crypto::{open_spec, pbkdf2, pbkdf2_of, sha256, hashed_identifier, wipe_key, Aes256Gcm};
use vstd::prelude::*;
use vstd::string::{StringExecFns, StringSliceAdditionalSpecFns};
use vstd::utf8::encode_utf8;

verus! {

/// Why a remote login or fetch failed.
#[derive(Debug)]
pub enum RemoteError {
    /// The server could not be reached.
    Unreachable { message: String },
    /// The server answered with a status other than 200.
    Transport { status: u16, body: String },
    /// The server rejected the bearer credential.
    Authentication { status: u16, body: String },
    /// The server announced zero key-derivation iterations.
    InvalidIterations,
    /// A salt or an item was not valid base64.
    BadEncoding,
    /// An item did not decrypt under the derived key.
    Decryption,
    /// The answer does not belong to the step the login is at.
    UnexpectedResponse,
}

/// The bearer credential: the hashed user name and the derived password hash.
#[derive(Debug)]
pub struct Auth {
    pub user: String,
    pub password: String,
}

impl Auth {
    pub fn duplicate(&self) -> (r: Auth)
        ensures
            r.user@ == self.user@,
            r.password@ == self.password@,
    {
        Auth { user: self.user.clone(), password: self.password.clone() }
    }
}

/// A request for the caller to send to the server.
#[derive(Debug)]
pub enum Request {
    /// `GET /user/prelogin/{hashed_user}`.
    Prelogin { hashed_user: String },
    /// `GET /user/esalt`, authenticated with the bearer credential.
    ESalt { auth: Auth },
    /// `GET /passwords`, authenticated with the bearer credential.
    Passwords { auth: Auth },
}

/// A server's answer, as the caller received it.
#[derive(Debug)]
pub enum Response {
    Prelogin { asalt: String, iterations: u32 },
    ESalt { esalt: String },
    Passwords { items: Vec<String> },
    /// A status other than 200, with the body.
    Status { status: u16, body: String },
    /// The request did not reach the server.
    Unreachable { message: String },
}

/// The steps of a login, strictly in order.
#[derive(Debug)]
pub enum LoginState {
    Idle,
    PreloginRequested { hashed_user: String },
    LoginSubmitted { auth: Auth, iterations: u32 },
    DataRequested { auth: Auth, key: [u8; 32] },
    Done,
    Failed,
}

/// What the caller does next.
#[derive(Debug)]
pub enum Action {
    Send(Request),
    /// The login is over: the plaintext of each fetched item, in order.
    Finish(Vec<Vec<u8>>),
    Fail(RemoteError),
}

/// The path, below the server's address, that a request goes to.
pub open spec fn request_path(r: Request) -> Seq<char> {
    match r {
        Request::Prelogin { hashed_user } => "/user/prelogin/"@ + hashed_user@,
        Request::ESalt { .. } => "/user/esalt"@,
        Request::Passwords { .. } => "/passwords"@,
    }
}

impl Request {
    pub fn path(&self) -> (r: String)
        ensures
            r@ == request_path(*self),
    {
        match self {
            Request::Prelogin { hashed_user } => "/user/prelogin/".to_owned().concat(
                hashed_user.as_str(),
            ),
            Request::ESalt { .. } => "/user/esalt".to_owned(),
            Request::Passwords { .. } => "/passwords".to_owned(),
        }
    }
}

/// The bearer password: base64 of the key derived from the password and the
/// authentication salt.
pub open spec fn auth_password_spec(password: Seq<u8>, asalt: Seq<u8>, iterations: u32) -> Option<
    Seq<char>,
> {
    match base64_decode_of(asalt) {
        Some(salt) => Some(base64_encode_of(pbkdf2_of(password, salt, iterations))),
        None => None,
    }
}

/// The data key: derived from the password and the encryption salt.
pub open spec fn data_key_spec(password: Seq<u8>, esalt: Seq<u8>, iterations: u32) -> Option<
    Seq<u8>,
> {
    match base64_decode_of(esalt) {
        Some(salt) => Some(pbkdf2_of(password, salt, iterations)),
        None => None,
    }
}

/// Computes the bearer password from the base64 authentication salt.
pub fn auth_password(password: &str, asalt: &str, iterations: u32) -> (r: Result<String, RemoteError>)
    ensures
        iterations == 0 ==> r matches Err(RemoteError::InvalidIterations),
        iterations != 0 ==> match auth_password_spec(password.spec_bytes(), asalt.spec_bytes(), iterations) {
            Some(p) => r matches Ok(s) && s@ == p,
            None => r matches Err(RemoteError::BadEncoding),
        },
{
    if iterations == 0 {
        return Err(RemoteError::InvalidIterations);
    }
    match decode_base64(asalt) {
        Some(salt) => {
            let mut key = pbkdf2(password.as_bytes(), salt.as_slice(), iterations);
            let encoded = base64_encode(&key);
            wipe_key(&mut key);
            Ok(encoded)
        },
        None => Err(RemoteError::BadEncoding),
    }
}

/// Derives the data key from the base64 encryption salt.
pub fn data_key(password: &str, esalt: &str, iterations: u32) -> (r: Result<[u8; 32], RemoteError>)
    ensures
        iterations == 0 ==> r matches Err(RemoteError::InvalidIterations),
        iterations != 0 ==> match data_key_spec(password.spec_bytes(), esalt.spec_bytes(), iterations) {
            Some(k) => r matches Ok(v) && v@ == k,
            None => r matches Err(RemoteError::BadEncoding),
        },
{
    if iterations == 0 {
        return Err(RemoteError::InvalidIterations);
    }
    match decode_base64(esalt) {
        Some(salt) => Ok(pbkdf2(password.as_bytes(), salt.as_slice(), iterations)),
        None => Err(RemoteError::BadEncoding),
    }
}

/// What one fetched item (base64 of nonce, ciphertext and tag) opens to.
pub open spec fn open_item(key: Seq<u8>, item: Seq<char>) -> Option<Seq<u8>> {
    match base64_decode_of(encode_utf8(item)) {
        Some(sealed) => open_spec(key, sealed),
        None => None,
    }
}

/// Whether an item fails for want of valid base64 rather than of a valid tag.
pub open spec fn item_badly_encoded(item: Seq<char>) -> bool {
    base64_decode_of(encode_utf8(item)) is None
}

/// Decrypts every fetched item with one key. Any failure fails the whole batch.
pub fn decrypt_items(key: &[u8; 32], items: &Vec<String>) -> (r: Result<Vec<Vec<u8>>, RemoteError>)
    ensures
        r is Ok <==> forall|i: int| 0 <= i < items@.len() ==> open_item(key@, #[trigger] items@[i]@) is Some,
        r matches Ok(v) ==> v@.len() == items@.len() && forall|i: int|
            0 <= i < items@.len() ==> open_item(key@, #[trigger] items@[i]@) == Some(v@[i]@),
        r matches Err(e) ==> e is BadEncoding || e is Decryption,
        r is Err ==> exists|k: int|
            0 <= k < items@.len() && open_item(key@, #[trigger] items@[k]@) is None && (forall|j: int|
                0 <= j < k ==> open_item(key@, #[trigger] items@[j]@) is Some) && (if item_badly_encoded(items@[k]@) {
                r matches Err(RemoteError::BadEncoding)
            } else {
                r matches Err(RemoteError::Decryption)
            }),
{
    let mut cipher = Aes256Gcm::new(*key);
    let mut out: Vec<Vec<u8>> = Vec::new();
    let mut i: usize = 0;
    while i < items.len()
        invariant
            cipher.key@ == key@,
            0 <= i <= items@.len(),
            out@.len() == i,
            forall|j: int| 0 <= j < i ==> open_item(key@, #[trigger] items@[j]@) == Some(out@[j]@),
        decreases items@.len() - i,
    {
        let mut data = match decode_base64(items[i].as_str()) {
            Some(d) => d,
            None => {
                wipe_key(&mut cipher.key);
                return Err(RemoteError::BadEncoding);
            },
        };
        match cipher.decrypt(&mut data) {
            Ok(()) => out.push(data),
            Err(_) => {
                wipe_key(&mut cipher.key);
                return Err(RemoteError::Decryption);
            },
        }
        i = i + 1;
    }
    wipe_key(&mut cipher.key);
    Ok(out)
}

/// Whether a status says that the server refused the credential.
pub open spec fn is_rejection(status: u16) -> bool {
    status == 401 || status == 403
}

/// The error for an answer other than the expected one, at a step that awaits one.
pub open spec fn failure_matches(state: LoginState, response: Response, e: RemoteError) -> bool {
    match response {
        Response::Unreachable { message } => e matches RemoteError::Unreachable { message: m } && m@
            == message@,
        Response::Status { status, body } => if state is LoginSubmitted && is_rejection(status) {
            e matches RemoteError::Authentication { status: s, body: b } && s == status && b@
                == body@
        } else {
            e matches RemoteError::Transport { status: s, body: b } && s == status && b@ == body@
        },
        _ => e is UnexpectedResponse,
    }
}

/// The step that a login takes from `state` on `response`, for a password.
pub open spec fn advance_spec(
    state: LoginState,
    password: Seq<u8>,
    response: Response,
    next: LoginState,
    action: Action,
) -> bool {
    match (state, response) {
        (
            LoginState::PreloginRequested { hashed_user },
            Response::Prelogin { asalt, iterations },
        ) => if iterations == 0 {
            next is Failed && action matches Action::Fail(RemoteError::InvalidIterations)
        } else {
            match auth_password_spec(password, encode_utf8(asalt@), iterations) {
                None => next is Failed && action matches Action::Fail(RemoteError::BadEncoding),
                Some(p) => (next matches LoginState::LoginSubmitted { auth, iterations: n }
                    && auth.user@ == hashed_user@ && auth.password@ == p && n == iterations)
                    && (action matches Action::Send(Request::ESalt { auth: a }) && a.user@
                    == hashed_user@ && a.password@ == p),
            }
        },
        (LoginState::LoginSubmitted { auth, iterations }, Response::ESalt { esalt }) => if iterations
            == 0 {
            next is Failed && action matches Action::Fail(RemoteError::InvalidIterations)
        } else {
            match data_key_spec(password, encode_utf8(esalt@), iterations) {
            None => next is Failed && action matches Action::Fail(RemoteError::BadEncoding),
            Some(k) => (next matches LoginState::DataRequested { auth: na, key } && na.user@
                == auth.user@ && na.password@ == auth.password@ && key@ == k)
                && (action matches Action::Send(Request::Passwords { auth: a }) && a.user@
                == auth.user@ && a.password@ == auth.password@),
            }
        },
        (LoginState::DataRequested { auth, key }, Response::Passwords { items }) => if forall|i: int|
            0 <= i < items@.len() ==> open_item(key@, #[trigger] items@[i]@) is Some {
            next is Done && (action matches Action::Finish(v) && v@.len() == items@.len()
                && forall|i: int|
                0 <= i < items@.len() ==> open_item(key@, #[trigger] items@[i]@) == Some(
                    v@[i]@,
                ))
        } else {
            next is Failed && (action matches Action::Fail(RemoteError::BadEncoding)
                || action matches Action::Fail(RemoteError::Decryption))
        },
        (LoginState::PreloginRequested { .. }, _)
        | (LoginState::LoginSubmitted { .. }, _)
        | (LoginState::DataRequested { .. }, _) => next is Failed && (action matches Action::Fail(e)
            && failure_matches(state, response, e)),
        _ => next is Failed && action matches Action::Fail(RemoteError::UnexpectedResponse),
    }
}

/// Begins a login: the first request carries only the hashed user name.
pub fn start(username: &str) -> (r: (LoginState, Request))
    ensures
        r.0 matches LoginState::PreloginRequested { hashed_user } && hashed_user@
            == hashed_identifier(username.spec_bytes()),
        r.1 matches Request::Prelogin { hashed_user } && hashed_user@ == hashed_identifier(
            username.spec_bytes(),
        ),
{
    let hashed_user = sha256(username);
    let sent = hashed_user.clone();
    (LoginState::PreloginRequested { hashed_user }, Request::Prelogin { hashed_user: sent })
}

/// Takes one step of a login on the server's answer to the last request.
pub fn advance(state: LoginState, password: &str, response: Response) -> (r: (LoginState, Action))
    ensures
        advance_spec(state, password.spec_bytes(), response, r.0, r.1),
{
    match state {
        LoginState::PreloginRequested { hashed_user } => match response {
            Response::Prelogin { asalt, iterations } => {
                match auth_password(password, asalt.as_str(), iterations) {
                    Ok(p) => {
                        let auth = Auth { user: hashed_user, password: p };
                        let sent = auth.duplicate();
                        (
                            LoginState::LoginSubmitted { auth, iterations },
                            Action::Send(Request::ESalt { auth: sent }),
                        )
                    },
                    Err(e) => (LoginState::Failed, Action::Fail(e)),
                }
            },
            other => (LoginState::Failed, Action::Fail(unexpected_answer(false, other))),
        },
        LoginState::LoginSubmitted { auth, iterations } => match response {
            Response::ESalt { esalt } => match data_key(password, esalt.as_str(), iterations) {
                Ok(key) => {
                    let sent = auth.duplicate();
                    (
                        LoginState::DataRequested { auth, key },
                        Action::Send(Request::Passwords { auth: sent }),
                    )
                },
                Err(e) => (LoginState::Failed, Action::Fail(e)),
            },
            other => (LoginState::Failed, Action::Fail(unexpected_answer(true, other))),
        },
        LoginState::DataRequested { auth, key } => match response {
            Response::Passwords { items } => {
                let mut key = key;
                let opened = decrypt_items(&key, &items);
                wipe_key(&mut key);
                match opened {
                    Ok(v) => (LoginState::Done, Action::Finish(v)),
                    Err(e) => (LoginState::Failed, Action::Fail(e)),
                }
            },
            other => (LoginState::Failed, Action::Fail(unexpected_answer(false, other))),
        },
        _ => (LoginState::Failed, Action::Fail(RemoteError::UnexpectedResponse)),
    }
}

/// The error for an answer that is not the one a waiting step expects.
fn unexpected_answer(awaiting_salt: bool, response: Response) -> (e: RemoteError)
    ensures
        match response {
            Response::Unreachable { message } => e matches RemoteError::Unreachable { message: m }
                && m@ == message@,
            Response::Status { status, body } => if awaiting_salt && is_rejection(status) {
                e matches RemoteError::Authentication { status: s, body: b } && s == status && b@
                    == body@
            } else {
                e matches RemoteError::Transport { status: s, body: b } && s == status && b@
                    == body@
            },
            _ => e is UnexpectedResponse,
        },
{
    match response {
        Response::Unreachable { message } => RemoteError::Unreachable { message },
        Response::Status { status, body } => if awaiting_salt && (status == 401 || status == 403) {
            RemoteError::Authentication { status, body }
        } else {
            RemoteError::Transport { status, body }
        },
        _ => RemoteError::UnexpectedResponse,
    }
}

/// Over the two derivation steps of a login, the bearer credential pairs the
/// hashed user name with base64 of PBKDF2 over the password and the decoded
/// authentication salt, and the data key is PBKDF2 over the same password and
/// iteration count with the decoded encryption salt instead.
pub proof fn login_derivations(
    username: Seq<u8>,
    hashed_user: String,
    password: Seq<u8>,
    asalt: String,
    iterations: u32,
    esalt: String,
    first: LoginState,
    sent: Action,
    second: LoginState,
    fetch: Action,
)
    requires
        hashed_user@ == hashed_identifier(username),
        iterations != 0,
        base64_decode_of(encode_utf8(asalt@)) is Some,
        base64_decode_of(encode_utf8(esalt@)) is Some,
        advance_spec(
            LoginState::PreloginRequested { hashed_user },
            password,
            Response::Prelogin { asalt, iterations },
            first,
            sent,
        ),
        advance_spec(first, password, Response::ESalt { esalt }, second, fetch),
    ensures
        sent matches Action::Send(Request::ESalt { auth }) && auth.user@ == hashed_identifier(
            username,
        ) && auth.password@ == base64_encode_of(
            pbkdf2_of(password, base64_decode_of(encode_utf8(asalt@))->0, iterations),
        ),
        second matches LoginState::DataRequested { auth, key } && auth.user@ == hashed_identifier(
            username,
        ) && key@ == pbkdf2_of(password, base64_decode_of(encode_utf8(esalt@))->0, iterations),
        fetch matches Action::Send(Request::Passwords { auth }) && auth.user@ == hashed_identifier(
            username,
        ),
{
}

} // verus!
