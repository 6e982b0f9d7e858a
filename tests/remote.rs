use kwrap::crypto::pbkdf2;
use kwrap::remote::{
    advance, auth_password, data_key, decrypt_items, start, Action, Auth, LoginState,
    RemoteError, Request, Response,
};
use ring::aead::{Aad, LessSafeKey, Nonce, UnboundKey, AES_256_GCM};

const ASALT: &str = "AAECAwQFBgcICQoLDA0ODw==";
const ESALT: &str = "ZGVmZ2hpamtsbW5vcHFyc3R1dnd4eXp7fH1+f4CBgoM=";
const AUTH: &str = "9VUOiRGfWTzTZixtfaW9P3qQ4lzS3CIfWKYWbHcnU9M=";
const KEY: [u8; 32] = [
    183, 42, 216, 161, 62, 53, 126, 45, 246, 149, 59, 36, 145, 222, 48, 223, 30, 29, 236, 209, 96,
    224, 197, 77, 165, 66, 78, 43, 127, 123, 50, 42,
];
const ALICE: &str = "2bd806c97f0e00af1a1fc3328fa763a9269723c8db8fac4f93af71db186d6e90";

fn sealed_item(key: &[u8; 32], nonce: u8, plaintext: &[u8]) -> String {
    let k = LessSafeKey::new(UnboundKey::new(&AES_256_GCM, key).unwrap());
    let mut body = plaintext.to_vec();
    k.seal_in_place_append_tag(Nonce::assume_unique_for_key([nonce; 12]), Aad::empty(), &mut body)
        .unwrap();
    let mut out = vec![nonce; 12];
    out.extend_from_slice(&body);
    base64::encode(out)
}

fn submitted() -> LoginState {
    LoginState::LoginSubmitted {
        auth: Auth { user: ALICE.to_string(), password: AUTH.to_string() },
        iterations: 1000,
    }
}

#[test]
fn remote_scenario_values() {
    assert_eq!(auth_password("hunter2", ASALT, 1000).unwrap(), AUTH);
    assert_eq!(data_key("hunter2", ESALT, 1000).unwrap(), KEY);
    assert_eq!(pbkdf2(b"hunter2", &(0..16u8).collect::<Vec<u8>>(), 1000).len(), 32);
}

#[test]
fn remote_zero_iterations_refused() {
    assert!(matches!(auth_password("hunter2", ASALT, 0), Err(RemoteError::InvalidIterations)));
    assert!(matches!(data_key("hunter2", ESALT, 0), Err(RemoteError::InvalidIterations)));
    let (state, _) = start("alice");
    let (next, action) = advance(
        state,
        "hunter2",
        Response::Prelogin { asalt: ASALT.to_string(), iterations: 0 },
    );
    assert!(matches!(next, LoginState::Failed));
    assert!(matches!(action, Action::Fail(RemoteError::InvalidIterations)));
}

#[test]
fn remote_bad_salt_encoding() {
    assert!(matches!(auth_password("hunter2", "%%%", 10), Err(RemoteError::BadEncoding)));
    assert!(matches!(data_key("hunter2", "%%%", 10), Err(RemoteError::BadEncoding)));
}

#[test]
fn remote_login_walkthrough() {
    let (state, request) = start("alice");
    assert_eq!(request.path(), format!("/user/prelogin/{}", ALICE));
    match &state {
        LoginState::PreloginRequested { hashed_user } => assert_eq!(hashed_user, ALICE),
        other => panic!("unexpected state {:?}", other),
    }

    let (state, action) = advance(
        state,
        "hunter2",
        Response::Prelogin { asalt: ASALT.to_string(), iterations: 1000 },
    );
    match &action {
        Action::Send(r @ Request::ESalt { auth }) => {
            assert_eq!(r.path(), "/user/esalt");
            assert_eq!(auth.user, ALICE);
            assert_eq!(auth.password, AUTH);
        }
        other => panic!("unexpected action {:?}", other),
    }
    assert!(matches!(state, LoginState::LoginSubmitted { iterations: 1000, .. }));

    let (state, action) = advance(state, "hunter2", Response::ESalt { esalt: ESALT.to_string() });
    match &action {
        Action::Send(r @ Request::Passwords { auth }) => {
            assert_eq!(r.path(), "/passwords");
            assert_eq!(auth.password, AUTH);
        }
        other => panic!("unexpected action {:?}", other),
    }
    match &state {
        LoginState::DataRequested { key, .. } => assert_eq!(*key, KEY),
        other => panic!("unexpected state {:?}", other),
    }

    let items = vec![sealed_item(&KEY, 1, b"{\"name\":\"a\"}"), sealed_item(&KEY, 2, b"{}")];
    let (state, action) = advance(state, "hunter2", Response::Passwords { items });
    assert!(matches!(state, LoginState::Done));
    match action {
        Action::Finish(v) => {
            assert_eq!(v, vec![b"{\"name\":\"a\"}".to_vec(), b"{}".to_vec()]);
        }
        other => panic!("unexpected action {:?}", other),
    }
}

#[test]
fn remote_rejected_credential() {
    let (next, action) = advance(
        submitted(),
        "hunter2",
        Response::Status { status: 401, body: "denied".to_string() },
    );
    assert!(matches!(next, LoginState::Failed));
    match action {
        Action::Fail(RemoteError::Authentication { status, body }) => {
            assert_eq!(status, 401);
            assert_eq!(body, "denied");
        }
        other => panic!("unexpected action {:?}", other),
    }
}

#[test]
fn remote_server_error_is_transport() {
    let (state, _) = start("alice");
    let (_, action) = advance(
        state,
        "hunter2",
        Response::Status { status: 500, body: "oops".to_string() },
    );
    assert!(matches!(action, Action::Fail(RemoteError::Transport { status: 500, .. })));
    let (_, action) = advance(
        submitted(),
        "hunter2",
        Response::Status { status: 502, body: String::new() },
    );
    assert!(matches!(action, Action::Fail(RemoteError::Transport { status: 502, .. })));
}

#[test]
fn remote_unreachable_and_unexpected() {
    let (state, _) = start("alice");
    let (_, action) = advance(
        state,
        "hunter2",
        Response::Unreachable { message: "timed out".to_string() },
    );
    match action {
        Action::Fail(RemoteError::Unreachable { message }) => assert_eq!(message, "timed out"),
        other => panic!("unexpected action {:?}", other),
    }
    let (_, action) = advance(submitted(), "hunter2", Response::Passwords { items: vec![] });
    assert!(matches!(action, Action::Fail(RemoteError::UnexpectedResponse)));
    let (next, action) = advance(LoginState::Idle, "hunter2", Response::ESalt { esalt: ESALT.to_string() });
    assert!(matches!(next, LoginState::Failed));
    assert!(matches!(action, Action::Fail(RemoteError::UnexpectedResponse)));
}

#[test]
fn remote_items_all_or_nothing() {
    let good = sealed_item(&KEY, 3, b"{}");
    let mut bad = base64::decode(&good).unwrap();
    bad[20] ^= 0x01;
    let bad = base64::encode(bad);
    let r = decrypt_items(&KEY, &vec![good.clone(), bad]);
    assert!(matches!(r, Err(RemoteError::Decryption)));
    let r = decrypt_items(&KEY, &vec![good.clone(), "***".to_string()]);
    assert!(matches!(r, Err(RemoteError::BadEncoding)));
    assert_eq!(decrypt_items(&KEY, &vec![]).unwrap(), Vec::<Vec<u8>>::new());
    let mut wrong = KEY;
    wrong[0] ^= 1;
    assert!(matches!(decrypt_items(&wrong, &vec![good]), Err(RemoteError::Decryption)));
}
