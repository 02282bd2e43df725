use flashport::errors::SessionError;
use flashport::session::validate_session;
use flashport::GameSession;

#[test]
fn start_sets_id_and_expiry() {
    let session = GameSession::start(0, 1_000_000_000, 3600);
    assert_eq!(session.session_id, 1);
    assert_eq!(session.created_at_micros, 1_000_000_000);
    assert_eq!(session.expires_at_micros, 4_600_000_000);
    assert_eq!(session.operations_count, 0);
    let later = GameSession::start(41, 5, 1);
    assert_eq!(later.session_id, 42);
    assert_eq!(later.expires_at_micros, 1_000_005);
}

#[test]
fn start_with_no_time_to_live_is_expired_at_once() {
    let session = GameSession::start(0, 77, 0);
    assert_eq!(session.expires_at_micros, 77);
    assert_eq!(validate_session(&Some(session), 77), Err(SessionError::SessionExpired));
    assert!(!session.is_valid_at(77));
}

#[test]
fn session_boundary() {
    let session = GameSession::start(0, 1_000_000_000, 3600);
    let expires_at = session.expires_at_micros;
    assert_eq!(validate_session(&Some(session), expires_at), Err(SessionError::SessionExpired));
    assert_eq!(validate_session(&Some(session), expires_at - 1), Ok(()));
    assert_eq!(validate_session(&Some(session), expires_at + 1), Err(SessionError::SessionExpired));
    assert_eq!(validate_session(&Some(session), 0), Ok(()));
    assert_eq!(validate_session(&Some(session), u64::MAX), Err(SessionError::SessionExpired));
    assert!(session.is_valid_at(expires_at - 1));
    assert!(!session.is_valid_at(expires_at));
}

#[test]
fn no_session_is_refused() {
    assert_eq!(validate_session(&None, 0), Err(SessionError::NoActiveSession));
    assert_eq!(validate_session(&None, u64::MAX), Err(SessionError::NoActiveSession));
}

#[test]
fn default_session_is_never_valid() {
    let session = GameSession::default();
    assert_eq!(validate_session(&Some(session), 0), Err(SessionError::SessionExpired));
}
