//! Sessions. A session is opened for a number of seconds, and the
//! operations of play are let through only while it has not expired.

use crate::errors::SessionError;
use vstd::prelude::*;

verus! {

/// Microseconds in a second.
pub const MICROS_PER_SECOND: u64 = 1_000_000;

/// A time-boxed authorisation to play.
#[derive(Debug, Clone, Copy, PartialEq, Eq, Structural)]
pub struct GameSession {
    /// Identifier, one more than that of the session before.
    pub session_id: u64,
    /// When the session was opened, in microseconds.
    pub created_at_micros: u64,
    /// When the session stops being valid, in microseconds.
    pub expires_at_micros: u64,
    /// Operations of play carried out in this session.
    pub operations_count: u64,
}

/// The expiry time of a session opened at `now` for `expires_in_secs`
/// seconds.
pub open spec fn spec_expiry(now_micros: u64, expires_in_secs: u64) -> int {
    now_micros + expires_in_secs * MICROS_PER_SECOND
}

/// Whether an operation of play is let through: there must be a session, and `now` must lie
/// strictly before its expiry time.
pub open spec fn spec_validate(session: Option<GameSession>, now_micros: u64) -> Result<
    (),
    SessionError,
> {
    match session {
        None => Err(SessionError::NoActiveSession),
        Some(s) => if now_micros >= s.expires_at_micros {
            Err(SessionError::SessionExpired)
        } else {
            Ok(())
        },
    }
}

impl GameSession {
    /// The session that follows `counter` sessions, opened at `now_micros`
    /// for `expires_in_secs` seconds.
    pub open spec fn spec_start(
        counter: u64,
        now_micros: u64,
        expires_in_secs: u64,
    ) -> GameSession {
        GameSession {
            session_id: (counter + 1) as u64,
            created_at_micros: now_micros,
            expires_at_micros: spec_expiry(now_micros, expires_in_secs) as u64,
            operations_count: 0,
        }
    }

    /// Whether the session is valid at `now_micros`.
    pub open spec fn spec_is_valid_at(self, now_micros: u64) -> bool {
        now_micros < self.expires_at_micros
    }

    /// Opens the session that follows `counter` sessions. The identifier and
    /// the expiry time must fit in 64 bits.
    pub fn start(counter: u64, now_micros: u64, expires_in_secs: u64) -> (session: GameSession)
        requires
            counter < u64::MAX,
            spec_expiry(now_micros, expires_in_secs) <= u64::MAX,
        ensures
            session == GameSession::spec_start(counter, now_micros, expires_in_secs),
            session.session_id == counter + 1,
            session.expires_at_micros == now_micros + expires_in_secs * MICROS_PER_SECOND,
            expires_in_secs > 0 ==> session.expires_at_micros > session.created_at_micros,
            expires_in_secs > 0 ==> session.spec_is_valid_at(now_micros),
    {
        assert(expires_in_secs * MICROS_PER_SECOND <= u64::MAX) by (nonlinear_arith)
            requires
                now_micros + expires_in_secs * MICROS_PER_SECOND <= u64::MAX,
        ;
        assert(expires_in_secs > 0 ==> expires_in_secs * MICROS_PER_SECOND > 0)
            by (nonlinear_arith);
        GameSession {
            session_id: counter + 1,
            created_at_micros: now_micros,
            expires_at_micros: now_micros + expires_in_secs * MICROS_PER_SECOND,
            operations_count: 0,
        }
    }

    /// Whether the session is valid at `now_micros`: strictly before its
    /// expiry time.
    pub fn is_valid_at(&self, now_micros: u64) -> (valid: bool)
        ensures
            valid == self.spec_is_valid_at(now_micros),
    {
        now_micros < self.expires_at_micros
    }
}

/// Checks the session. Fails with `NoActiveSession` where there is no session, and with
/// `SessionExpired` from the expiry time on.
pub fn validate_session(session: &Option<GameSession>, now_micros: u64) -> (verdict: Result<
    (),
    SessionError,
>)
    ensures
        verdict == spec_validate(*session, now_micros),
{
    match session {
        None => Err(SessionError::NoActiveSession),
        Some(s) => {
            if s.is_valid_at(now_micros) {
                Ok(())
            } else {
                Err(SessionError::SessionExpired)
            }
        },
    }
}

/// The boundary of a session: at its expiry time it is refused as expired,
/// one microsecond earlier it is let through.
pub proof fn lemma_session_boundary(session: GameSession)
    requires
        session.expires_at_micros > 0,
    ensures
        spec_validate(Some(session), session.expires_at_micros) == Err::<(), SessionError>(
            SessionError::SessionExpired,
        ),
        spec_validate(Some(session), (session.expires_at_micros - 1) as u64) == Ok::<
            (),
            SessionError,
        >(()),
{
}

impl Default for GameSession {
    /// A session with every field zero. It is valid at no time.
    fn default() -> (session: GameSession)
        ensures
            session == (GameSession {
                session_id: 0,
                created_at_micros: 0,
                expires_at_micros: 0,
                operations_count: 0,
            }),
    {
        GameSession {
            session_id: 0,
            created_at_micros: 0,
            expires_at_micros: 0,
            operations_count: 0,
        }
    }
}

} // verus!
