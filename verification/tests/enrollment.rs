use std::sync::{Arc, Mutex};
use vault::crypto::handshake::StaticKeypair;
use vault::crypto::pairing::{now_unix_ms, unix_ms_of_reading};
use vault::orchestration::enrollment::{ConfirmStep, EnrollmentError, EnrollmentState, MAX_ATTEMPTS_BEFORE_LOCKOUT, TOKEN_TTL_MS};
use vault::orchestration::session::{enrollment_ack, session_authorized};
use vault::orchestration::traits::{PlatformError, PlatformResult, SecretStore};

/// In-memory secret store, so the enrollment logic is tested apart from
/// how a platform persists the pin.
struct InMemorySecretStore {
    pinned: Mutex<Option<Vec<u8>>>,
}

impl InMemorySecretStore {
    fn new() -> Arc<Self> {
        Arc::new(Self { pinned: Mutex::new(None) })
    }
}

impl SecretStore for InMemorySecretStore {
    fn load_or_generate_identity(&self) -> PlatformResult<StaticKeypair> {
        panic!("the enrollment tests do not use the identity")
    }

    fn load_pinned_frontend_key(&self) -> PlatformResult<Option<Vec<u8>>> {
        Ok(self.pinned.lock().unwrap().clone())
    }

    fn persist_pinned_frontend_key(&self, key: &[u8]) -> PlatformResult<()> {
        *self.pinned.lock().unwrap() = Some(key.to_vec());
        Ok(())
    }
}

/// A store whose disk is full.
struct FailingSecretStore;

impl SecretStore for FailingSecretStore {
    fn load_or_generate_identity(&self) -> PlatformResult<StaticKeypair> {
        panic!("the enrollment tests do not use the identity")
    }

    fn load_pinned_frontend_key(&self) -> PlatformResult<Option<Vec<u8>>> {
        Ok(None)
    }

    fn persist_pinned_frontend_key(&self, _key: &[u8]) -> PlatformResult<()> {
        Err(PlatformError::Other("disco lleno".to_string()))
    }
}

#[test]
fn rejects_confirmation_with_no_pending_enrollment() {
    let mut state = EnrollmentState::new(InMemorySecretStore::new());
    let result = state.try_complete_enrollment("cualquier-token", b"pubkey");
    assert!(result.is_err());
}

#[test]
fn rejects_wrong_token() {
    let mut state = EnrollmentState::new(InMemorySecretStore::new());
    state.set_pending("token-correcto".to_string(), now_unix_ms() + 60_000);

    let result = state.try_complete_enrollment("token-incorrecto", b"pubkey-del-telefono");
    assert!(result.is_err());
    assert_eq!(state.pinned_public_key().unwrap(), None, "no debe pinear nada si el token es incorrecto");
}

#[test]
fn rejects_expired_token() {
    let mut state = EnrollmentState::new(InMemorySecretStore::new());
    state.set_pending("token".to_string(), now_unix_ms().saturating_sub(1_000));

    let result = state.try_complete_enrollment("token", b"pubkey-del-telefono");
    assert!(result.is_err());
    assert_eq!(state.pinned_public_key().unwrap(), None);
}

#[test]
fn accepts_valid_token_and_pins_the_key() {
    let mut state = EnrollmentState::new(InMemorySecretStore::new());
    state.set_pending("token-bueno".to_string(), now_unix_ms() + 60_000);

    let pubkey = b"pubkey-del-telefono-real".to_vec();
    let result = state.try_complete_enrollment("token-bueno", &pubkey);
    assert!(result.is_ok());

    assert!(state.is_enrolled().unwrap());
    assert_eq!(state.pinned_public_key().unwrap(), Some(pubkey));
}

#[test]
fn token_cannot_be_reused_after_success() {
    let mut state = EnrollmentState::new(InMemorySecretStore::new());
    state.set_pending("token-unico".to_string(), now_unix_ms() + 60_000);

    assert!(state.try_complete_enrollment("token-unico", b"primer-dispositivo").is_ok());

    let second = state.try_complete_enrollment("token-unico", b"otro-dispositivo");
    assert!(second.is_err());
}

#[test]
fn backoff_blocks_immediate_retry_even_with_correct_token() {
    let mut state = EnrollmentState::new(InMemorySecretStore::new());
    state.set_pending("token-correcto".to_string(), now_unix_ms() + 600_000);

    assert!(state.try_complete_enrollment("token-incorrecto", b"pubkey").is_err());

    let retry = state.try_complete_enrollment("token-correcto", b"pubkey");
    assert!(retry.is_err());
    assert_eq!(state.pinned_public_key().unwrap(), None, "no debería haber pineado nada mientras está en backoff");
}

#[test]
fn locks_out_and_invalidates_pending_after_max_attempts() {
    let mut state = EnrollmentState::new(InMemorySecretStore::new());
    state.set_pending("token-correcto".to_string(), now_unix_ms() + 600_000);

    for _ in 0..MAX_ATTEMPTS_BEFORE_LOCKOUT {
        let result = state.try_complete_enrollment("token-incorrecto", b"pubkey");
        assert!(result.is_err());
        state.bypass_lockout_for_test();
    }

    let final_try = state.try_complete_enrollment("token-correcto", b"pubkey");
    assert!(final_try.is_err());
    assert_eq!(state.pinned_public_key().unwrap(), None);
}

#[test]
fn pending_info_reflects_current_pending_state() {
    let mut state = EnrollmentState::new(InMemorySecretStore::new());
    assert!(state.pending_info().is_none());

    let info = state.begin_enrollment();
    let reflected = state.pending_info().unwrap();
    assert_eq!(reflected.token, info.token);
    assert_eq!(reflected.expires_unix_ms, info.expires_unix_ms);
}

#[test]
fn begin_enrollment_issues_a_hex_token_valid_for_ten_minutes() {
    let mut state = EnrollmentState::new(InMemorySecretStore::new());
    let before = now_unix_ms();
    let info = state.begin_enrollment();
    let after = now_unix_ms();
    assert_eq!(info.token.len(), 32);
    assert!(info.token.chars().all(|c| c.is_ascii_hexdigit() && !c.is_ascii_uppercase()));
    assert!(info.expires_unix_ms >= before + TOKEN_TTL_MS && info.expires_unix_ms <= after + TOKEN_TTL_MS);
}

#[test]
fn backoff_doubles_and_reports_the_wait() {
    let mut state = EnrollmentState::new(InMemorySecretStore::new());
    let now = 1_000_000u64;
    state.set_pending("tok".to_string(), now + 600_000);

    match state.try_complete_enrollment_at("mal", b"k", now) {
        Err(EnrollmentError::InvalidToken) => {}
        other => panic!("expected InvalidToken, got {:?}", other),
    }
    // first failure: 1 s of backoff
    match state.try_complete_enrollment_at("tok", b"k", now + 500) {
        Err(EnrollmentError::RateLimited { wait_secs }) => assert_eq!(wait_secs, 0),
        other => panic!("expected RateLimited, got {:?}", other),
    }
    assert!(matches!(state.try_complete_enrollment_at("mal", b"k", now + 1_000), Err(EnrollmentError::InvalidToken)));
    // second failure: 2 s of backoff
    match state.try_complete_enrollment_at("tok", b"k", now + 1_000) {
        Err(EnrollmentError::RateLimited { wait_secs }) => assert_eq!(wait_secs, 2),
        other => panic!("expected RateLimited, got {:?}", other),
    }
    // once the backoff has passed the right token is accepted
    assert!(state.try_complete_enrollment_at("tok", b"k", now + 3_000).is_ok());
}

#[test]
fn lockout_lasts_fifteen_minutes() {
    let mut state = EnrollmentState::new(InMemorySecretStore::new());
    let now = 5_000_000u64;
    state.set_pending("tok".to_string(), now + 10_000_000);
    let mut t = now;
    for _ in 0..MAX_ATTEMPTS_BEFORE_LOCKOUT {
        assert!(matches!(state.try_complete_enrollment_at("mal", b"k", t), Err(EnrollmentError::InvalidToken)));
        t += 60_000;
    }
    let locked_at = t - 60_000;
    match state.try_complete_enrollment_at("tok", b"k", locked_at + 1_000) {
        Err(EnrollmentError::RateLimited { wait_secs }) => assert_eq!(wait_secs, 899),
        other => panic!("expected RateLimited, got {:?}", other),
    }
    assert!(matches!(
        state.try_complete_enrollment_at("tok", b"k", locked_at + 900_000),
        Err(EnrollmentError::NoPendingEnrollment)
    ));
}

#[test]
fn expired_token_is_dropped() {
    let mut state = EnrollmentState::new(InMemorySecretStore::new());
    state.set_pending("tok".to_string(), 1_000);
    assert!(matches!(state.try_complete_enrollment_at("tok", b"k", 1_001), Err(EnrollmentError::TokenExpired)));
    assert!(state.pending_info().is_none());
    assert!(matches!(state.try_complete_enrollment_at("tok", b"k", 500), Err(EnrollmentError::NoPendingEnrollment)));
}

#[test]
fn token_valid_until_its_expiry_instant() {
    let mut state = EnrollmentState::new(InMemorySecretStore::new());
    state.set_pending("tok".to_string(), 1_000);
    assert!(state.try_complete_enrollment_at("tok", b"k", 1_000).is_ok());
}

#[test]
fn failed_persist_keeps_the_pending_token() {
    let mut state = EnrollmentState::new(Arc::new(FailingSecretStore));
    state.set_pending("tok".to_string(), 10_000);
    match state.try_complete_enrollment_at("tok", b"k", 1_000) {
        Err(EnrollmentError::Platform(PlatformError::Other(m))) => assert_eq!(m, "disco lleno"),
        other => panic!("expected a platform error, got {:?}", other),
    }
    assert_eq!(state.pending_info().unwrap().token, "tok");
    assert!(!state.is_enrolled().unwrap());
}

#[test]
fn enrollment_error_messages() {
    assert_eq!(
        EnrollmentError::RateLimited { wait_secs: 12 }.message(),
        "demasiados intentos recientes — esperá 12s antes de reintentar"
    );
    assert_eq!(EnrollmentError::NoPendingEnrollment.message(), "no hay un enrolamiento pendiente");
    assert_eq!(EnrollmentError::TokenExpired.message(), "el token de pairing expiró — generar un QR nuevo");
    assert_eq!(EnrollmentError::InvalidToken.message(), "token de pairing inválido");
    assert_eq!(EnrollmentError::Platform(PlatformError::Other("x".to_string())).message(), "x");
    let io = PlatformError::Io(std::io::Error::new(std::io::ErrorKind::Other, "boom"));
    assert_eq!(io.message(), "io: boom");
}

#[test]
fn enrollment_ack_reports_the_outcome() {
    let ok = enrollment_ack(&Ok(()));
    assert!(ok.success);
    assert_eq!(ok.reason, None);
    let refused = enrollment_ack(&Err(EnrollmentError::InvalidToken));
    assert!(!refused.success);
    assert_eq!(refused.reason.as_deref(), Some("token de pairing inválido"));
}

#[test]
fn only_the_pinned_key_is_authorized() {
    let pinned = Some(b"clave".to_vec());
    assert!(session_authorized(&pinned, b"clave"));
    assert!(!session_authorized(&pinned, b"otra"));
    assert!(!session_authorized(&pinned, b"clav"));
    assert!(!session_authorized(&None, b"clave"));
}

#[test]
fn clock_readings_become_milliseconds() {
    assert_eq!(unix_ms_of_reading(None), 0);
    assert_eq!(unix_ms_of_reading(Some(1_770_000_000_123)), 1_770_000_000_123);
    assert_eq!(unix_ms_of_reading(Some((1u128 << 64) + 5)), 5);
    assert!(now_unix_ms() > 1_600_000_000_000);
}

#[test]
fn token_expires_ten_minutes_after_it_is_issued() {
    let mut state = EnrollmentState::new(InMemorySecretStore::new());
    let info = state.begin_enrollment_at(1_000_000);
    assert_eq!(info.expires_unix_ms, 1_000_000 + 600_000);
    assert_eq!(info.token.len(), 32);
    let late = state.begin_enrollment_at(u64::MAX - 5);
    assert_eq!(late.expires_unix_ms, u64::MAX);
    assert_eq!(state.pending_info().unwrap().token, late.token);
}

#[test]
fn only_an_accepted_token_asks_to_pin_the_presented_key() {
    let mut state = EnrollmentState::new(InMemorySecretStore::new());
    state.set_pending("token".to_string(), 10_000);
    assert!(matches!(state.confirm_at("otro", b"pk", 5_000), ConfirmStep::Refuse(EnrollmentError::InvalidToken)));
    assert!(matches!(state.confirm_at("token", b"pk", 5_500), ConfirmStep::Refuse(EnrollmentError::RateLimited { .. })));
    match state.confirm_at("token", b"pk-real", 6_000) {
        ConfirmStep::PinKey(k) => assert_eq!(k, b"pk-real".to_vec()),
        other => panic!("expected PinKey, got {:?}", other),
    }
    assert!(state.pending_info().is_some());
    let failed = state.complete_pin(Err(PlatformError::Other("disco lleno".to_string())));
    assert!(matches!(failed, Err(EnrollmentError::Platform(PlatformError::Other(ref m))) if m == "disco lleno"));
    assert_eq!(state.pending_info().unwrap().token, "token");
    assert!(state.complete_pin(Ok(())).is_ok());
    assert!(state.pending_info().is_none());
    assert!(matches!(state.confirm_at("token", b"pk", 7_000), ConfirmStep::Refuse(EnrollmentError::NoPendingEnrollment)));
}

#[test]
fn refused_confirmations_leave_the_store_untouched() {
    let store = InMemorySecretStore::new();
    let mut state = EnrollmentState::new(store.clone());
    assert!(state.try_complete_enrollment_at("t", b"pk", 1).is_err());
    state.set_pending("bueno".to_string(), 100);
    assert!(state.try_complete_enrollment_at("malo", b"atacante", 1).is_err());
    assert!(state.try_complete_enrollment_at("bueno", b"pk", 200).is_err());
    assert_eq!(store.load_pinned_frontend_key().unwrap(), None);
    state.set_pending("bueno".to_string(), 100);
    assert!(state.try_complete_enrollment_at("bueno", b"pk", 50).is_ok());
    assert_eq!(store.load_pinned_frontend_key().unwrap(), Some(b"pk".to_vec()));
}
