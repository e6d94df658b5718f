//! Platform-independent enrollment state.
//!
//! While no frontend key is pinned the vault is ENROLLING: it accepts the
//! first Noise_XX session that also presents a valid pairing token (the one
//! shown in the QR) and pins that session's key for good.
//!
//! Confirmations are rate limited: every failed attempt imposes an
//! exponential backoff before the next one is even compared, and after
//! [`MAX_ATTEMPTS_BEFORE_LOCKOUT`] consecutive failures the pending token is
//! dropped altogether, so a new enrollment has to begin.
//!
//! Persisting the pin is delegated to a [`SecretStore`], so each platform
//! decides how it is protected; publishing the pending token is left to the
//! caller through [`EnrollmentState::pending_info`].
use vstd::prelude::*;
use std::sync::Arc;
use vstd::string::StringExecFns;
use crate::crypto::pairing::{generate_pairing_token, is_pairing_token, now_unix_ms};
use crate::orchestration::traits::{PlatformError, PlatformResult, SecretStore};
use crate::text::decimal::{decimal, push_decimal};
use vstd::arithmetic::power2::{lemma2_to64, lemma_pow2_unfold, pow2};

verus! {

/// How long a pairing token stays valid: ten minutes.
pub const TOKEN_TTL_MS: u64 = 600000;
/// Consecutive failures after which the pending token is dropped.
pub const MAX_ATTEMPTS_BEFORE_LOCKOUT: u32 = 5;
/// Backoff after the first failure; it doubles with each further one.
pub const BASE_BACKOFF_MS: u64 = 1000;
/// Upper bound of the backoff.
pub const MAX_BACKOFF_MS: u64 = 30000;
/// Lock imposed once the attempts are used up: fifteen minutes.
pub const LOCKOUT_AFTER_MAX_ATTEMPTS_MS: u64 = 900000;

struct PendingEnrollment {
    token: String,
    expires_unix_ms: u64,
}

/// What a platform needs to publish the QR of a pending enrollment.
#[derive(Debug, Clone)]
pub struct PendingEnrollmentInfo {
    pub token: String,
    pub expires_unix_ms: u64,
}

/// Enrollment state of one runtime, over the secret store `S` that keeps the
/// pinned frontend key.
pub struct EnrollmentState<S: SecretStore + ?Sized> {
    secret_store: Arc<S>,
    pending: Option<PendingEnrollment>,
    failed_attempts: u32,
    locked_until_unix_ms: u64,
}

/// The abstract enrollment state: the pending token and its expiry, the
/// consecutive failed confirmations, and the instant until which
/// confirmations are refused.
pub struct EnrollmentView {
    pub pending: Option<(Seq<char>, u64)>,
    pub failed_attempts: u32,
    pub locked_until_ms: u64,
}

/// States that the operations keep: a pending token exists only while the
/// failures are below the lockout threshold.
pub open spec fn enrollment_wf(v: EnrollmentView) -> bool {
    &&& v.failed_attempts <= MAX_ATTEMPTS_BEFORE_LOCKOUT
    &&& v.pending is Some ==> v.failed_attempts < MAX_ATTEMPTS_BEFORE_LOCKOUT
}

/// `a + b`, saturated at `u64::MAX`.
pub open spec fn saturating_add_u64(a: u64, b: u64) -> u64 {
    if a + b > u64::MAX {
        u64::MAX
    } else {
        (a + b) as u64
    }
}

/// Backoff imposed after the `failures`-th consecutive failure:
/// `min(BASE_BACKOFF_MS * 2^(failures - 1), MAX_BACKOFF_MS)`.
pub open spec fn backoff_ms(failures: nat) -> nat
    decreases failures,
{
    if failures <= 1 {
        BASE_BACKOFF_MS as nat
    } else {
        let doubled = 2 * backoff_ms((failures - 1) as nat);
        if doubled < MAX_BACKOFF_MS {
            doubled
        } else {
            MAX_BACKOFF_MS as nat
        }
    }
}

/// How a confirmation presenting `presented` at `now` is judged.
pub enum ConfirmOutcome {
    /// Still inside a backoff or lockout; carries the whole seconds left.
    RateLimited(u64),
    /// No enrollment is pending.
    NoPending,
    /// The pending token expired.
    Expired,
    /// The token does not match.
    InvalidToken,
    /// The token matches and is in time.
    Accepted,
}

pub open spec fn confirm_outcome(s: EnrollmentView, presented: Seq<char>, now: u64) -> ConfirmOutcome {
    if now < s.locked_until_ms {
        ConfirmOutcome::RateLimited(((s.locked_until_ms - now) / 1000) as u64)
    } else {
        match s.pending {
            None => ConfirmOutcome::NoPending,
            Some(p) => if now > p.1 {
                ConfirmOutcome::Expired
            } else if presented != p.0 {
                ConfirmOutcome::InvalidToken
            } else {
                ConfirmOutcome::Accepted
            },
        }
    }
}

/// The state after a failed confirmation at `now`: one more failure, and
/// either a backoff or, at the threshold, the pending token dropped and a
/// long lock.
pub open spec fn after_failed_attempt(s: EnrollmentView, now: u64) -> EnrollmentView {
    let n = s.failed_attempts + 1;
    if n >= MAX_ATTEMPTS_BEFORE_LOCKOUT {
        EnrollmentView {
            pending: None,
            failed_attempts: n as u32,
            locked_until_ms: saturating_add_u64(now, LOCKOUT_AFTER_MAX_ATTEMPTS_MS),
        }
    } else {
        EnrollmentView {
            pending: s.pending,
            failed_attempts: n as u32,
            locked_until_ms: saturating_add_u64(now, backoff_ms(n as nat) as u64),
        }
    }
}

/// The state once an enrollment completed: nothing pending, no failures, no lock.
pub open spec fn completed_view() -> EnrollmentView {
    EnrollmentView { pending: None, failed_attempts: 0, locked_until_ms: 0 }
}

/// The state a confirmation leaves behind, apart from the outcome of
/// persisting the key when it is accepted.
pub open spec fn state_after_rejection(s: EnrollmentView, presented: Seq<char>, now: u64) -> EnrollmentView {
    match confirm_outcome(s, presented, now) {
        ConfirmOutcome::Expired => EnrollmentView { pending: None, ..s },
        ConfirmOutcome::InvalidToken => after_failed_attempt(s, now),
        _ => s,
    }
}

/// What a confirmation asks for: refused with its error, or the peer's
/// key to be pinned in the secret store.
#[derive(Debug)]
pub enum ConfirmStep {
    Refuse(EnrollmentError),
    PinKey(Vec<u8>),
}

/// Why a confirmation was refused.
#[derive(Debug)]
pub enum EnrollmentError {
    /// A recent failure imposed a wait; carries the whole seconds left.
    RateLimited { wait_secs: u64 },
    NoPendingEnrollment,
    TokenExpired,
    InvalidToken,
    /// The secret store could not persist the pin.
    Platform(PlatformError),
}

/// The text of a platform error: its message, or `io: ` and the I/O error.
pub open spec fn platform_error_text_ok(e: PlatformError, text: Seq<char>) -> bool {
    match e {
        PlatformError::Other(m) => text == m@,
        PlatformError::Io(_) => text.len() >= 4 && text.take(4) == "io: "@,
    }
}

/// The text of each enrollment error.
pub open spec fn enrollment_error_text_ok(e: EnrollmentError, text: Seq<char>) -> bool {
    match e {
        EnrollmentError::RateLimited { wait_secs } => text == "demasiados intentos recientes — esperá "@
            + decimal(wait_secs as nat) + "s antes de reintentar"@,
        EnrollmentError::NoPendingEnrollment => text == "no hay un enrolamiento pendiente"@,
        EnrollmentError::TokenExpired => text == "el token de pairing expiró — generar un QR nuevo"@,
        EnrollmentError::InvalidToken => text == "token de pairing inválido"@,
        EnrollmentError::Platform(p) => platform_error_text_ok(p, text),
    }
}

impl PlatformError {
    /// The human-readable text of the error.
    pub fn message(&self) -> (r: String)
        ensures
            platform_error_text_ok(*self, r@),
    {
        match self {
            PlatformError::Other(m) => m.clone(),
            PlatformError::Io(e) => {
                let mut s = String::from_str("io: ");
                proof {
                    reveal_strlit("io: ");
                }
                let ghost prefix = s@;
                s.append(e.to_string().as_str());
                assert(s@.take(4) =~= prefix);
                s
            },
        }
    }
}

impl EnrollmentError {
    /// The human-readable text of the error.
    pub fn message(&self) -> (r: String)
        ensures
            enrollment_error_text_ok(*self, r@),
    {
        match self {
            EnrollmentError::RateLimited { wait_secs } => {
                let mut s = String::from_str("demasiados intentos recientes — esperá ");
                push_decimal(&mut s, *wait_secs);
                s.append("s antes de reintentar");
                s
            },
            EnrollmentError::NoPendingEnrollment => String::from_str(
                "no hay un enrolamiento pendiente",
            ),
            EnrollmentError::TokenExpired => String::from_str(
                "el token de pairing expiró — generar un QR nuevo",
            ),
            EnrollmentError::InvalidToken => String::from_str("token de pairing inválido"),
            EnrollmentError::Platform(p) => p.message(),
        }
    }
}

impl<S: SecretStore + ?Sized> View for EnrollmentState<S> {
    type V = EnrollmentView;

    closed spec fn view(&self) -> EnrollmentView {
        EnrollmentView {
            pending: match self.pending {
                Some(p) => Some((p.token@, p.expires_unix_ms)),
                None => None,
            },
            failed_attempts: self.failed_attempts,
            locked_until_ms: self.locked_until_unix_ms,
        }
    }
}

/// Whether the two byte strings are equal, compared in time that depends
/// only on their lengths.
pub fn constant_time_eq(a: &[u8], b: &[u8]) -> (r: bool)
    ensures
        r == (a@ == b@),
{
    if a.len() != b.len() {
        return false;
    }
    let mut diff: u8 = 0;
    let mut i: usize = 0;
    while i < a.len()
        invariant
            a@.len() == b@.len(),
            0 <= i <= a@.len(),
            (diff == 0) <==> (forall|j: int| 0 <= j < i ==> a@[j] == b@[j]),
        decreases a@.len() - i,
    {
        let x = a[i];
        let y = b[i];
        let d = diff;
        assert(((d | (x ^ y)) == 0) <==> (d == 0 && x == y)) by (bit_vector);
        diff = d | (x ^ y);
        i = i + 1;
    }
    assert((diff == 0) ==> a@ =~= b@);
    diff == 0
}

/// Equal UTF-8 encodings come from equal strings.
proof fn lemma_utf8_injective(x: Seq<char>, y: Seq<char>)
    ensures
        (vstd::utf8::encode_utf8(x) == vstd::utf8::encode_utf8(y)) == (x == y),
{
    vstd::utf8::encode_utf8_decode_utf8(x);
    vstd::utf8::encode_utf8_decode_utf8(y);
}

impl<S: SecretStore + ?Sized> EnrollmentState<S> {
    pub open spec fn wf(&self) -> bool {
        enrollment_wf(self@)
    }

    /// A state with nothing pending, over the given secret store.
    pub fn new(secret_store: Arc<S>) -> (r: Self)
        ensures
            r.wf(),
            r@ == completed_view(),
    {
        EnrollmentState { secret_store, pending: None, failed_attempts: 0, locked_until_unix_ms: 0 }
    }

    /// Whether a frontend key is pinned, as the secret store reports it.
    pub fn is_enrolled(&self) -> (r: PlatformResult<bool>) {
        Self::enrollment_status(self.secret_store.load_pinned_frontend_key())
    }

    /// What `is_enrolled` answers for a given reply of the secret store: the
    /// store's error, or whether a key is pinned.
    pub fn enrollment_status(loaded: PlatformResult<Option<Vec<u8>>>) -> (r: PlatformResult<bool>)
        ensures
            loaded is Ok <==> r is Ok,
            loaded is Ok ==> r->Ok_0 == loaded->Ok_0 is Some,
            loaded is Err ==> r->Err_0 == loaded->Err_0,
    {
        match loaded {
            Ok(key) => Ok(key.is_some()),
            Err(e) => Err(e),
        }
    }

    /// The pinned frontend key, as the secret store reports it.
    pub fn pinned_public_key(&self) -> (r: PlatformResult<Option<Vec<u8>>>) {
        self.secret_store.load_pinned_frontend_key()
    }

    /// Starts an enrollment: a fresh token, valid for [`TOKEN_TTL_MS`] from
    /// now, becomes pending and the failure count and lock are cleared. The
    /// caller decides how to publish the returned information. It is
    /// [`Self::begin_enrollment_at`] with the clock's reading.
    pub fn begin_enrollment(&mut self) -> (r: PendingEnrollmentInfo)
        ensures
            final(self).wf(),
            final(self)@ == (EnrollmentView {
                pending: Some((r.token@, r.expires_unix_ms)),
                failed_attempts: 0,
                locked_until_ms: 0,
            }),
            is_pairing_token(r.token@),
            exists|now: u64| r.expires_unix_ms == saturating_add_u64(now, TOKEN_TTL_MS),
    {
        let now = now_unix_ms();
        self.begin_enrollment_at(now)
    }

    /// Starts an enrollment at `now_ms`: a fresh token, expiring
    /// [`TOKEN_TTL_MS`] later, becomes pending and the failure count and lock
    /// are cleared.
    pub fn begin_enrollment_at(&mut self, now_ms: u64) -> (r: PendingEnrollmentInfo)
        ensures
            final(self).wf(),
            r.expires_unix_ms == saturating_add_u64(now_ms, TOKEN_TTL_MS),
            final(self)@ == (EnrollmentView {
                pending: Some((r.token@, r.expires_unix_ms)),
                failed_attempts: 0,
                locked_until_ms: 0,
            }),
            is_pairing_token(r.token@),
    {
        let token = generate_pairing_token();
        let expires_unix_ms = now_ms.saturating_add(TOKEN_TTL_MS);
        self.pending = Some(PendingEnrollment { token: token.clone(), expires_unix_ms });
        self.failed_attempts = 0;
        self.locked_until_unix_ms = 0;
        PendingEnrollmentInfo { token, expires_unix_ms }
    }

    /// Makes `token` the pending token, expiring at `expires_unix_ms`, and
    /// clears the failure count and lock.
    pub fn set_pending(&mut self, token: String, expires_unix_ms: u64)
        ensures
            final(self).wf(),
            final(self)@ == (EnrollmentView {
                pending: Some((token@, expires_unix_ms)),
                failed_attempts: 0,
                locked_until_ms: 0,
            }),
    {
        self.pending = Some(PendingEnrollment { token, expires_unix_ms });
        self.failed_attempts = 0;
        self.locked_until_unix_ms = 0;
    }

    /// The pending token and its expiry, if an enrollment is pending.
    pub fn pending_info(&self) -> (r: Option<PendingEnrollmentInfo>)
        ensures
            match self@.pending {
                None => r is None,
                Some(p) => r is Some && r->Some_0.token@ == p.0 && r->Some_0.expires_unix_ms
                    == p.1,
            },
    {
        match &self.pending {
            Some(p) => Some(PendingEnrollmentInfo { token: p.token.clone(), expires_unix_ms: p.expires_unix_ms }),
            None => None,
        }
    }

    /// Judges the token of an `EnrollmentConfirm` against the clock and, when
    /// it is accepted, pins `remote_pubkey` through the secret store.
    pub fn try_complete_enrollment(&mut self, presented_token: &str, remote_pubkey: &[u8]) -> (r:
        Result<(), EnrollmentError>)
        requires
            old(self).wf(),
        ensures
            final(self).wf(),
            exists|now: u64| Self::completes_as(old(self)@, presented_token@, now, r, final(self)@),
    {
        let now = now_unix_ms();
        self.try_complete_enrollment_at(presented_token, remote_pubkey, now)
    }

    /// How a confirmation at `now` ends: refused with the error and state of
    /// its outcome, or, when accepted, either completed or failed in the
    /// secret store with the state unchanged.
    pub open spec fn completes_as(
        s: EnrollmentView,
        presented: Seq<char>,
        now: u64,
        r: Result<(), EnrollmentError>,
        after: EnrollmentView,
    ) -> bool {
        match confirm_outcome(s, presented, now) {
            ConfirmOutcome::RateLimited(w) => {
                &&& after == s
                &&& r matches Err(EnrollmentError::RateLimited { wait_secs }) && wait_secs == w
            },
            ConfirmOutcome::NoPending => {
                &&& after == s
                &&& r matches Err(EnrollmentError::NoPendingEnrollment)
            },
            ConfirmOutcome::Expired => {
                &&& after == state_after_rejection(s, presented, now)
                &&& r matches Err(EnrollmentError::TokenExpired)
            },
            ConfirmOutcome::InvalidToken => {
                &&& after == state_after_rejection(s, presented, now)
                &&& r matches Err(EnrollmentError::InvalidToken)
            },
            ConfirmOutcome::Accepted => {
                ||| r is Ok && after == completed_view()
                ||| r matches Err(EnrollmentError::Platform(_)) && after == s
            },
        }
    }

    /// [`Self::try_complete_enrollment`] with the clock read as `now_ms`:
    /// [`Self::confirm_at`] decides; when it asks for the key to be pinned,
    /// the secret store is asked to persist that key and
    /// [`Self::complete_pin`] settles the outcome. Within a backoff the token
    /// is not even compared, so an attempt during the wait does not count as
    /// another failure.
    pub fn try_complete_enrollment_at(
        &mut self,
        presented_token: &str,
        remote_pubkey: &[u8],
        now_ms: u64,
    ) -> (r: Result<(), EnrollmentError>)
        requires
            old(self).wf(),
        ensures
            final(self).wf(),
            Self::completes_as(old(self)@, presented_token@, now_ms, r, final(self)@),
    {
        match self.confirm_at(presented_token, remote_pubkey, now_ms) {
            ConfirmStep::Refuse(e) => Err(e),
            ConfirmStep::PinKey(key) => {
                let stored = self.secret_store.persist_pinned_frontend_key(key.as_slice());
                self.complete_pin(stored)
            },
        }
    }

    /// Judges a confirmation presenting `presented_token` and the peer's key
    /// `remote_pubkey` at `now_ms`. A refusal carries its error and leaves
    /// the state of its outcome (an expired token dropped, a wrong one
    /// counted as a failure, anything else unchanged); an accepted token
    /// asks for exactly `remote_pubkey` to be pinned and leaves the state as
    /// it is until [`Self::complete_pin`] is told how pinning went.
    pub fn confirm_at(&mut self, presented_token: &str, remote_pubkey: &[u8], now_ms: u64) -> (r: ConfirmStep)
        requires
            old(self).wf(),
        ensures
            final(self).wf(),
            match confirm_outcome(old(self)@, presented_token@, now_ms) {
                ConfirmOutcome::Accepted => r matches ConfirmStep::PinKey(k) && k@ == remote_pubkey@
                    && final(self)@ == old(self)@,
                ConfirmOutcome::RateLimited(w) => r matches ConfirmStep::Refuse(
                    EnrollmentError::RateLimited { wait_secs },
                ) && wait_secs == w && final(self)@ == old(self)@,
                ConfirmOutcome::NoPending => r matches ConfirmStep::Refuse(EnrollmentError::NoPendingEnrollment)
                    && final(self)@ == old(self)@,
                ConfirmOutcome::Expired => r matches ConfirmStep::Refuse(EnrollmentError::TokenExpired)
                    && final(self)@ == state_after_rejection(old(self)@, presented_token@, now_ms),
                ConfirmOutcome::InvalidToken => r matches ConfirmStep::Refuse(EnrollmentError::InvalidToken)
                    && final(self)@ == state_after_rejection(old(self)@, presented_token@, now_ms),
            },
    {
        if now_ms < self.locked_until_unix_ms {
            let wait_secs = (self.locked_until_unix_ms - now_ms) / 1000;
            return ConfirmStep::Refuse(EnrollmentError::RateLimited { wait_secs });
        }
        let (token_matches, expired) = match &self.pending {
            None => {
                return ConfirmStep::Refuse(EnrollmentError::NoPendingEnrollment);
            },
            Some(p) => {
                let same = constant_time_eq(presented_token.as_bytes(), p.token.as_str().as_bytes());
                proof {
                    lemma_utf8_injective(presented_token@, p.token@);
                }
                (same, now_ms > p.expires_unix_ms)
            },
        };
        if expired {
            self.pending = None;
            return ConfirmStep::Refuse(EnrollmentError::TokenExpired);
        }
        if !token_matches {
            self.register_failed_attempt_at(now_ms);
            return ConfirmStep::Refuse(EnrollmentError::InvalidToken);
        }
        ConfirmStep::PinKey(vstd::slice::slice_to_vec(remote_pubkey))
    }

    /// Settles an accepted confirmation with what persisting its key gave:
    /// on success the enrollment is complete (nothing pending, no failures,
    /// no lock); a store error is returned as [`EnrollmentError::Platform`]
    /// and leaves the state, pending token included, as it was.
    pub fn complete_pin(&mut self, stored: PlatformResult<()>) -> (r: Result<(), EnrollmentError>)
        requires
            old(self).wf(),
        ensures
            final(self).wf(),
            stored is Ok ==> r is Ok && final(self)@ == completed_view(),
            stored is Err ==> (r matches Err(EnrollmentError::Platform(e)) && e == stored->Err_0)
                && final(self)@ == old(self)@,
    {
        match stored {
            Ok(()) => {
                self.pending = None;
                self.failed_attempts = 0;
                self.locked_until_unix_ms = 0;
                Ok(())
            },
            Err(e) => Err(EnrollmentError::Platform(e)),
        }
    }

    /// Records a failed confirmation at the current time.
    pub fn register_failed_attempt(&mut self)
        requires
            old(self).wf(),
            old(self)@.pending is Some,
        ensures
            final(self).wf(),
            exists|now: u64| final(self)@ == after_failed_attempt(old(self)@, now),
    {
        let now = now_unix_ms();
        self.register_failed_attempt_at(now);
    }

    /// Records a failed confirmation at `now_ms`: a backoff of
    /// [`backoff_ms`] for this failure, or, at the threshold, the pending
    /// token dropped and a lock of [`LOCKOUT_AFTER_MAX_ATTEMPTS_MS`].
    pub fn register_failed_attempt_at(&mut self, now_ms: u64)
        requires
            old(self).wf(),
            old(self)@.pending is Some,
        ensures
            final(self).wf(),
            final(self)@ == after_failed_attempt(old(self)@, now_ms),
    {
        let failures = self.failed_attempts + 1;
        self.failed_attempts = failures;
        if failures >= MAX_ATTEMPTS_BEFORE_LOCKOUT {
            self.pending = None;
            self.locked_until_unix_ms = now_ms.saturating_add(LOCKOUT_AFTER_MAX_ATTEMPTS_MS);
            return;
        }
        let backoff = Self::backoff_for(failures);
        self.locked_until_unix_ms = now_ms.saturating_add(backoff);
    }

    /// [`backoff_ms`] of `failures`.
    fn backoff_for(failures: u32) -> (r: u64)
        requires
            failures >= 1,
        ensures
            r == backoff_ms(failures as nat),
            r <= MAX_BACKOFF_MS,
    {
        let mut backoff: u64 = BASE_BACKOFF_MS;
        let mut k: u32 = 1;
        while k < failures
            invariant
                1 <= k <= failures,
                backoff == backoff_ms(k as nat),
                backoff <= MAX_BACKOFF_MS,
            decreases failures - k,
        {
            let doubled = 2 * backoff;
            backoff = if doubled < MAX_BACKOFF_MS {
                doubled
            } else {
                MAX_BACKOFF_MS
            };
            k = k + 1;
        }
        backoff
    }

    /// Lifts any backoff or lock, as if enough time had passed.
    pub fn bypass_lockout_for_test(&mut self)
        requires
            old(self).wf(),
        ensures
            final(self).wf(),
            final(self)@ == (EnrollmentView { locked_until_ms: 0, ..old(self)@ }),
    {
        self.locked_until_unix_ms = 0;
    }
}

/// Once an enrollment completed its token is spent: every later
/// confirmation finds nothing pending, whatever it presents and whenever.
pub proof fn lemma_token_single_use(presented: Seq<char>, now: u64)
    ensures
        confirm_outcome(completed_view(), presented, now) == ConfirmOutcome::NoPending,
{
}

/// After a failed confirmation, any retry before its backoff has passed is
/// refused as rate limited, even with the right token.
pub proof fn lemma_backoff_blocks_retry(s: EnrollmentView, wrong: Seq<char>, now: u64, retry: Seq<char>, later: u64)
    requires
        enrollment_wf(s),
        confirm_outcome(s, wrong, now) == ConfirmOutcome::InvalidToken,
        now <= later,
        later < now + backoff_ms((s.failed_attempts + 1) as nat),
        now + LOCKOUT_AFTER_MAX_ATTEMPTS_MS <= u64::MAX,
    ensures
        confirm_outcome(state_after_rejection(s, wrong, now), retry, later) is RateLimited,
{
    lemma_backoff_bounds((s.failed_attempts + 1) as nat);
}

/// Every backoff lies between the base and the maximum.
pub proof fn lemma_backoff_bounds(n: nat)
    ensures
        BASE_BACKOFF_MS <= backoff_ms(n) <= MAX_BACKOFF_MS,
    decreases n,
{
    if n > 1 {
        lemma_backoff_bounds((n - 1) as nat);
    }
}

/// The backoff is exponential: the `n`-th consecutive failure imposes
/// `min(1000 * 2^(n-1), 30000)` ms, that is 1 s, 2 s, 4 s, 8 s, 16 s and
/// then 30 s, each failure doubling the wait until the cap.
pub proof fn lemma_backoff_exponential(n: nat)
    requires
        n >= 1,
    ensures
        backoff_ms(n) == if 1000 * pow2((n - 1) as nat) < 30000 {
            1000 * pow2((n - 1) as nat)
        } else {
            30000
        },
        backoff_ms(n + 1) == if 2 * backoff_ms(n) < 30000 {
            2 * backoff_ms(n)
        } else {
            30000
        },
    decreases n,
{
    if n > 1 {
        lemma_backoff_exponential((n - 1) as nat);
        lemma_pow2_unfold((n - 1) as nat);
    } else {
        lemma2_to64();
    }
}

/// The first backoffs, in milliseconds: 1000, 2000, 4000, 8000, 16000,
/// and 30000 from the sixth failure on.
pub proof fn lemma_backoff_schedule(n: nat)
    requires
        n >= 6,
    ensures
        backoff_ms(1) == 1000,
        backoff_ms(2) == 2000,
        backoff_ms(3) == 4000,
        backoff_ms(4) == 8000,
        backoff_ms(5) == 16000,
        backoff_ms(n) == 30000,
    decreases n,
{
    lemma2_to64();
    lemma_backoff_exponential(1);
    lemma_backoff_exponential(2);
    lemma_backoff_exponential(3);
    lemma_backoff_exponential(4);
    lemma_backoff_exponential(5);
    if n > 6 {
        lemma_backoff_schedule((n - 1) as nat);
        lemma_backoff_exponential((n - 1) as nat);
    }
}

/// Below the threshold a failed confirmation keeps the pending token and
/// counts one more consecutive failure.
pub proof fn lemma_failure_counts(s: EnrollmentView, now: u64)
    requires
        enrollment_wf(s),
        s.pending is Some,
        s.failed_attempts + 1 < MAX_ATTEMPTS_BEFORE_LOCKOUT,
    ensures
        after_failed_attempt(s, now).pending == s.pending,
        after_failed_attempt(s, now).failed_attempts == s.failed_attempts + 1,
        enrollment_wf(after_failed_attempt(s, now)),
{
}

/// The failure that reaches the threshold drops the pending token: from
/// then on no confirmation is accepted, not even with the right token.
pub proof fn lemma_lockout_drops_pending(s: EnrollmentView, now: u64, presented: Seq<char>, later: u64)
    requires
        enrollment_wf(s),
        s.pending is Some,
        s.failed_attempts + 1 == MAX_ATTEMPTS_BEFORE_LOCKOUT,
    ensures
        after_failed_attempt(s, now).pending is None,
        after_failed_attempt(s, now).locked_until_ms == saturating_add_u64(now, LOCKOUT_AFTER_MAX_ATTEMPTS_MS),
        confirm_outcome(after_failed_attempt(s, now), presented, later) != ConfirmOutcome::Accepted,
{
}

/// A pending token whose expiry has passed is refused and dropped, so it
/// cannot be accepted later either.
pub proof fn lemma_expired_token_dropped(s: EnrollmentView, presented: Seq<char>, now: u64, retry: Seq<char>, later: u64)
    requires
        enrollment_wf(s),
        confirm_outcome(s, presented, now) == ConfirmOutcome::Expired,
    ensures
        state_after_rejection(s, presented, now).pending is None,
        confirm_outcome(state_after_rejection(s, presented, now), retry, later) != ConfirmOutcome::Accepted,
{
}

/// The right token, presented in time and outside any backoff, is accepted.
pub proof fn lemma_valid_token_accepted(s: EnrollmentView, now: u64)
    requires
        s.pending is Some,
        s.locked_until_ms <= now <= s.pending->Some_0.1,
    ensures
        confirm_outcome(s, s.pending->Some_0.0, now) == ConfirmOutcome::Accepted,
{
}

} // verus!
