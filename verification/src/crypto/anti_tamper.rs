//! Anti-tamper context: checks the binary's signature hash against the one
//! the HSM enclave authorises, refuses to run under a debugger, and on any
//! anomaly destroys the ephemeral key material and blocks pairing.
use vstd::prelude::*;
use crate::ext::digest::{sha256, sha256_digest};

verus! {

#[derive(Debug, Clone, Copy, PartialEq, Eq, Structural)]
pub enum AntiTamperError {
    /// The binary's signature hash is not the authorised one.
    InvalidSignatureHash,
    /// A debugger or hooking environment was detected.
    DebuggerDetected,
    /// The ephemeral keys were revoked and destroyed.
    KeysZeroized,
}

impl AntiTamperError {
    /// The human-readable text of the error.
    pub fn message(&self) -> (r: String)
        ensures
            r@ == anti_tamper_error_text(*self),
    {
        match self {
            AntiTamperError::InvalidSignatureHash => String::from_str(
                "firma de binario/APK no autorizada o alterada",
            ),
            AntiTamperError::DebuggerDetected => String::from_str(
                "depurador o entorno de hooking detectado (ptrace/Frida)",
            ),
            AntiTamperError::KeysZeroized => String::from_str("clave efímera revocada y destruida"),
        }
    }
}

pub open spec fn anti_tamper_error_text(e: AntiTamperError) -> Seq<char> {
    match e {
        AntiTamperError::InvalidSignatureHash => "firma de binario/APK no autorizada o alterada"@,
        AntiTamperError::DebuggerDetected => "depurador o entorno de hooking detectado (ptrace/Frida)"@,
        AntiTamperError::KeysZeroized => "clave efímera revocada y destruida"@,
    }
}

/// State of the anti-tamper check.
pub struct AntiTamperContext {
    authorized_binary_hash: [u8; 32],
    is_compromised: bool,
    ephemeral_keys: Vec<u8>,
}

/// The abstract context: the authorised hash, whether it is compromised,
/// and the ephemeral key material it holds.
pub struct AntiTamperView {
    pub authorized_hash: Seq<u8>,
    pub compromised: bool,
    pub keys: Seq<u8>,
}

/// The verdict of an integrity check: a debugger wins over a wrong hash.
pub open spec fn integrity_verdict(authorized: Seq<u8>, computed: Seq<u8>, debugger_attached: bool) -> Option<AntiTamperError> {
    if debugger_attached {
        Some(AntiTamperError::DebuggerDetected)
    } else if computed != authorized {
        Some(AntiTamperError::InvalidSignatureHash)
    } else {
        None
    }
}

impl View for AntiTamperContext {
    type V = AntiTamperView;

    closed spec fn view(&self) -> AntiTamperView {
        AntiTamperView {
            authorized_hash: self.authorized_binary_hash@,
            compromised: self.is_compromised,
            keys: self.ephemeral_keys@,
        }
    }
}

impl AntiTamperContext {
    /// A context trusting `authorized_binary_hash`, not compromised and
    /// holding no keys yet.
    pub fn new(authorized_binary_hash: [u8; 32]) -> (r: Self)
        ensures
            r@ == (AntiTamperView {
                authorized_hash: authorized_binary_hash@,
                compromised: false,
                keys: Seq::empty(),
            }),
    {
        AntiTamperContext { authorized_binary_hash, is_compromised: false, ephemeral_keys: Vec::new() }
    }

    /// Loads the ephemeral key material to protect.
    pub fn set_ephemeral_keys(&mut self, keys: &[u8])
        ensures
            final(self)@ == (AntiTamperView { keys: keys@, ..old(self)@ }),
    {
        self.ephemeral_keys = vstd::slice::slice_to_vec(keys);
    }

    /// The SHA-256 of the binary's (or APK's) signature bytes.
    pub fn compute_signature_hash(binary_data: &[u8]) -> (r: [u8; 32])
        ensures
            r@ == sha256(binary_data@),
    {
        sha256_digest(binary_data)
    }

    /// Checks the binary against the authorised hash and that no debugger
    /// is attached. Any anomaly destroys the keys and marks the context
    /// compromised; a clean check clears the mark and keeps the keys.
    pub fn verify_integrity(&mut self, computed_hash: &[u8; 32], is_debugger_attached: bool) -> (r:
        Result<(), AntiTamperError>)
        ensures
            match integrity_verdict(old(self)@.authorized_hash, computed_hash@, is_debugger_attached) {
                Some(e) => r == Err::<(), AntiTamperError>(e) && final(self)@ == (AntiTamperView {
                    compromised: true,
                    keys: Seq::empty(),
                    ..old(self)@
                }),
                None => r is Ok && final(self)@ == (AntiTamperView { compromised: false, ..old(self)@ }),
            },
    {
        if is_debugger_attached {
            self.trigger_zeroize_and_block();
            return Err(AntiTamperError::DebuggerDetected);
        }
        if !Self::same_hash(computed_hash, &self.authorized_binary_hash) {
            self.trigger_zeroize_and_block();
            return Err(AntiTamperError::InvalidSignatureHash);
        }
        self.is_compromised = false;
        Ok(())
    }

    fn same_hash(a: &[u8; 32], b: &[u8; 32]) -> (r: bool)
        ensures
            r == (a@ == b@),
    {
        let mut i: usize = 0;
        while i < 32
            invariant
                0 <= i <= 32,
                a@.len() == 32,
                b@.len() == 32,
                forall|j: int| 0 <= j < i ==> a@[j] == b@[j],
            decreases 32 - i,
        {
            if a[i] != b[i] {
                return false;
            }
            i = i + 1;
        }
        assert(a@ =~= b@);
        true
    }

    /// Overwrites the key material with zeros, drops it, and marks the
    /// context compromised.
    pub fn trigger_zeroize_and_block(&mut self)
        ensures
            final(self)@ == (AntiTamperView { compromised: true, keys: Seq::empty(), ..old(self)@ }),
    {
        self.is_compromised = true;
        let mut i: usize = 0;
        while i < self.ephemeral_keys.len()
            invariant
                0 <= i <= self.ephemeral_keys@.len(),
                self.authorized_binary_hash == old(self).authorized_binary_hash,
                self.is_compromised,
                forall|j: int| 0 <= j < i ==> self.ephemeral_keys@[j] == 0,
            decreases self.ephemeral_keys@.len() - i,
        {
            self.ephemeral_keys.set(i, 0);
            i = i + 1;
        }
        self.ephemeral_keys.clear();
    }

    pub fn is_compromised(&self) -> (r: bool)
        ensures
            r == self@.compromised,
    {
        self.is_compromised
    }

    pub fn has_keys(&self) -> (r: bool)
        ensures
            r == (self@.keys.len() > 0),
    {
        !self.ephemeral_keys.is_empty()
    }
}

/// A binary whose signature hashes to the authorised hash passes the check
/// when no debugger is attached, and any other binary fails it.
pub proof fn lemma_signature_check(authorized: Seq<u8>, signature: Seq<u8>)
    ensures
        integrity_verdict(authorized, sha256(signature), false) is None <==> sha256(signature)
            == authorized,
{
}

} // verus!
