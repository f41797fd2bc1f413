//! Authentication plans: the credential material a transport needs for a connection
//! profile, chosen from the profile's transport and authentication kind, with secrets moved
//! into the plan and never copied.

use std::sync::Arc;
use vstd::prelude::*;

verus! {

#[verifier::external_type_specification]
#[verifier::external_body]
pub struct ExPrivateKey(russh::keys::PrivateKey);

#[verifier::external_type_specification]
#[verifier::external_body]
pub struct ExPublicKey(russh::keys::PublicKey);

/// How a session reaches its host.
#[derive(Clone, Copy, Debug, PartialEq, Eq, Structural)]
pub enum TransportKind {
    /// The system OpenSSH client.
    SystemOpenSsh,
    /// The built-in SSH implementation.
    NativeSsh,
}

/// How a session proves the user's identity.
#[derive(Clone, Copy, Debug, PartialEq, Eq, Structural)]
pub enum AuthenticationKind {
    Password,
    PublicKey,
    Agent,
    KeyboardInteractive,
}

/// Names a secret kept in a credential vault.
#[derive(Clone, Debug, PartialEq, Eq)]
pub struct CredentialRef(pub String);

/// The parts of a saved connection that decide its authentication. The identity file is held
/// as the text of its path.
#[derive(Clone, Debug)]
pub struct ConnectionProfile {
    pub host: String,
    pub transport: TransportKind,
    pub authentication: AuthenticationKind,
    pub identity_file: Option<String>,
    pub credential_ref: Option<CredentialRef>,
}

/// A credential vault could not be read.
#[derive(Clone, Debug, PartialEq, Eq)]
pub struct VaultError {
    pub message: String,
}

/// Why no authentication plan could be built for a profile.
#[derive(Clone, Debug, PartialEq, Eq)]
pub enum AuthPlanError {
    /// The transport does not offer the authentication kind.
    UnsupportedCombination {
        host: String,
        transport: TransportKind,
        authentication: AuthenticationKind,
    },
    /// The secret the authentication needs is absent.
    CredentialMissing { host: String, authentication: AuthenticationKind },
    /// Public-key authentication without an identity file path.
    MissingIdentityFile { host: String, authentication: AuthenticationKind },
    /// The profile names no usable credential reference.
    MissingCredentialRef { host: String, authentication: AuthenticationKind },
    /// The vault failed while reading the secret.
    CredentialFault { host: String, authentication: AuthenticationKind, vault: VaultError },
}

/// Where saved secrets are read from. Each vault says through `answers` which results it
/// may give for a reference; nothing more is promised of what it returns.
pub trait CredentialVault {
    type Secret;

    /// Whether `result` is an answer the vault may give when asked for `reference`.
    spec fn answers(
        &self,
        reference: CredentialRef,
        result: Result<Option<Self::Secret>, VaultError>,
    ) -> bool;

    /// The secret named by `reference`, `None` when the vault holds none.
    fn get(&self, reference: &CredentialRef) -> (r: Result<Option<Self::Secret>, VaultError>)
        ensures
            self.answers(*reference, r),
    ;
}

/// Authentication material prepared once for a transport. `Secret` holds a secret value
/// (a password or passphrase) and `Signer` a handle to a signer outside this process; the
/// variants own them so the transport can consume them without copies.
pub enum AuthPlan<Secret, Signer> {
    Password { host: String, password: Secret },
    PublicKey { host: String, identity_file: String, passphrase: Option<Secret> },
    Agent { host: String },
    KeyboardInteractive { host: String },
    /// Public-key authentication with a decoded private key held in memory.
    PrivateKey { host: String, key: Arc<russh::keys::PrivateKey> },
    /// Public-key authentication whose signature comes from `signer`, which holds the
    /// private key of `public_key`.
    Signer { host: String, public_key: russh::keys::PublicKey, signer: Signer },
}

/// An external signer could not sign; the transport reports an authentication failure.
#[derive(Clone, Copy, Debug, PartialEq, Eq, Structural)]
pub struct ExternalSignerError;

impl ExternalSignerError {
    /// The message describing the failure.
    pub fn message(&self) -> (r: &'static str)
        ensures
            r@ == "external signer failed"@,
    {
        "external signer failed"
    }
}

/// The Unicode White_Space characters, which trimming removes.
pub open spec fn spec_is_white_space(c: char) -> bool {
    let v = c as u32;
    ||| 0x09 <= v <= 0x0d
    ||| v == 0x20
    ||| v == 0x85
    ||| v == 0xa0
    ||| v == 0x1680
    ||| 0x2000 <= v <= 0x200a
    ||| v == 0x2028
    ||| v == 0x2029
    ||| v == 0x202f
    ||| v == 0x205f
    ||| v == 0x3000
}

/// The text is not empty once surrounding whitespace is trimmed.
pub open spec fn spec_has_text(text: Seq<char>) -> bool {
    exists|i: int| 0 <= i < text.len() && !spec_is_white_space(text[i])
}

/// Transports and the authentication kinds they offer: the system client uses the agent or
/// a key file; the built-in client offers every kind.
pub open spec fn spec_supported_combination(
    transport: TransportKind,
    authentication: AuthenticationKind,
) -> bool {
    match transport {
        TransportKind::SystemOpenSsh => authentication == AuthenticationKind::Agent
            || authentication == AuthenticationKind::PublicKey,
        TransportKind::NativeSsh => true,
    }
}

pub open spec fn spec_unsupported(profile: ConnectionProfile) -> AuthPlanError {
    AuthPlanError::UnsupportedCombination {
        host: profile.host,
        transport: profile.transport,
        authentication: profile.authentication,
    }
}

/// The profile's identity file, when its path has text.
pub open spec fn spec_identity_file(profile: ConnectionProfile) -> Option<String> {
    match profile.identity_file {
        Some(path) => if spec_has_text(path@) {
            Some(path)
        } else {
            None
        },
        None => None,
    }
}

/// The profile names a credential reference with text.
pub open spec fn spec_usable_ref(profile: ConnectionProfile) -> bool {
    profile.credential_ref matches Some(reference) && spec_has_text(reference.0@)
}

/// The plan built from the profile and an application-provided secret.
pub open spec fn spec_from_secret<S, G>(profile: ConnectionProfile, secret: Option<S>) -> Result<
    AuthPlan<S, G>,
    AuthPlanError,
> {
    let host = profile.host;
    let authentication = profile.authentication;
    if !spec_supported_combination(profile.transport, authentication) {
        Err(spec_unsupported(profile))
    } else {
        match authentication {
            AuthenticationKind::Password => match secret {
                Some(password) => Ok(AuthPlan::Password { host, password }),
                None => Err(AuthPlanError::CredentialMissing { host, authentication }),
            },
            AuthenticationKind::PublicKey => match spec_identity_file(profile) {
                Some(identity_file) => Ok(
                    AuthPlan::PublicKey { host, identity_file, passphrase: secret },
                ),
                None => Err(AuthPlanError::MissingIdentityFile { host, authentication }),
            },
            AuthenticationKind::Agent => Ok(AuthPlan::Agent { host }),
            AuthenticationKind::KeyboardInteractive => Ok(AuthPlan::KeyboardInteractive { host }),
        }
    }
}

/// The refusal of an in-memory key or signer plan: only a supported public-key profile
/// accepts one.
pub open spec fn spec_require_public_key(profile: ConnectionProfile) -> Option<AuthPlanError> {
    if profile.authentication != AuthenticationKind::PublicKey || !spec_supported_combination(
        profile.transport,
        profile.authentication,
    ) {
        Some(spec_unsupported(profile))
    } else {
        None
    }
}

/// A required secret, from what the vault returned for the profile's reference.
pub open spec fn spec_secret_from_lookup<S>(
    profile: ConnectionProfile,
    lookup: Result<Option<S>, VaultError>,
) -> Result<S, AuthPlanError> {
    match lookup {
        Ok(Some(secret)) => Ok(secret),
        Ok(None) => Err(
            AuthPlanError::CredentialMissing {
                host: profile.host,
                authentication: profile.authentication,
            },
        ),
        Err(vault) => Err(
            AuthPlanError::CredentialFault {
                host: profile.host,
                authentication: profile.authentication,
                vault,
            },
        ),
    }
}

/// The kind of authentication a plan performs.
pub open spec fn spec_kind<S, G>(plan: AuthPlan<S, G>) -> AuthenticationKind {
    match plan {
        AuthPlan::Password { .. } => AuthenticationKind::Password,
        AuthPlan::PublicKey { .. } | AuthPlan::PrivateKey { .. } | AuthPlan::Signer { .. } => {
            AuthenticationKind::PublicKey
        },
        AuthPlan::Agent { .. } => AuthenticationKind::Agent,
        AuthPlan::KeyboardInteractive { .. } => AuthenticationKind::KeyboardInteractive,
    }
}

/// The host a plan authenticates to.
pub open spec fn spec_host<S, G>(plan: AuthPlan<S, G>) -> String {
    match plan {
        AuthPlan::Password { host, .. } => host,
        AuthPlan::PublicKey { host, .. } => host,
        AuthPlan::PrivateKey { host, .. } => host,
        AuthPlan::Signer { host, .. } => host,
        AuthPlan::Agent { host } => host,
        AuthPlan::KeyboardInteractive { host } => host,
    }
}

/// The host an error names.
pub open spec fn spec_error_host(error: AuthPlanError) -> String {
    match error {
        AuthPlanError::UnsupportedCombination { host, .. } => host,
        AuthPlanError::CredentialMissing { host, .. } => host,
        AuthPlanError::MissingIdentityFile { host, .. } => host,
        AuthPlanError::MissingCredentialRef { host, .. } => host,
        AuthPlanError::CredentialFault { host, .. } => host,
    }
}

/// A plan, or the refusal to build one, belongs to its profile: a plan performs the
/// profile's authentication kind toward the profile's host, and a refusal names that host.
pub open spec fn spec_belongs_to<S, G>(
    r: Result<AuthPlan<S, G>, AuthPlanError>,
    profile: ConnectionProfile,
) -> bool {
    match r {
        Ok(plan) => spec_kind(plan) == profile.authentication && spec_host(plan) == profile.host,
        Err(error) => spec_error_host(error) == profile.host,
    }
}

/// Every outcome of building a plan from an application-provided secret belongs to the
/// profile, and a supported profile is refused only for a missing password or identity file.
pub proof fn lemma_from_secret_belongs_to_profile<S, G>(
    profile: ConnectionProfile,
    secret: Option<S>,
)
    ensures
        spec_belongs_to(spec_from_secret::<S, G>(profile, secret), profile),
        spec_supported_combination(profile.transport, profile.authentication) ==> (
        spec_from_secret::<S, G>(profile, secret) is Err <==> (profile.authentication
            == AuthenticationKind::Password && secret is None || profile.authentication
            == AuthenticationKind::PublicKey && spec_identity_file(profile) is None)),
{
}

/// The system OpenSSH client offers exactly agent and public-key authentication; the built-in
/// client offers every kind.
pub proof fn lemma_transports_offer(transport: TransportKind, authentication: AuthenticationKind)
    ensures
        spec_supported_combination(transport, authentication) <==> (transport
            == TransportKind::NativeSsh || authentication == AuthenticationKind::Agent
            || authentication == AuthenticationKind::PublicKey),
{
}

/// A plan built from application-provided material: a profile whose transport does not offer
/// its kind is refused as unsupported; a password plan carries the given password and is
/// refused without one; a key-file plan carries the profile's identity file, when its path has
/// text, with the given passphrase, and is refused without it; agent and keyboard-interactive
/// plans need nothing. Every plan and refusal names the profile's host.
pub proof fn lemma_from_secret_outcomes<S, G>(profile: ConnectionProfile, secret: Option<S>)
    ensures
        ({
            let host = profile.host;
            let authentication = profile.authentication;
            let r = spec_from_secret::<S, G>(profile, secret);
            &&& profile.transport == TransportKind::SystemOpenSsh && (authentication
                == AuthenticationKind::Password || authentication
                == AuthenticationKind::KeyboardInteractive) ==> r == Err::<
                AuthPlan<S, G>,
                AuthPlanError,
            >(
                AuthPlanError::UnsupportedCombination {
                    host,
                    transport: TransportKind::SystemOpenSsh,
                    authentication,
                },
            )
            &&& profile.transport == TransportKind::NativeSsh && authentication
                == AuthenticationKind::Password ==> r == match secret {
                Some(password) => Ok::<AuthPlan<S, G>, AuthPlanError>(
                    AuthPlan::Password { host, password },
                ),
                None => Err(AuthPlanError::CredentialMissing { host, authentication }),
            }
            &&& authentication == AuthenticationKind::PublicKey ==> r == match profile.identity_file {
                Some(path) => if exists|i: int|
                    0 <= i < path@.len() && !spec_is_white_space(path@[i]) {
                    Ok::<AuthPlan<S, G>, AuthPlanError>(
                        AuthPlan::PublicKey { host, identity_file: path, passphrase: secret },
                    )
                } else {
                    Err(AuthPlanError::MissingIdentityFile { host, authentication })
                },
                None => Err::<AuthPlan<S, G>, AuthPlanError>(
                    AuthPlanError::MissingIdentityFile { host, authentication },
                ),
            }
            &&& authentication == AuthenticationKind::Agent ==> r == Ok::<
                AuthPlan<S, G>,
                AuthPlanError,
            >(AuthPlan::Agent { host })
            &&& profile.transport == TransportKind::NativeSsh && authentication
                == AuthenticationKind::KeyboardInteractive ==> r == Ok::<
                AuthPlan<S, G>,
                AuthPlanError,
            >(AuthPlan::KeyboardInteractive { host })
        }),
{
}

/// What the vault answered decides a required secret: a secret found is used as it is; no
/// secret is `CredentialMissing`; a vault failure is `CredentialFault` carrying the vault's
/// own error. Both errors name the profile's host and authentication kind.
pub proof fn lemma_vault_answer_decides<S>(
    profile: ConnectionProfile,
    lookup: Result<Option<S>, VaultError>,
)
    ensures
        ({
            let host = profile.host;
            let authentication = profile.authentication;
            &&& match lookup {
                Ok(Some(secret)) => spec_secret_from_lookup(profile, lookup) == Ok::<
                    S,
                    AuthPlanError,
                >(secret),
                Ok(None) => spec_secret_from_lookup(profile, lookup) == Err::<S, AuthPlanError>(
                    AuthPlanError::CredentialMissing { host, authentication },
                ),
                Err(vault) => spec_secret_from_lookup(profile, lookup) == Err::<
                    S,
                    AuthPlanError,
                >(AuthPlanError::CredentialFault { host, authentication, vault }),
            }
        }),
{
}

/// Text made only of spaces, tabs, line feeds and carriage returns has no text once trimmed;
/// text holding a visible ASCII character (U+0021..=U+007E) or a letter beyond ASCII that is
/// not whitespace, such as any CJK ideograph, has text.
pub proof fn lemma_blank_text(text: Seq<char>)
    ensures
        (forall|i: int|
            0 <= i < text.len() ==> #[trigger] text[i] == ' ' || text[i] == '\t' || text[i]
                == '\n' || text[i] == '\r') ==> !spec_has_text(text),
        (exists|i: int|
            0 <= i < text.len() && ((0x21 <= #[trigger] text[i] as u32 <= 0x7e) || (0x4e00
                <= text[i] as u32 <= 0x9fff))) ==> spec_has_text(text),
{
    if forall|i: int|
        0 <= i < text.len() ==> #[trigger] text[i] == ' ' || text[i] == '\t' || text[i] == '\n'
            || text[i] == '\r' {
        if spec_has_text(text) {
            let i = choose|i: int| 0 <= i < text.len() && !spec_is_white_space(text[i]);
            assert(text[i] == ' ' || text[i] == '\t' || text[i] == '\n' || text[i] == '\r');
        }
    }
    if exists|i: int|
        0 <= i < text.len() && ((0x21 <= #[trigger] text[i] as u32 <= 0x7e) || (0x4e00
            <= text[i] as u32 <= 0x9fff)) {
        let i = choose|i: int|
            0 <= i < text.len() && ((0x21 <= #[trigger] text[i] as u32 <= 0x7e) || (0x4e00
                <= text[i] as u32 <= 0x9fff));
        assert(!spec_is_white_space(text[i]));
    }
}

/// Whether `c` is Unicode White_Space.
pub fn is_white_space(c: char) -> (r: bool)
    ensures
        r == spec_is_white_space(c),
{
    let v = c as u32;
    (0x09 <= v && v <= 0x0d) || v == 0x20 || v == 0x85 || v == 0xa0 || v == 0x1680 || (0x2000
        <= v && v <= 0x200a) || v == 0x2028 || v == 0x2029 || v == 0x202f || v == 0x205f || v
        == 0x3000
}

/// Whether `text` holds a character other than whitespace.
pub fn has_text(text: &str) -> (r: bool)
    ensures
        r == spec_has_text(text@),
{
    let n = text.unicode_len();
    let mut i: usize = 0;
    while i < n
        invariant
            n == text@.len(),
            i <= n,
            forall|j: int| 0 <= j < i ==> spec_is_white_space(#[trigger] text@[j]),
        decreases n - i,
    {
        if !is_white_space(text.get_char(i)) {
            return true;
        }
        i = i + 1;
    }
    false
}

/// Whether an identity file path has text once whitespace is trimmed.
pub fn has_path_text(path: &str) -> (r: bool)
    ensures
        r == spec_has_text(path@),
{
    has_text(path)
}

/// Whether `transport` offers `authentication`.
pub fn supported_combination(transport: TransportKind, authentication: AuthenticationKind) -> (r:
    bool)
    ensures
        r == spec_supported_combination(transport, authentication),
{
    match transport {
        TransportKind::SystemOpenSsh => authentication == AuthenticationKind::Agent
            || authentication == AuthenticationKind::PublicKey,
        TransportKind::NativeSsh => true,
    }
}

fn unsupported(profile: &ConnectionProfile) -> (r: AuthPlanError)
    ensures
        r == spec_unsupported(*profile),
{
    AuthPlanError::UnsupportedCombination {
        host: profile.host.clone(),
        transport: profile.transport,
        authentication: profile.authentication,
    }
}

fn require_public_key(profile: &ConnectionProfile) -> (r: Result<(), AuthPlanError>)
    ensures
        match spec_require_public_key(*profile) {
            Some(e) => r == Err::<(), AuthPlanError>(e),
            None => r is Ok,
        },
{
    if profile.authentication != AuthenticationKind::PublicKey || !supported_combination(
        profile.transport,
        profile.authentication,
    ) {
        return Err(unsupported(profile));
    }
    Ok(())
}

fn identity_file(profile: &ConnectionProfile) -> (r: Option<String>)
    ensures
        r == spec_identity_file(*profile),
{
    match &profile.identity_file {
        Some(path) => {
            if has_path_text(path.as_str()) {
                Some(path.clone())
            } else {
                None
            }
        },
        None => None,
    }
}

/// A required secret from the vault's answer: a secret is used, an absent one is missing,
/// and a vault failure is reported with the vault's error.
pub fn secret_from_lookup<S>(profile: &ConnectionProfile, lookup: Result<Option<S>, VaultError>) -> (r:
    Result<S, AuthPlanError>)
    ensures
        r == spec_secret_from_lookup(*profile, lookup),
{
    match lookup {
        Ok(Some(secret)) => Ok(secret),
        Ok(None) => Err(
            AuthPlanError::CredentialMissing {
                host: profile.host.clone(),
                authentication: profile.authentication,
            },
        ),
        Err(vault) => Err(
            AuthPlanError::CredentialFault {
                host: profile.host.clone(),
                authentication: profile.authentication,
                vault,
            },
        ),
    }
}

/// The secret the profile's credential reference names. Without a reference with text it is
/// `MissingCredentialRef`; otherwise the vault is asked and its answer decides.
pub fn required_secret<V: CredentialVault>(profile: &ConnectionProfile, vault: &V) -> (r: Result<
    V::Secret,
    AuthPlanError,
>)
    ensures
        !spec_usable_ref(*profile) ==> r == Err::<V::Secret, AuthPlanError>(
            AuthPlanError::MissingCredentialRef {
                host: profile.host,
                authentication: profile.authentication,
            },
        ),
        spec_usable_ref(*profile) ==> exists|lookup: Result<Option<V::Secret>, VaultError>|
            vault.answers(profile.credential_ref->0, lookup) && r == #[trigger] spec_secret_from_lookup(
                *profile,
                lookup,
            ),
{
    let reference = match &profile.credential_ref {
        Some(reference) => {
            if has_text(reference.0.as_str()) {
                reference
            } else {
                return Err(
                    AuthPlanError::MissingCredentialRef {
                        host: profile.host.clone(),
                        authentication: profile.authentication,
                    },
                );
            }
        },
        None => {
            return Err(
                AuthPlanError::MissingCredentialRef {
                    host: profile.host.clone(),
                    authentication: profile.authentication,
                },
            );
        },
    };
    let lookup = vault.get(reference);
    secret_from_lookup(profile, lookup)
}

/// The passphrase the profile's credential reference names, if it names one: no reference
/// means no passphrase; a reference without text is `MissingCredentialRef`; otherwise the
/// vault is asked and its answer decides, an absent secret being `CredentialMissing`.
pub fn optional_secret<V: CredentialVault>(profile: &ConnectionProfile, vault: &V) -> (r: Result<
    Option<V::Secret>,
    AuthPlanError,
>)
    ensures
        profile.credential_ref is None ==> r == Ok::<Option<V::Secret>, AuthPlanError>(None),
        profile.credential_ref is Some && !spec_usable_ref(*profile) ==> r == Err::<
            Option<V::Secret>,
            AuthPlanError,
        >(
            AuthPlanError::MissingCredentialRef {
                host: profile.host,
                authentication: profile.authentication,
            },
        ),
        spec_usable_ref(*profile) ==> exists|lookup: Result<Option<V::Secret>, VaultError>|
            vault.answers(profile.credential_ref->0, lookup) && r == match #[trigger] spec_secret_from_lookup(*profile, lookup) {
                Ok(secret) => Ok(Some(secret)),
                Err(e) => Err(e),
            },
{
    let reference = match &profile.credential_ref {
        Some(reference) => reference,
        None => {
            return Ok(None);
        },
    };
    if !has_text(reference.0.as_str()) {
        return Err(
            AuthPlanError::MissingCredentialRef {
                host: profile.host.clone(),
                authentication: profile.authentication,
            },
        );
    }
    let lookup = vault.get(reference);
    match secret_from_lookup(profile, lookup) {
        Ok(secret) => Ok(Some(secret)),
        Err(e) => Err(e),
    }
}

impl<Secret, Signer> AuthPlan<Secret, Signer> {
    /// Builds a plan from application-provided material without reading a vault; the
    /// optional secret moves into the plan (see `spec_from_secret`).
    pub fn from_secret(profile: &ConnectionProfile, secret: Option<Secret>) -> (r: Result<
        Self,
        AuthPlanError,
    >)
        ensures
            r == spec_from_secret::<Secret, Signer>(*profile, secret),
            spec_belongs_to(r, *profile),
    {
        proof {
            lemma_from_secret_belongs_to_profile::<Secret, Signer>(*profile, secret);
        }
        if !supported_combination(profile.transport, profile.authentication) {
            return Err(unsupported(profile));
        }
        let host = profile.host.clone();
        match profile.authentication {
            AuthenticationKind::Password => match secret {
                Some(password) => Ok(AuthPlan::Password { host, password }),
                None => Err(
                    AuthPlanError::CredentialMissing {
                        host: profile.host.clone(),
                        authentication: profile.authentication,
                    },
                ),
            },
            AuthenticationKind::PublicKey => match identity_file(profile) {
                Some(identity_file) => Ok(
                    AuthPlan::PublicKey { host, identity_file, passphrase: secret },
                ),
                None => Err(
                    AuthPlanError::MissingIdentityFile {
                        host,
                        authentication: profile.authentication,
                    },
                ),
            },
            AuthenticationKind::Agent => Ok(AuthPlan::Agent { host }),
            AuthenticationKind::KeyboardInteractive => Ok(AuthPlan::KeyboardInteractive { host }),
        }
    }

    /// Builds a public-key plan from a private key held in memory; the identity file is not
    /// read. Only a supported public-key profile accepts one.
    pub fn from_private_key(profile: &ConnectionProfile, key: Arc<russh::keys::PrivateKey>) -> (r:
        Result<Self, AuthPlanError>)
        ensures
            spec_belongs_to(r, *profile),
            match spec_require_public_key(*profile) {
                Some(e) => r == Err::<Self, AuthPlanError>(e),
                None => r == Ok::<Self, AuthPlanError>(
                    AuthPlan::PrivateKey { host: profile.host, key },
                ),
            },
    {
        require_public_key(profile)?;
        Ok(AuthPlan::PrivateKey { host: profile.host.clone(), key })
    }

    /// Builds a public-key plan that signs with `signer`, holding the private key of
    /// `public_key`; the identity file is not read. Only a supported public-key profile
    /// accepts one.
    pub fn from_signer(
        profile: &ConnectionProfile,
        public_key: russh::keys::PublicKey,
        signer: Signer,
    ) -> (r: Result<Self, AuthPlanError>)
        ensures
            spec_belongs_to(r, *profile),
            match spec_require_public_key(*profile) {
                Some(e) => r == Err::<Self, AuthPlanError>(e),
                None => r == Ok::<Self, AuthPlanError>(
                    AuthPlan::Signer { host: profile.host, public_key, signer },
                ),
            },
    {
        require_public_key(profile)?;
        Ok(AuthPlan::Signer { host: profile.host.clone(), public_key, signer })
    }

    /// Builds a plan for the profile, reading its secret from `vault`: agent and
    /// keyboard-interactive plans need no secret; a password plan needs the secret its
    /// credential reference names; a key-file plan needs an identity file and, when the profile
    /// names a credential reference, the passphrase it names. What the vault returns decides
    /// the outcome where it is asked (see `spec_secret_from_lookup`).
    pub fn from_profile<V: CredentialVault<Secret = Secret>>(
        profile: &ConnectionProfile,
        vault: &V,
    ) -> (r: Result<Self, AuthPlanError>)
        ensures
            spec_belongs_to(r, *profile),
            !spec_supported_combination(profile.transport, profile.authentication) ==> r == Err::<
                Self,
                AuthPlanError,
            >(spec_unsupported(*profile)),
            spec_supported_combination(profile.transport, profile.authentication) ==> {
                let host = profile.host;
                let authentication = profile.authentication;
                match authentication {
                    AuthenticationKind::Agent => r == Ok::<Self, AuthPlanError>(
                        AuthPlan::Agent { host },
                    ),
                    AuthenticationKind::KeyboardInteractive => r == Ok::<Self, AuthPlanError>(
                        AuthPlan::KeyboardInteractive { host },
                    ),
                    AuthenticationKind::Password => if !spec_usable_ref(*profile) {
                        r == Err::<Self, AuthPlanError>(
                            AuthPlanError::MissingCredentialRef { host, authentication },
                        )
                    } else {
                        exists|lookup: Result<Option<Secret>, VaultError>|
                            vault.answers(profile.credential_ref->0, lookup) && r == match #[trigger] spec_secret_from_lookup(*profile, lookup) {
                                Ok(password) => Ok::<Self, AuthPlanError>(AuthPlan::Password { host, password }),
                                Err(e) => Err(e),
                            }
                    },
                    AuthenticationKind::PublicKey => match spec_identity_file(*profile) {
                        None => r == Err::<Self, AuthPlanError>(
                            AuthPlanError::MissingIdentityFile { host, authentication },
                        ),
                        Some(identity_file) => if profile.credential_ref is None {
                            r == Ok::<Self, AuthPlanError>(
                                AuthPlan::PublicKey { host, identity_file, passphrase: None },
                            )
                        } else if !spec_usable_ref(*profile) {
                            r == Err::<Self, AuthPlanError>(
                                AuthPlanError::MissingCredentialRef { host, authentication },
                            )
                        } else {
                            exists|lookup: Result<Option<Secret>, VaultError>|
                                vault.answers(profile.credential_ref->0, lookup) && r == match #[trigger] spec_secret_from_lookup(*profile, lookup) {
                                    Ok(passphrase) => Ok::<Self, AuthPlanError>(
                                        AuthPlan::PublicKey {
                                            host,
                                            identity_file,
                                            passphrase: Some(passphrase),
                                        },
                                    ),
                                    Err(e) => Err(e),
                                }
                        },
                    },
                }
            },
    {
        if !supported_combination(profile.transport, profile.authentication) {
            return Err(unsupported(profile));
        }
        let host = profile.host.clone();
        match profile.authentication {
            AuthenticationKind::Password => {
                let password = required_secret(profile, vault)?;
                Ok(AuthPlan::Password { host, password })
            },
            AuthenticationKind::PublicKey => {
                let identity_file = match identity_file(profile) {
                    Some(identity_file) => identity_file,
                    None => {
                        return Err(
                            AuthPlanError::MissingIdentityFile {
                                host,
                                authentication: profile.authentication,
                            },
                        );
                    },
                };
                let passphrase = optional_secret(profile, vault)?;
                Ok(AuthPlan::PublicKey { host, identity_file, passphrase })
            },
            AuthenticationKind::Agent => Ok(AuthPlan::Agent { host }),
            AuthenticationKind::KeyboardInteractive => Ok(AuthPlan::KeyboardInteractive { host }),
        }
    }

    /// The kind of authentication the plan performs.
    pub fn kind(&self) -> (r: AuthenticationKind)
        ensures
            r == spec_kind(*self),
    {
        match self {
            AuthPlan::Password { .. } => AuthenticationKind::Password,
            AuthPlan::PublicKey { .. } | AuthPlan::PrivateKey { .. } | AuthPlan::Signer { .. } => {
                AuthenticationKind::PublicKey
            },
            AuthPlan::Agent { .. } => AuthenticationKind::Agent,
            AuthPlan::KeyboardInteractive { .. } => AuthenticationKind::KeyboardInteractive,
        }
    }

    /// The host the plan authenticates to.
    pub fn host(&self) -> (r: &str)
        ensures
            r@ == spec_host(*self)@,
    {
        match self {
            AuthPlan::Password { host, .. } => host.as_str(),
            AuthPlan::PublicKey { host, .. } => host.as_str(),
            AuthPlan::PrivateKey { host, .. } => host.as_str(),
            AuthPlan::Signer { host, .. } => host.as_str(),
            AuthPlan::Agent { host } => host.as_str(),
            AuthPlan::KeyboardInteractive { host } => host.as_str(),
        }
    }
}

} // verus!
