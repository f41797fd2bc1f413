use std::sync::Arc;

use rshell::auth::{
    has_path_text, supported_combination, AuthPlan, AuthPlanError, AuthenticationKind,
    ConnectionProfile, CredentialRef, CredentialVault, ExternalSignerError, TransportKind,
    VaultError,
};
use russh::keys::ssh_key::private::Ed25519Keypair;
use russh::keys::PrivateKey;
use secrecy::{ExposeSecret, SecretString};

type Plan = AuthPlan<SecretString, ()>;

fn profile(
    transport: TransportKind,
    authentication: AuthenticationKind,
    identity_file: Option<&str>,
    credential_ref: Option<&str>,
) -> ConnectionProfile {
    ConnectionProfile {
        host: "example.org".into(),
        transport,
        authentication,
        identity_file: identity_file.map(String::from),
        credential_ref: credential_ref.map(|r| CredentialRef(r.into())),
    }
}

fn secret(text: &str) -> SecretString {
    SecretString::from(text.to_string())
}

enum Answer {
    Secret(&'static str),
    Nothing,
    Fault,
}

struct FixedVault {
    answer: Answer,
}

impl CredentialVault for FixedVault {
    type Secret = SecretString;

    fn answers(
        &self,
        reference: CredentialRef,
        result: Result<Option<SecretString>, VaultError>,
    ) -> bool {
        reference.0 == "vault/ref"
            && match (&self.answer, result) {
                (Answer::Secret(text), Ok(Some(secret))) => secret.expose_secret() == *text,
                (Answer::Nothing, Ok(None)) => true,
                (Answer::Fault, Err(error)) => error.message == "locked",
                _ => false,
            }
    }

    fn get(&self, reference: &CredentialRef) -> Result<Option<SecretString>, VaultError> {
        assert_eq!(reference.0, "vault/ref");
        match self.answer {
            Answer::Secret(text) => Ok(Some(secret(text))),
            Answer::Nothing => Ok(None),
            Answer::Fault => Err(VaultError { message: "locked".into() }),
        }
    }
}

fn private_key() -> PrivateKey {
    PrivateKey::from(Ed25519Keypair::from_seed(&[7u8; 32]))
}

#[test]
fn supported_combinations_follow_the_transport() {
    let all = [
        AuthenticationKind::Password,
        AuthenticationKind::PublicKey,
        AuthenticationKind::Agent,
        AuthenticationKind::KeyboardInteractive,
    ];
    for kind in all {
        assert!(supported_combination(TransportKind::NativeSsh, kind));
    }
    assert!(supported_combination(TransportKind::SystemOpenSsh, AuthenticationKind::Agent));
    assert!(supported_combination(TransportKind::SystemOpenSsh, AuthenticationKind::PublicKey));
    assert!(!supported_combination(TransportKind::SystemOpenSsh, AuthenticationKind::Password));
    assert!(!supported_combination(
        TransportKind::SystemOpenSsh,
        AuthenticationKind::KeyboardInteractive
    ));
}

#[test]
fn path_text_ignores_surrounding_whitespace() {
    assert!(has_path_text("~/.ssh/id_ed25519"));
    assert!(has_path_text("  key "));
    assert!(!has_path_text(""));
    assert!(!has_path_text(" \t\n\u{3000}\u{a0}"));
}

#[test]
fn from_secret_moves_the_password_into_the_plan() {
    let p = profile(TransportKind::NativeSsh, AuthenticationKind::Password, None, None);
    match Plan::from_secret(&p, Some(secret("hunter2"))).unwrap() {
        AuthPlan::Password { host, password } => {
            assert_eq!(host, "example.org");
            assert_eq!(password.expose_secret(), "hunter2");
        }
        _ => panic!("expected a password plan"),
    }
    assert_eq!(
        Plan::from_secret(&p, None).err().unwrap(),
        AuthPlanError::CredentialMissing {
            host: "example.org".into(),
            authentication: AuthenticationKind::Password,
        }
    );
}

#[test]
fn from_secret_refuses_unsupported_combinations() {
    let p = profile(TransportKind::SystemOpenSsh, AuthenticationKind::Password, None, None);
    assert_eq!(
        Plan::from_secret(&p, Some(secret("x"))).err().unwrap(),
        AuthPlanError::UnsupportedCombination {
            host: "example.org".into(),
            transport: TransportKind::SystemOpenSsh,
            authentication: AuthenticationKind::Password,
        }
    );
}

#[test]
fn from_secret_key_file_needs_an_identity_path_with_text() {
    let p = profile(TransportKind::SystemOpenSsh, AuthenticationKind::PublicKey, Some("  "), None);
    assert_eq!(
        Plan::from_secret(&p, None).err().unwrap(),
        AuthPlanError::MissingIdentityFile {
            host: "example.org".into(),
            authentication: AuthenticationKind::PublicKey,
        }
    );
    let p = profile(TransportKind::SystemOpenSsh, AuthenticationKind::PublicKey, Some("id"), None);
    match Plan::from_secret(&p, Some(secret("pass"))).unwrap() {
        AuthPlan::PublicKey { identity_file, passphrase, .. } => {
            assert_eq!(identity_file, "id");
            assert_eq!(passphrase.unwrap().expose_secret(), "pass");
        }
        _ => panic!("expected a key-file plan"),
    }
}

#[test]
fn agent_and_keyboard_interactive_need_no_secret() {
    let p = profile(TransportKind::SystemOpenSsh, AuthenticationKind::Agent, None, None);
    let plan = Plan::from_secret(&p, None).unwrap();
    assert_eq!(plan.kind(), AuthenticationKind::Agent);
    assert_eq!(plan.host(), "example.org");
    let p = profile(TransportKind::NativeSsh, AuthenticationKind::KeyboardInteractive, None, None);
    let plan = Plan::from_secret(&p, None).unwrap();
    assert_eq!(plan.kind(), AuthenticationKind::KeyboardInteractive);
}

#[test]
fn in_memory_key_and_signer_need_a_public_key_profile() {
    let p = profile(TransportKind::NativeSsh, AuthenticationKind::PublicKey, None, None);
    let key = Arc::new(private_key());
    let plan = Plan::from_private_key(&p, key.clone()).unwrap();
    assert_eq!(plan.kind(), AuthenticationKind::PublicKey);
    assert!(matches!(plan, AuthPlan::PrivateKey { ref key, .. } if key.public_key() == private_key().public_key()));

    let public_key = private_key().public_key().clone();
    let plan = Plan::from_signer(&p, public_key, ()).unwrap();
    assert_eq!(plan.kind(), AuthenticationKind::PublicKey);
    assert_eq!(plan.host(), "example.org");

    let agent = profile(TransportKind::NativeSsh, AuthenticationKind::Agent, None, None);
    assert_eq!(
        Plan::from_private_key(&agent, key).err().unwrap(),
        AuthPlanError::UnsupportedCombination {
            host: "example.org".into(),
            transport: TransportKind::NativeSsh,
            authentication: AuthenticationKind::Agent,
        }
    );
}

#[test]
fn from_profile_reads_the_password_from_the_vault() {
    let p = profile(TransportKind::NativeSsh, AuthenticationKind::Password, None, Some("vault/ref"));
    let vault = FixedVault { answer: Answer::Secret("s3cret") };
    match AuthPlan::<SecretString, ()>::from_profile(&p, &vault).unwrap() {
        AuthPlan::Password { password, .. } => assert_eq!(password.expose_secret(), "s3cret"),
        _ => panic!("expected a password plan"),
    }
    let reference = CredentialRef("vault/ref".into());
    assert!(vault.answers(reference.clone(), vault.get(&reference)));
    let missing = FixedVault { answer: Answer::Nothing };
    assert_eq!(
        AuthPlan::<SecretString, ()>::from_profile(&p, &missing).err().unwrap(),
        AuthPlanError::CredentialMissing {
            host: "example.org".into(),
            authentication: AuthenticationKind::Password,
        }
    );
    let faulty = FixedVault { answer: Answer::Fault };
    assert_eq!(
        AuthPlan::<SecretString, ()>::from_profile(&p, &faulty).err().unwrap(),
        AuthPlanError::CredentialFault {
            host: "example.org".into(),
            authentication: AuthenticationKind::Password,
            vault: VaultError { message: "locked".into() },
        }
    );
}

#[test]
fn from_profile_password_needs_a_credential_reference_with_text() {
    let vault = FixedVault { answer: Answer::Secret("unused") };
    for reference in [None, Some(" ")] {
        let p = profile(TransportKind::NativeSsh, AuthenticationKind::Password, None, reference);
        assert_eq!(
            AuthPlan::<SecretString, ()>::from_profile(&p, &vault).err().unwrap(),
            AuthPlanError::MissingCredentialRef {
                host: "example.org".into(),
                authentication: AuthenticationKind::Password,
            }
        );
    }
}

#[test]
fn from_profile_key_file_passphrase_is_optional() {
    let vault = FixedVault { answer: Answer::Secret("phrase") };
    let p = profile(TransportKind::NativeSsh, AuthenticationKind::PublicKey, Some("id"), None);
    match AuthPlan::<SecretString, ()>::from_profile(&p, &vault).unwrap() {
        AuthPlan::PublicKey { passphrase, .. } => assert!(passphrase.is_none()),
        _ => panic!("expected a key-file plan"),
    }
    let p = profile(TransportKind::NativeSsh, AuthenticationKind::PublicKey, Some("id"), Some("vault/ref"));
    match AuthPlan::<SecretString, ()>::from_profile(&p, &vault).unwrap() {
        AuthPlan::PublicKey { passphrase, .. } => {
            assert_eq!(passphrase.unwrap().expose_secret(), "phrase")
        }
        _ => panic!("expected a key-file plan"),
    }
    let p = profile(TransportKind::NativeSsh, AuthenticationKind::PublicKey, Some("id"), Some(""));
    assert_eq!(
        AuthPlan::<SecretString, ()>::from_profile(&p, &vault).err().unwrap(),
        AuthPlanError::MissingCredentialRef {
            host: "example.org".into(),
            authentication: AuthenticationKind::PublicKey,
        }
    );
    let missing = FixedVault { answer: Answer::Nothing };
    let p = profile(TransportKind::NativeSsh, AuthenticationKind::PublicKey, Some("id"), Some("vault/ref"));
    assert_eq!(
        AuthPlan::<SecretString, ()>::from_profile(&p, &missing).err().unwrap(),
        AuthPlanError::CredentialMissing {
            host: "example.org".into(),
            authentication: AuthenticationKind::PublicKey,
        }
    );
    let p = profile(TransportKind::NativeSsh, AuthenticationKind::PublicKey, None, Some("vault/ref"));
    assert_eq!(
        AuthPlan::<SecretString, ()>::from_profile(&p, &vault).err().unwrap(),
        AuthPlanError::MissingIdentityFile {
            host: "example.org".into(),
            authentication: AuthenticationKind::PublicKey,
        }
    );
}

#[test]
fn external_signer_error_describes_itself() {
    assert_eq!(ExternalSignerError.message(), "external signer failed");
}
