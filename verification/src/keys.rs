//! Signing key pairs and the protocol that loads or creates a key file.

use vstd::prelude::*;

verus! {

#[verifier::external_type_specification]
#[verifier::external_body]
pub struct ExKeyRejected(ring::error::KeyRejected);

#[verifier::external_type_specification]
#[verifier::external_body]
pub struct ExUnspecified(ring::error::Unspecified);

/// The public key that `ring` derives from a PKCS#8 document holding an
/// Ed25519 private key, if it accepts the document.
pub uninterp spec fn ed25519_public_key(pkcs8: Seq<u8>) -> Option<Seq<u8>>;

/// The URL-safe base64 text, without padding, of some bytes.
pub uninterp spec fn base64url(bytes: Seq<u8>) -> Seq<char>;

/// Calls `ring::signature::Ed25519KeyPair::from_pkcs8` and copies the public
/// key out of the pair. Not proved: acceptance and the key are only given
/// their name.
#[verifier::external_body]
fn pkcs8_public_key(pkcs8: &[u8]) -> (parsed: Result<Vec<u8>, ring::error::KeyRejected>)
    ensures
        match parsed {
            Ok(public) => ed25519_public_key(pkcs8@) == Some(public@),
            Err(_) => ed25519_public_key(pkcs8@) is None,
        },
{
    let pair = ring::signature::Ed25519KeyPair::from_pkcs8(pkcs8)?;
    Ok(ring::signature::KeyPair::public_key(&pair).as_ref().to_vec())
}

/// Calls `ring::signature::Ed25519KeyPair::generate_pkcs8` with the system's
/// random source. The document depends on randomness, so nothing is claimed
/// of it.
#[verifier::external_body]
fn random_pkcs8() -> (generated: Result<Vec<u8>, ring::error::Unspecified>)
{
    let rng = ring::rand::SystemRandom::new();
    Ok(ring::signature::Ed25519KeyPair::generate_pkcs8(&rng)?.as_ref().to_vec())
}

/// Calls `encode` of `base64`'s URL-safe engine without padding. Not proved:
/// the result is only given its name.
#[verifier::external_body]
fn base64url_encode(bytes: &[u8]) -> (text: String)
    ensures
        text@ == base64url(bytes@),
{
    base64::Engine::encode(&base64::prelude::BASE64_URL_SAFE_NO_PAD, bytes)
}

/// Why a key could not be had.
#[derive(Clone, Copy, Debug, PartialEq, Eq, Structural)]
pub enum KeyError {
    /// The key file holds no acceptable private key.
    Rejected,
    /// The random source failed.
    Generation,
    /// The key file was opened but could not be read.
    ReadFailed,
    /// The new key could not be written to its file.
    WriteFailed,
    /// The key file can neither be read nor created.
    Unavailable,
    /// No key was given, so there would be none to sign with.
    NoKeys,
    /// The protocol was handed an event that its state does not expect.
    OutOfOrder,
}

/// One signing key pair.
///
/// The private document never leaves the pair: no method hands it out.
pub struct JwtKeyPair {
    pkcs8: Vec<u8>,
    public_key: Vec<u8>,
    x: String,
}

impl JwtKeyPair {
    /// The private PKCS#8 document.
    pub closed spec fn private_document(&self) -> Seq<u8> {
        self.pkcs8@
    }

    /// The raw public key.
    pub closed spec fn public_bytes(&self) -> Seq<u8> {
        self.public_key@
    }

    /// The public key as it is published.
    pub closed spec fn x_text(&self) -> Seq<char> {
        self.x@
    }

    #[verifier::type_invariant]
    pub open spec fn sound(self) -> bool {
        self.wf()
    }

    /// The public half belongs to the private one, and `x` encodes it. This
    /// holds of every pair that exists: a pair is only made by `from_pkcs8`.
    pub open spec fn wf(&self) -> bool {
        &&& ed25519_public_key(self.private_document()) == Some(self.public_bytes())
        &&& self.x_text() == base64url(self.public_bytes())
    }

    /// Reads a key pair from a PKCS#8 document.
    pub fn from_pkcs8(pkcs8: Vec<u8>) -> (pair: Result<JwtKeyPair, KeyError>)
        ensures
            match pair {
                Ok(p) => p.wf() && p.private_document() == pkcs8@,
                Err(e) => e == KeyError::Rejected && ed25519_public_key(pkcs8@) is None,
            },
    {
        match pkcs8_public_key(pkcs8.as_slice()) {
            Ok(public_key) => {
                let x = base64url_encode(public_key.as_slice());
                Ok(JwtKeyPair { pkcs8, public_key, x })
            },
            Err(_) => Err(KeyError::Rejected),
        }
    }

    pub fn x(&self) -> (text: &String)
        ensures
            text@ == self.x_text(),
    {
        &self.x
    }

    pub fn public_key(&self) -> (bytes: &Vec<u8>)
        ensures
            bytes@ == self.public_bytes(),
    {
        &self.public_key
    }

    /// The private document, for signing inside the library only.
    pub(crate) fn private_key(&self) -> (bytes: &Vec<u8>)
        ensures
            bytes@ == self.private_document(),
    {
        &self.pkcs8
    }
}

/// Where the loading of one key file stands.
pub enum KeyFileState {
    /// Nothing was asked yet.
    Start,
    /// The file is being opened and read.
    Reading,
    /// The file is being created, exclusively.
    Creating,
    /// A fresh document is being written to the created file.
    Writing { pkcs8: Vec<u8> },
    /// The protocol has ended.
    Closed,
}

/// What the file system answered.
pub enum KeyFileEvent {
    Begin,
    /// The file exists and held these bytes.
    Read { contents: Vec<u8> },
    /// The file exists but reading it failed.
    ReadFailed,
    /// The file could not be opened for reading.
    Missing,
    /// The file was created and did not exist before.
    Created,
    /// The file could not be created.
    CreateFailed,
    Written,
    WriteFailed,
}

/// What the caller does next.
pub enum KeyFileAction {
    OpenForRead,
    CreateNew,
    Write { pkcs8: Vec<u8> },
    Use { pair: JwtKeyPair },
    Fail { error: KeyError },
}

/// The outcome when a stored or freshly written document is taken into use.
pub open spec fn adopts(pkcs8: Seq<u8>, state: KeyFileState, action: KeyFileAction) -> bool {
    &&& state is Closed
    &&& match action {
        KeyFileAction::Use { pair } => pair.wf() && pair.private_document() == pkcs8,
        KeyFileAction::Fail { error } => error == KeyError::Rejected && ed25519_public_key(
            pkcs8,
        ) is None,
        _ => false,
    }
}

/// The protocol ends with this error.
pub open spec fn fails_with(error: KeyError, state: KeyFileState, action: KeyFileAction) -> bool {
    state is Closed && action == (KeyFileAction::Fail { error })
}

/// The step taken once the random source has answered, after the file was
/// created: a document is written next, a failure ends the protocol.
pub open spec fn after_generation(
    generated: Option<Seq<u8>>,
    state: KeyFileState,
    action: KeyFileAction,
) -> bool {
    match generated {
        Some(document) => {
            &&& state matches KeyFileState::Writing { pkcs8 }
            &&& pkcs8@ == document
            &&& action matches KeyFileAction::Write { pkcs8: written }
            &&& written@ == document
        },
        None => fails_with(KeyError::Generation, state, action),
    }
}

/// The step for every pair of state and event but the creation of the file,
/// whose outcome depends on the random source.
pub open spec fn key_file_rule(
    state: KeyFileState,
    event: KeyFileEvent,
    next: KeyFileState,
    action: KeyFileAction,
) -> bool {
    match (state, event) {
        (KeyFileState::Start, KeyFileEvent::Begin) => next is Reading
            && action is OpenForRead,
        (KeyFileState::Reading, KeyFileEvent::Read { contents }) => adopts(
            contents@,
            next,
            action,
        ),
        (KeyFileState::Reading, KeyFileEvent::ReadFailed) => fails_with(
            KeyError::ReadFailed,
            next,
            action,
        ),
        (KeyFileState::Reading, KeyFileEvent::Missing) => next is Creating
            && action is CreateNew,
        (KeyFileState::Creating, KeyFileEvent::Created) => exists|generated: Option<Seq<u8>>|
            after_generation(generated, next, action),
        (KeyFileState::Creating, KeyFileEvent::CreateFailed) => fails_with(
            KeyError::Unavailable,
            next,
            action,
        ),
        (KeyFileState::Writing { pkcs8 }, KeyFileEvent::Written) => adopts(pkcs8@, next, action),
        (KeyFileState::Writing { .. }, KeyFileEvent::WriteFailed) => fails_with(
            KeyError::WriteFailed,
            next,
            action,
        ),
        _ => fails_with(KeyError::OutOfOrder, next, action),
    }
}

/// Takes a document into use, or rejects it.
pub fn adopt_document(pkcs8: Vec<u8>) -> (step: (KeyFileState, KeyFileAction))
    ensures
        adopts(pkcs8@, step.0, step.1),
{
    match JwtKeyPair::from_pkcs8(pkcs8) {
        Ok(pair) => (KeyFileState::Closed, KeyFileAction::Use { pair }),
        Err(error) => (KeyFileState::Closed, KeyFileAction::Fail { error }),
    }
}

/// Decides what follows the answer of the random source.
pub fn write_generated(generated: Option<Vec<u8>>) -> (step: (KeyFileState, KeyFileAction))
    ensures
        after_generation(
            match generated {
                Some(document) => Some(document@),
                None => None,
            },
            step.0,
            step.1,
        ),
{
    match generated {
        Some(document) => {
            let pkcs8 = document.clone();
            (KeyFileState::Writing { pkcs8 }, KeyFileAction::Write { pkcs8: document })
        },
        None => (KeyFileState::Closed, KeyFileAction::Fail { error: KeyError::Generation }),
    }
}

/// One step of loading a key file, or of creating it when it is absent.
///
/// An existing file is only ever read: a file that holds no acceptable key
/// ends the protocol with `Rejected` and is never replaced. A new document
/// is generated only after the file was created exclusively.
pub fn key_file_step(state: KeyFileState, event: KeyFileEvent) -> (step: (
    KeyFileState,
    KeyFileAction,
))
    ensures
        key_file_rule(state, event, step.0, step.1),
{
    match (state, event) {
        (KeyFileState::Start, KeyFileEvent::Begin) => (
            KeyFileState::Reading,
            KeyFileAction::OpenForRead,
        ),
        (KeyFileState::Reading, KeyFileEvent::Read { contents }) => adopt_document(contents),
        (KeyFileState::Reading, KeyFileEvent::ReadFailed) => (
            KeyFileState::Closed,
            KeyFileAction::Fail { error: KeyError::ReadFailed },
        ),
        (KeyFileState::Reading, KeyFileEvent::Missing) => (
            KeyFileState::Creating,
            KeyFileAction::CreateNew,
        ),
        (KeyFileState::Creating, KeyFileEvent::Created) => {
            let generated = match random_pkcs8() {
                Ok(document) => Some(document),
                Err(_) => None,
            };
            let step = write_generated(generated);
            step
        },
        (KeyFileState::Creating, KeyFileEvent::CreateFailed) => (
            KeyFileState::Closed,
            KeyFileAction::Fail { error: KeyError::Unavailable },
        ),
        (KeyFileState::Writing { pkcs8 }, KeyFileEvent::Written) => adopt_document(pkcs8),
        (KeyFileState::Writing { .. }, KeyFileEvent::WriteFailed) => (
            KeyFileState::Closed,
            KeyFileAction::Fail { error: KeyError::WriteFailed },
        ),
        _ => (KeyFileState::Closed, KeyFileAction::Fail { error: KeyError::OutOfOrder }),
    }
}

/// A key is written only into a file that was just created and did not
/// exist before, and it is used only once it stands in its file: as read
/// from there, or as written there. A file that exists is never written.
pub proof fn keys_are_persisted_and_never_replaced(
    state: KeyFileState,
    event: KeyFileEvent,
    next: KeyFileState,
    action: KeyFileAction,
)
    requires
        key_file_rule(state, event, next, action),
    ensures
        action is Write ==> state is Creating && event is Created,
        action is CreateNew ==> state is Reading && event is Missing,
        action is Use ==> (state is Reading && event is Read) || (state is Writing
            && event is Written),
        state is Reading && event is Read ==> action is Use || action == (KeyFileAction::Fail {
            error: KeyError::Rejected,
        }),
        (action matches KeyFileAction::Use { pair } ==> pair.wf()),
        action is Use || action is Fail <==> next is Closed,
{
}

/// The name of the file that holds the key of a key id.
pub open spec fn key_file_name(keys_path: Seq<char>, kid: u128) -> Seq<char> {
    keys_path + "/"@ + crate::ids::hyphenated(kid) + ".pem"@
}

pub fn key_file_path(keys_path: &str, kid: u128) -> (path: String)
    ensures
        path@ == key_file_name(keys_path@, kid),
{
    let mut path = keys_path.to_owned();
    path.append("/");
    let name = crate::ids::uuid_text(kid);
    path.append(name.as_str());
    path.append(".pem");
    path
}

} // verus!
