//! Validation of the access-point parameters, and the configuration that
//! the radio subsystem is handed once they are accepted.
//!
//! Lengths are lengths in bytes of the UTF-8 text.

use vstd::prelude::*;
use vstd::utf8::{encode_utf8, is_ascii_chars_encode_utf8};

verus! {

/// The longest network identity, in bytes.
pub const MAX_SSID_BYTES: usize = 32;

/// The shortest credential of a protected network, in bytes.
pub const MIN_PASSWORD_BYTES: usize = 8;

/// The longest credential of a protected network, in bytes.
pub const MAX_PASSWORD_BYTES: usize = 63;

/// The lowest supported channel.
pub const MIN_CHANNEL: u8 = 1;

/// The highest supported channel.
pub const MAX_CHANNEL: u8 = 13;

/// How many stations may be connected at once.
pub const MAX_CONNECTIONS: u16 = 4;

/// The channel of the default access point.
pub const DEFAULT_CHANNEL: u8 = 1;

/// Why parameters were refused.
#[derive(Clone, Copy, Debug, PartialEq, Eq, Structural)]
pub enum ValidationError {
    /// The identity is longer than 32 bytes.
    IdentityTooLong,
    /// A credential is given and is shorter than 8 or longer than 63 bytes.
    CredentialLengthInvalid,
    /// The channel is not one of 1 to 13.
    ChannelOutOfRange,
}

/// How stations authenticate.
#[derive(Clone, Copy, Debug, PartialEq, Eq, Structural)]
pub enum AuthMethod {
    /// Open network.
    Open,
    /// One pre-shared key.
    WPA2Personal,
}

/// Parameters that passed validation. An empty credential means an open
/// network.
#[derive(Clone, Debug, PartialEq, Eq)]
pub struct NetworkParameters {
    pub identity: String,
    pub credential: String,
    pub channel: u8,
}

/// What a `NetworkParameters` holds, as plain text and numbers.
pub struct ParametersView {
    pub identity: Seq<char>,
    pub credential: Seq<char>,
    pub channel: u8,
}

/// The access-point configuration for the radio subsystem, with its
/// strings in the bounded buffers that the radio takes.
pub struct ApConfig {
    pub ssid: heapless::String<32>,
    pub auth_method: AuthMethod,
    pub password: heapless::String<64>,
    pub channel: u8,
    pub ssid_hidden: bool,
    pub max_connections: u16,
}

/// What an `ApConfig` holds, as plain text and numbers.
pub struct ApConfigView {
    pub ssid: Seq<char>,
    pub auth_method: AuthMethod,
    pub password: Seq<char>,
    pub channel: u8,
    pub ssid_hidden: bool,
    pub max_connections: u16,
}

#[verifier::external_type_specification]
#[verifier::external_body]
pub struct ExBoundedString<const N: usize>(heapless::String<N>);

/// The text that a 32-byte bounded string holds.
pub uninterp spec fn ssid_text(buffer: heapless::String<32>) -> Seq<char>;

/// The text that a 64-byte bounded string holds.
pub uninterp spec fn password_text(buffer: heapless::String<64>) -> Seq<char>;

/// The length of `text` in bytes.
pub open spec fn byte_len(text: Seq<char>) -> nat {
    encode_utf8(text).len()
}

/// The credential that counts: none given is the same as an empty one.
pub open spec fn credential_of(password: Option<&str>) -> Seq<char> {
    match password {
        Some(text) => text@,
        None => Seq::empty(),
    }
}

/// The first rule that the parameters break, if any: identity, then
/// credential, then channel.
pub open spec fn rejection(identity: Seq<char>, credential: Seq<char>, channel: u8) -> Option<
    ValidationError,
> {
    if byte_len(identity) > MAX_SSID_BYTES {
        Some(ValidationError::IdentityTooLong)
    } else if credential.len() > 0 && !(MIN_PASSWORD_BYTES <= byte_len(credential)
        <= MAX_PASSWORD_BYTES) {
        Some(ValidationError::CredentialLengthInvalid)
    } else if !(MIN_CHANNEL <= channel <= MAX_CHANNEL) {
        Some(ValidationError::ChannelOutOfRange)
    } else {
        None
    }
}

/// What validation owes for given parameters.
pub open spec fn validated(identity: Seq<char>, credential: Seq<char>, channel: u8) -> Result<
    ParametersView,
    ValidationError,
> {
    match rejection(identity, credential, channel) {
        Some(error) => Err(error),
        None => Ok(ParametersView { identity, credential, channel }),
    }
}

/// The configuration that accepted parameters turn into.
pub open spec fn config_for(parameters: ParametersView) -> ApConfigView {
    ApConfigView {
        ssid: parameters.identity,
        auth_method: if parameters.credential.len() > 0 {
            AuthMethod::WPA2Personal
        } else {
            AuthMethod::Open
        },
        password: parameters.credential,
        channel: parameters.channel,
        ssid_hidden: false,
        max_connections: MAX_CONNECTIONS,
    }
}

/// The parameters of the default access point: a protected network on
/// the first channel.
pub open spec fn default_parameters() -> ParametersView {
    ParametersView {
        identity: "ESP32-S3-DEMO"@,
        credential: "password123"@,
        channel: DEFAULT_CHANNEL,
    }
}

/// Whether `result` is what `validate` may return for the given
/// parameters.
pub open spec fn validate_admits(
    identity: Seq<char>,
    credential: Seq<char>,
    channel: u8,
    result: Result<NetworkParameters, ValidationError>,
) -> bool {
    match result {
        Ok(parameters) => validated(identity, credential, channel) == Ok::<
            ParametersView,
            ValidationError,
        >(parameters@),
        Err(error) => validated(identity, credential, channel) == Err::<
            ParametersView,
            ValidationError,
        >(error),
    }
}

/// What a result of `validate` says, as plain values.
pub open spec fn result_view(result: Result<NetworkParameters, ValidationError>) -> Result<
    ParametersView,
    ValidationError,
> {
    match result {
        Ok(parameters) => Ok(parameters@),
        Err(error) => Err(error),
    }
}

impl View for NetworkParameters {
    type V = ParametersView;

    open spec fn view(&self) -> ParametersView {
        ParametersView {
            identity: self.identity@,
            credential: self.credential@,
            channel: self.channel,
        }
    }
}

impl View for ApConfig {
    type V = ApConfigView;

    open spec fn view(&self) -> ApConfigView {
        ApConfigView {
            ssid: ssid_text(self.ssid),
            auth_method: self.auth_method,
            password: password_text(self.password),
            channel: self.channel,
            ssid_hidden: self.ssid_hidden,
            max_connections: self.max_connections,
        }
    }
}

impl ValidationError {
    /// A reason fit for a startup log.
    pub fn message(&self) -> (text: &'static str)
        ensures
            text@ == match *self {
                ValidationError::IdentityTooLong => "SSID too long (max 32 bytes)"@,
                ValidationError::CredentialLengthInvalid => "WPA2 password must be 8..=63 bytes"@,
                ValidationError::ChannelOutOfRange => "channel must be 1..=13"@,
            },
    {
        match self {
            ValidationError::IdentityTooLong => "SSID too long (max 32 bytes)",
            ValidationError::CredentialLengthInvalid => "WPA2 password must be 8..=63 bytes",
            ValidationError::ChannelOutOfRange => "channel must be 1..=13",
        }
    }
}

impl NetworkParameters {
    /// The bounds that validation guarantees.
    pub open spec fn wf(&self) -> bool {
        rejection(self.identity@, self.credential@, self.channel) is None
    }

    /// Whether the network is open: no credential.
    pub fn is_open(&self) -> (open: bool)
        ensures
            open == (self.credential@.len() == 0),
    {
        self.credential.as_str().is_empty()
    }

    /// The configuration for the radio subsystem: the identity and the
    /// credential in bounded buffers, WPA2 exactly when there is a
    /// credential, the identity broadcast, four stations at most.
    pub fn ap_config(&self) -> (config: ApConfig)
        requires
            self.wf(),
        ensures
            config@ == config_for(self@),
    {
        let mut ssid = ssid_buffer();
        let mut password = password_buffer();
        let open = self.is_open();
        assert(byte_len(Seq::<char>::empty()) == 0);
        let stored = ssid_push(&mut ssid, self.identity.as_str());
        assert(stored is Ok);
        assert(ssid_text(ssid) =~= self.identity@);
        if !open {
            let kept = password_push(&mut password, self.credential.as_str());
            assert(kept is Ok);
        }
        assert(password_text(password) =~= self.credential@);
        ApConfig {
            ssid,
            auth_method: if open {
                AuthMethod::Open
            } else {
                AuthMethod::WPA2Personal
            },
            password,
            channel: self.channel,
            ssid_hidden: false,
            max_connections: MAX_CONNECTIONS,
        }
    }
}

/// `heapless::String::<32>::new`: an empty buffer.
#[verifier::external_body]
fn ssid_buffer() -> (buffer: heapless::String<32>)
    ensures
        ssid_text(buffer) == Seq::<char>::empty(),
{
    heapless::String::new()
}

/// `heapless::String::<64>::new`: an empty buffer.
#[verifier::external_body]
fn password_buffer() -> (buffer: heapless::String<64>)
    ensures
        password_text(buffer) == Seq::<char>::empty(),
{
    heapless::String::new()
}

/// `heapless::String::<32>::push_str`: appends `text` where the bytes held
/// and those of `text` together fit in 32, and otherwise fails and leaves
/// the buffer as it was.
#[verifier::external_body]
fn ssid_push(buffer: &mut heapless::String<32>, text: &str) -> (outcome: Result<(), ()>)
    ensures
        outcome is Ok <==> byte_len(ssid_text(*old(buffer))) + byte_len(text@) <= 32,
        outcome is Ok ==> ssid_text(*final(buffer)) == ssid_text(*old(buffer)) + text@,
        outcome is Err ==> ssid_text(*final(buffer)) == ssid_text(*old(buffer)),
{
    buffer.push_str(text)
}

/// `heapless::String::<64>::push_str`: appends `text` where the bytes held
/// and those of `text` together fit in 64, and otherwise fails and leaves
/// the buffer as it was.
#[verifier::external_body]
fn password_push(buffer: &mut heapless::String<64>, text: &str) -> (outcome: Result<(), ()>)
    ensures
        outcome is Ok <==> byte_len(password_text(*old(buffer))) + byte_len(text@) <= 64,
        outcome is Ok ==> password_text(*final(buffer)) == password_text(*old(buffer)) + text@,
        outcome is Err ==> password_text(*final(buffer)) == password_text(*old(buffer)),
{
    buffer.push_str(text)
}

/// Checks the parameters, in this order and stopping at the first rule
/// broken: the identity has at most 32 bytes; a credential that is given
/// and not empty has 8 to 63 bytes; the channel is one of 1 to 13.
/// Parameters that pass are returned as they were given, an absent
/// credential as the empty one.
pub fn validate(ssid: &str, password: Option<&str>, channel: u8) -> (result: Result<
    NetworkParameters,
    ValidationError,
>)
    ensures
        validate_admits(ssid@, credential_of(password), channel, result),
        result matches Ok(parameters) ==> parameters.wf(),
{
    if ssid.as_bytes().len() > MAX_SSID_BYTES {
        return Err(ValidationError::IdentityTooLong);
    }
    let credential: &str = match password {
        Some(text) => text,
        None => "",
    };
    proof {
        reveal_strlit("");
        assert(credential@ =~= credential_of(password));
    }
    if !credential.is_empty() {
        let length: usize = credential.as_bytes().len();
        if length < MIN_PASSWORD_BYTES || length > MAX_PASSWORD_BYTES {
            return Err(ValidationError::CredentialLengthInvalid);
        }
    }
    if channel < MIN_CHANNEL || channel > MAX_CHANNEL {
        return Err(ValidationError::ChannelOutOfRange);
    }
    Ok(NetworkParameters { identity: ssid.to_owned(), credential: credential.to_owned(), channel })
}

/// Validates the parameters and, where they pass, builds the
/// configuration for the radio subsystem from them.
pub fn build_ap_config(ssid: &str, password: Option<&str>, channel: u8) -> (result: Result<
    ApConfig,
    ValidationError,
>)
    ensures
        match result {
            Ok(config) => validated(ssid@, credential_of(password), channel) matches Ok(parameters)
                && config@ == config_for(parameters),
            Err(error) => validated(ssid@, credential_of(password), channel) == Err::<
                ParametersView,
                ValidationError,
            >(error),
        },
{
    match validate(ssid, password, channel) {
        Ok(parameters) => Ok(parameters.ap_config()),
        Err(error) => Err(error),
    }
}

/// The configuration of the default access point. Its parameters pass
/// validation, so there is no error to return.
pub fn default_ap_config() -> (config: ApConfig)
    ensures
        config@ == config_for(default_parameters()),
        config@.auth_method == AuthMethod::WPA2Personal,
{
    proof {
        reveal_strlit("ESP32-S3-DEMO");
        reveal_strlit("password123");
        is_ascii_chars_encode_utf8("ESP32-S3-DEMO"@);
        is_ascii_chars_encode_utf8("password123"@);
    }
    let built = build_ap_config("ESP32-S3-DEMO", Some("password123"), DEFAULT_CHANNEL);
    built.unwrap()
}

/// Validation has no hidden state: any two results that it may return for
/// the same parameters say the same.
pub proof fn lemma_validate_is_deterministic(
    identity: Seq<char>,
    credential: Seq<char>,
    channel: u8,
    first: Result<NetworkParameters, ValidationError>,
    second: Result<NetworkParameters, ValidationError>,
)
    requires
        validate_admits(identity, credential, channel, first),
        validate_admits(identity, credential, channel, second),
    ensures
        result_view(first) == result_view(second),
{
}

/// The rules never turn a string away for being exactly at a bound, and a
/// result is an error exactly when a rule is broken.
pub proof fn lemma_validated_ok_iff_within_bounds(
    identity: Seq<char>,
    credential: Seq<char>,
    channel: u8,
)
    ensures
        validated(identity, credential, channel) is Ok <==> {
            &&& byte_len(identity) <= 32
            &&& (credential.len() == 0 || 8 <= byte_len(credential) <= 63)
            &&& 1 <= channel <= 13
        },
{
}

} // verus!
