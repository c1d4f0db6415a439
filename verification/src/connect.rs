//! Putting a session together: resolving the signalling and ICE settings,
//! deriving the channel name, and the errors of the whole stack.
//!
//! The network steps themselves -- opening the WebSocket, running the
//! agreement, connecting and wrapping the transports -- are asynchronous
//! and live outside; what is decided from plain values is decided here.

use vstd::prelude::*;

use crate::agreement::{psk_derive, AgreementError, MAX_DERIVE_INPUT, PskAuthentication};
use crate::constants::{
    nonempty_parts, signal_default_region, signalling_server, split_on, strip_tag, stun_default_region,
    trim_nul,
};
use crate::crypto_stream::Chacha20Error;
use crate::encoding::base64_url_nopad;
use crate::error::TimeoutError;
use crate::ice::IceError;
use crate::pipe_stream::StreamError;
use crate::sctp::SctpError;
use crate::signalling::SignalingError;

verus! {

/// Which setting had no default when none was supplied.
#[derive(Debug, Clone, Copy, PartialEq, Eq, Structural)]
pub enum Constants {
    Signaling,
    Ice,
}

impl Constants {
    /// The setting's name in error text.
    pub fn text(&self) -> (r: String)
        ensures
            *self == Constants::Signaling ==> r@ == "signaling"@,
            *self == Constants::Ice ==> r@ == "ice"@,
    {
        match self {
            Constants::Signaling => "signaling".to_owned(),
            Constants::Ice => "ice".to_owned(),
        }
    }
}

/// Errors of session setup.
#[derive(Debug, PartialEq)]
pub enum ConnectError {
    /// The underlying transport failed.
    Io(String),
    /// A deadline elapsed.
    Timeout(TimeoutError),
    /// The signalling channel failed in a way that is not Io or timeout.
    SignalingError(SignalingError),
    /// The agreement phase failed with its own kind.
    AgreementError(AgreementError),
    /// A stream layer failed with its own kind.
    StreamError(StreamError),
    /// The reliable transport failed with its own kind.
    SctpError(SctpError),
    /// The record layer failed with its own kind.
    Chacha20Error(Chacha20Error),
    /// Neither the caller nor the built-in defaults supplied this setting.
    NoDefaultValue(Constants),
    /// The signalling URL did not parse; the payload describes the failure.
    BadSignalingUrl(String),
    /// An ICE URL did not parse; the payload describes the failure.
    BadIceUrl(String),
}

impl From<SignalingError> for ConnectError {
    fn from(value: SignalingError) -> (r: ConnectError) {
        match value {
            SignalingError::Io(e) => ConnectError::Io(e),
            SignalingError::Timeout(e) => ConnectError::Timeout(e),
            SignalingError::ProtocolError(e) => ConnectError::SignalingError(
                SignalingError::ProtocolError(e),
            ),
        }
    }
}

impl vstd::std_specs::convert::FromSpecImpl<SignalingError> for ConnectError {
    open spec fn obeys_from_spec() -> bool {
        true
    }

    open spec fn from_spec(v: SignalingError) -> Self {
        match v {
            SignalingError::Io(e) => ConnectError::Io(e),
            SignalingError::Timeout(e) => ConnectError::Timeout(e),
            SignalingError::ProtocolError(e) => ConnectError::SignalingError(
                SignalingError::ProtocolError(e),
            ),
        }
    }
}

impl From<AgreementError> for ConnectError {
    fn from(value: AgreementError) -> (r: ConnectError) {
        match value {
            AgreementError::Io(e) => ConnectError::Io(e),
            AgreementError::Timeout(e) => ConnectError::Timeout(e),
            AgreementError::SignalingError(e) => ConnectError::SignalingError(e),
            AgreementError::CryptoError => ConnectError::AgreementError(
                AgreementError::CryptoError,
            ),
            AgreementError::BadAuth(e) => ConnectError::AgreementError(AgreementError::BadAuth(e)),
        }
    }
}

impl vstd::std_specs::convert::FromSpecImpl<AgreementError> for ConnectError {
    open spec fn obeys_from_spec() -> bool {
        true
    }

    open spec fn from_spec(v: AgreementError) -> Self {
        match v {
            AgreementError::Io(e) => ConnectError::Io(e),
            AgreementError::Timeout(e) => ConnectError::Timeout(e),
            AgreementError::SignalingError(e) => ConnectError::SignalingError(e),
            AgreementError::CryptoError => ConnectError::AgreementError(
                AgreementError::CryptoError,
            ),
            AgreementError::BadAuth(e) => ConnectError::AgreementError(AgreementError::BadAuth(e)),
        }
    }
}

impl From<StreamError> for ConnectError {
    fn from(value: StreamError) -> (r: ConnectError) {
        match value {
            StreamError::Io(e) => ConnectError::Io(e),
            StreamError::Timeout(e) => ConnectError::Timeout(e),
            StreamError::SignalingError(e) => ConnectError::SignalingError(e),
            StreamError::Other(e) => ConnectError::StreamError(StreamError::Other(e)),
        }
    }
}

impl vstd::std_specs::convert::FromSpecImpl<StreamError> for ConnectError {
    open spec fn obeys_from_spec() -> bool {
        true
    }

    open spec fn from_spec(v: StreamError) -> Self {
        match v {
            StreamError::Io(e) => ConnectError::Io(e),
            StreamError::Timeout(e) => ConnectError::Timeout(e),
            StreamError::SignalingError(e) => ConnectError::SignalingError(e),
            StreamError::Other(e) => ConnectError::StreamError(StreamError::Other(e)),
        }
    }
}

impl From<SctpError> for ConnectError {
    fn from(value: SctpError) -> (r: ConnectError) {
        match value {
            SctpError::Io(e) => ConnectError::Io(e),
            SctpError::Timeout(e) => ConnectError::Timeout(e),
            SctpError::SignalingError(e) => ConnectError::SignalingError(e),
            SctpError::StreamError(e) => ConnectError::SctpError(SctpError::StreamError(e)),
            SctpError::AssociationClosedWithoutStream => ConnectError::SctpError(
                SctpError::AssociationClosedWithoutStream,
            ),
            SctpError::WebrtcSctpError(e) => ConnectError::SctpError(SctpError::WebrtcSctpError(e)),
        }
    }
}

impl vstd::std_specs::convert::FromSpecImpl<SctpError> for ConnectError {
    open spec fn obeys_from_spec() -> bool {
        true
    }

    open spec fn from_spec(v: SctpError) -> Self {
        match v {
            SctpError::Io(e) => ConnectError::Io(e),
            SctpError::Timeout(e) => ConnectError::Timeout(e),
            SctpError::SignalingError(e) => ConnectError::SignalingError(e),
            SctpError::StreamError(e) => ConnectError::SctpError(SctpError::StreamError(e)),
            SctpError::AssociationClosedWithoutStream => ConnectError::SctpError(
                SctpError::AssociationClosedWithoutStream,
            ),
            SctpError::WebrtcSctpError(e) => ConnectError::SctpError(SctpError::WebrtcSctpError(e)),
        }
    }
}

impl From<Chacha20Error> for ConnectError {
    fn from(value: Chacha20Error) -> (r: ConnectError) {
        match value {
            Chacha20Error::Io(e) => ConnectError::Io(e),
            Chacha20Error::Timeout(e) => ConnectError::Timeout(e),
            Chacha20Error::SignalingError(e) => ConnectError::SignalingError(e),
            Chacha20Error::StreamError(e) => ConnectError::StreamError(e),
            Chacha20Error::CryptoError => ConnectError::Chacha20Error(Chacha20Error::CryptoError),
        }
    }
}

impl vstd::std_specs::convert::FromSpecImpl<Chacha20Error> for ConnectError {
    open spec fn obeys_from_spec() -> bool {
        true
    }

    open spec fn from_spec(v: Chacha20Error) -> Self {
        match v {
            Chacha20Error::Io(e) => ConnectError::Io(e),
            Chacha20Error::Timeout(e) => ConnectError::Timeout(e),
            Chacha20Error::SignalingError(e) => ConnectError::SignalingError(e),
            Chacha20Error::StreamError(e) => ConnectError::StreamError(e),
            Chacha20Error::CryptoError => ConnectError::Chacha20Error(Chacha20Error::CryptoError),
        }
    }
}

impl IceError {
    /// The setup-level view of a connectivity error: its stream-level view,
    /// wrapped.
    pub fn into_connect(self) -> (r: ConnectError)
        ensures
            self matches IceError::Io(e) ==> r == ConnectError::Io(e),
            self matches IceError::Timeout(e) ==> r == ConnectError::Timeout(e),
            self matches IceError::SignalingError(e) ==> r == ConnectError::SignalingError(e),
            self matches IceError::BadHandshake(_) ==> r is StreamError,
            self matches IceError::IceError(m) ==> r == ConnectError::StreamError(
                StreamError::Other(m),
            ),
    {
        match self.into_stream() {
            StreamError::Io(e) => ConnectError::Io(e),
            StreamError::Timeout(e) => ConnectError::Timeout(e),
            StreamError::SignalingError(e) => ConnectError::SignalingError(e),
            StreamError::Other(e) => ConnectError::StreamError(StreamError::Other(e)),
        }
    }
}

/// The channel name derived from a base password: both peers compute it
/// with the fixed dialer role and the fixed `"channel"` label, before any
/// network step.
pub open spec fn channel_name(psk: Seq<char>) -> Seq<char> {
    base64_url_nopad(psk_derive(psk, true, "channel"@, 32))
}

/// Law: channel determinism.  The channel name is a function of the
/// password alone -- it uses a fixed role label -- so two peers holding the
/// same password derive byte-identical names.
pub proof fn lemma_channel_determinism(psk_a: Seq<char>, psk_b: Seq<char>)
    requires
        psk_a == psk_b,
    ensures
        channel_name(psk_a) == channel_name(psk_b),
{
}

/// The channel name for a base password.
pub fn channel_text(base_password: &str) -> (r: String)
    requires
        base_password@.len() <= MAX_DERIVE_INPUT,
    ensures
        r@ == channel_name(base_password@),
{
    proof {
        reveal_strlit("channel");
    }
    PskAuthentication::derive_text(base_password, true, "channel")
}

/// The signalling URL to use: the caller's, else the default, else an
/// error naming the missing setting.
pub fn resolve_signaling(cli: Option<String>, env: Option<String>) -> (r: Result<
    String,
    ConnectError,
>)
    ensures
        cli matches Some(v) ==> r == Ok::<String, ConnectError>(v),
        cli is None ==> match env {
            Some(v) => r == Ok::<String, ConnectError>(v),
            None => {
                if strip_tag(trim_nul(signal_default_region())).len() != 0 {
                    r matches Ok(v) && v@ == strip_tag(trim_nul(signal_default_region()))
                } else {
                    r == Err::<String, ConnectError>(
                        ConnectError::NoDefaultValue(Constants::Signaling),
                    )
                }
            },
        },
{
    match cli {
        Some(v) => Ok(v),
        None => match signalling_server(env) {
            Some(v) => Ok(v),
            None => Err(ConnectError::NoDefaultValue(Constants::Signaling)),
        },
    }
}

/// The ICE URL list to use: the caller's when non-empty, else the non-empty
/// entries of the default, else an error naming the missing setting.
pub fn resolve_ice(cli: Vec<String>, env: Option<String>) -> (r: Result<Vec<String>, ConnectError>)
    ensures
        cli@.len() > 0 ==> r == Ok::<Vec<String>, ConnectError>(cli),
        cli@.len() == 0 ==> {
            let effective = match env {
                Some(v) => Some(v@),
                None => {
                    if strip_tag(trim_nul(stun_default_region())).len() != 0 {
                        Some(strip_tag(trim_nul(stun_default_region())))
                    } else {
                        None
                    }
                },
            };
            match effective {
                Some(text) => {
                    if nonempty_parts(text, ';').len() > 0 {
                        r matches Ok(u) && u@.map_values(|t: String| t@) =~~= nonempty_parts(
                            text,
                            ';',
                        )
                    } else {
                        r == Err::<Vec<String>, ConnectError>(
                            ConnectError::NoDefaultValue(Constants::Ice),
                        )
                    }
                },
                None => r == Err::<Vec<String>, ConnectError>(
                    ConnectError::NoDefaultValue(Constants::Ice),
                ),
            }
        },
{
    if cli.len() > 0 {
        return Ok(cli);
    }
    let defaults = crate::constants::ice_urls(env);
    if defaults.len() > 0 {
        Ok(defaults)
    } else {
        Err(ConnectError::NoDefaultValue(Constants::Ice))
    }
}

/// Split one ICE URL argument on literal `&`: the URL itself, then an
/// optional username and password, empty when absent.
pub fn parse_ice_arg(argument: &str) -> (r: (String, String, String))
    ensures
        ({
            let fields = split_on(argument@, '&');
            &&& r.0@ == fields[0]
            &&& r.1@ == if fields.len() >= 2 {
                fields[1]
            } else {
                Seq::<char>::empty()
            }
            &&& r.2@ == if fields.len() >= 3 {
                fields[2]
            } else {
                Seq::<char>::empty()
            }
        }),
{
    let fields = crate::constants::split_char(argument, '&');
    proof {
        crate::constants::lemma_split_on_len(argument@, '&');
    }
    let url = fields[0].clone();
    let username = if fields.len() >= 2 {
        fields[1].clone()
    } else {
        String::new()
    };
    let password = if fields.len() >= 3 {
        fields[2].clone()
    } else {
        String::new()
    };
    (url, username, password)
}

} // verus!
