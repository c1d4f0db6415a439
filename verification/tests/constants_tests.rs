use icepipe::connect::{parse_ice_arg, resolve_ice, resolve_signaling, ConnectError, Constants};
use icepipe::constants::{bytes_to_str, ice_urls, signalling_server, split_char};
use icepipe::crypto_stream::Chacha20Error;
use icepipe::error::TimeoutError;
use icepipe::ice::IceError;
use icepipe::pipe_stream::StreamError;
use icepipe::sctp::SctpError;
use icepipe::signalling::SignalingError;

#[test]
fn built_in_signalling_default_parses() {
    assert_eq!(
        signalling_server(None),
        Some("wss://icepipe.fly.dev/signaling/".to_string())
    );
}

#[test]
fn environment_override_wins() {
    assert_eq!(
        signalling_server(Some("wss://example.net/".to_string())),
        Some("wss://example.net/".to_string())
    );
}

#[test]
fn built_in_ice_default_parses() {
    assert_eq!(ice_urls(None), vec!["stun:stun.l.google.com:19302".to_string()]);
}

#[test]
fn ice_override_splits_on_semicolons_and_drops_empties() {
    let urls = ice_urls(Some("stun:a;;turn:b;".to_string()));
    assert_eq!(urls, vec!["stun:a".to_string(), "turn:b".to_string()]);
}

#[test]
fn empty_ice_override_yields_no_urls() {
    assert_eq!(ice_urls(Some(String::new())), Vec::<String>::new());
    assert_eq!(ice_urls(Some(";;;".to_string())), Vec::<String>::new());
}

#[test]
fn padded_region_is_trimmed_and_untagged() {
    assert_eq!(
        bytes_to_str(None, "NAME__value\0\0\0\0"),
        Some("value".to_string())
    );
}

#[test]
fn region_without_tag_is_taken_whole() {
    assert_eq!(bytes_to_str(None, "just a value\0"), Some("just a value".to_string()));
}

#[test]
fn empty_region_value_means_no_default() {
    assert_eq!(bytes_to_str(None, "NAME__\0\0\0"), None);
    assert_eq!(bytes_to_str(None, ""), None);
    assert_eq!(bytes_to_str(None, "\0\0\0"), None);
}

#[test]
fn split_char_keeps_every_part() {
    assert_eq!(
        split_char("a;b;;c", ';'),
        vec!["a".to_string(), "b".to_string(), String::new(), "c".to_string()]
    );
    assert_eq!(split_char("", ';'), vec![String::new()]);
    assert_eq!(split_char(";", ';'), vec![String::new(), String::new()]);
}

#[test]
fn resolve_signaling_prefers_the_caller() {
    assert_eq!(
        resolve_signaling(Some("wss://mine/".to_string()), Some("wss://env/".to_string())),
        Ok("wss://mine/".to_string())
    );
    assert_eq!(
        resolve_signaling(None, None),
        Ok("wss://icepipe.fly.dev/signaling/".to_string())
    );
}

#[test]
fn resolve_ice_prefers_the_caller() {
    let mine = vec!["stun:mine".to_string()];
    assert_eq!(resolve_ice(mine.clone(), None), Ok(mine));
    assert_eq!(
        resolve_ice(Vec::new(), None),
        Ok(vec!["stun:stun.l.google.com:19302".to_string()])
    );
}

#[test]
fn resolve_ice_reports_the_missing_setting() {
    assert_eq!(
        resolve_ice(Vec::new(), Some(";;".to_string())),
        Err(ConnectError::NoDefaultValue(Constants::Ice))
    );
}

#[test]
fn constants_name_themselves() {
    assert_eq!(Constants::Signaling.text(), "signaling");
    assert_eq!(Constants::Ice.text(), "ice");
}

#[test]
fn ice_arguments_split_into_url_and_credentials() {
    assert_eq!(
        parse_ice_arg("turn:my.stun.com:19302&username&password"),
        ("turn:my.stun.com:19302".to_string(), "username".to_string(), "password".to_string())
    );
    assert_eq!(
        parse_ice_arg("stun:stun.l.google.com:19302"),
        ("stun:stun.l.google.com:19302".to_string(), String::new(), String::new())
    );
    assert_eq!(
        parse_ice_arg("turn:t&user"),
        ("turn:t".to_string(), "user".to_string(), String::new())
    );
}

#[test]
fn io_and_timeout_keep_their_identity_up_the_stack() {
    let io = SignalingError::Io("reset".to_string());
    assert_eq!(StreamError::from(io), StreamError::Io("reset".to_string()));
    let timeout = SignalingError::Timeout(TimeoutError);
    assert_eq!(IceError::from(timeout), IceError::Timeout(TimeoutError));
    let protocol = SignalingError::ProtocolError("bad frame".to_string());
    assert_eq!(
        SctpError::from(protocol.clone()),
        SctpError::SignalingError(protocol)
    );
}

#[test]
fn layer_errors_flatten_to_stream_errors() {
    let crypto = Chacha20Error::CryptoError;
    assert!(matches!(crypto.into_stream(), StreamError::Other(_)));
    let handshake = IceError::BadHandshake("nope".to_string());
    assert!(matches!(handshake.into_stream(), StreamError::Other(_)));
    let assoc = SctpError::AssociationClosedWithoutStream;
    assert!(matches!(assoc.into_stream(), StreamError::Other(_)));
    let io = SctpError::Io("gone".to_string());
    assert_eq!(io.into_stream(), StreamError::Io("gone".to_string()));
}

#[test]
fn setup_errors_wrap_layer_kinds() {
    let crypto = icepipe::agreement::AgreementError::CryptoError;
    assert_eq!(
        ConnectError::from(crypto),
        ConnectError::AgreementError(icepipe::agreement::AgreementError::CryptoError)
    );
    let timeout = icepipe::agreement::AgreementError::Timeout(TimeoutError);
    assert_eq!(ConnectError::from(timeout), ConnectError::Timeout(TimeoutError));
    let ice = IceError::IceError("agent gone".to_string());
    assert_eq!(
        ice.into_connect(),
        ConnectError::StreamError(StreamError::Other("agent gone".to_string()))
    );
}
