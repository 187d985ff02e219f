use agp_dataplane::datapath_error::DataPathError;

#[test]
fn data_path_error_messages() {
    assert_eq!(
        DataPathError::ConnectionError("refused".to_string()).message(),
        "connection error: refused"
    );
    assert_eq!(
        DataPathError::UnknownMsgType("x".to_string()).message(),
        "unkwon message type x"
    );
    assert_eq!(DataPathError::WrongChannelType.message(), "wrong channel type");
    assert_eq!(
        DataPathError::StreamError("eof".to_string()).message(),
        "stream error: eof"
    );
}
