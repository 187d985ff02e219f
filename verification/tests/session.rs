use agp_dataplane::session::{
    Delivery, FireAndForget, HeaderInfo, HeaderKind, Info, MessageDirection, Route,
    SessionDirection, SessionError, SessionLayer, SessionType, State,
};

#[test]
fn test_fire_and_forget_create() {
    let session = FireAndForget::new(0, SessionDirection::Bidirectional);

    assert_eq!(session.id(), 0);
    assert_eq!(session.state(), State::Active);
    assert_eq!(session.session_type(), SessionType::FireAndForget);
}

fn header(id: u32, kind: Option<HeaderKind>) -> Option<HeaderInfo> {
    Some(HeaderInfo { session_id: id, header_type: 7, kind, message_id: 5 })
}

#[test]
fn fire_and_forget_on_message() {
    let session = FireAndForget::new(0, SessionDirection::Bidirectional);
    let mut h = header(1, None);
    assert_eq!(
        session.on_message(&mut h, MessageDirection::North, 1),
        Ok(Delivery::ToApp(Info { id: 0, session_type: SessionType::FireAndForget, state: State::Active }))
    );
    let h = h.unwrap();
    assert!(matches!(h.kind, Some(HeaderKind::Fnf)));
    assert_eq!(h.header_type, 1);
    assert_eq!(h.message_id, 5);
    assert_eq!(h.session_id, 1);

    let mut h = header(1, Some(HeaderKind::Other("X".to_string())));
    assert_eq!(session.on_message(&mut h, MessageDirection::South, 1), Ok(Delivery::ToGateway));
    let h = h.unwrap();
    assert!(matches!(h.kind, Some(HeaderKind::Fnf)));
    assert_eq!(h.header_type, 1);
    assert_eq!(h.session_id, 1);

    let mut none = None;
    assert_eq!(
        session.on_message(&mut none, MessageDirection::North, 1),
        Err(SessionError::AppTransmission("missing header".to_string()))
    );
    assert!(none.is_none());
}

#[test]
fn send_failures_become_transmission_errors() {
    let session = FireAndForget::new(0, SessionDirection::Bidirectional);
    assert_eq!(session.sent(MessageDirection::North, Ok(())), Ok(()));
    assert_eq!(
        session.sent(MessageDirection::North, Err("closed".to_string())),
        Err(SessionError::AppTransmission("closed".to_string()))
    );
    assert_eq!(
        session.sent(MessageDirection::South, Err("closed".to_string())),
        Err(SessionError::GatewayTransmission("closed".to_string()))
    );
    let layer = SessionLayer::new(0);
    assert_eq!(
        layer.channel_opened(Err("gone".to_string())),
        Err(SessionError::AppReception("gone".to_string()))
    );
    assert_eq!(layer.channel_opened(Ok(())), Ok(()));
}

#[test]
fn test_create_session_layer() {
    let session_layer = SessionLayer::new(0);
    assert!(!session_layer.contains(0));
    assert_eq!(session_layer.conn_id(), 0);
}

#[test]
fn test_insert_session() {
    let mut session_layer = SessionLayer::new(0);
    let session = FireAndForget::new(1, SessionDirection::Bidirectional);
    let res = session_layer.insert_session(1, session);
    assert!(res.is_ok());
    assert_eq!(
        session_layer.insert_session(1, session),
        Err(SessionError::SessionIdAlreadyUsed("1".to_string()))
    );
}

#[test]
fn test_remove_session() {
    let mut session_layer = SessionLayer::new(0);
    let session = FireAndForget::new(1, SessionDirection::Bidirectional);
    session_layer.insert_session(1, session).unwrap();
    let res = session_layer.remove_session(1);
    assert!(res);
    assert!(!session_layer.remove_session(1));
}

#[test]
fn test_create_session() {
    let mut session_layer = SessionLayer::new(0);
    let res = session_layer.create_session(SessionType::FireAndForget, None);
    assert!(res.is_ok());
    let info = res.unwrap();
    assert!(session_layer.contains(info.id));
    assert_eq!(info.state, State::Active);
    assert_eq!(
        session_layer.create_session(SessionType::RequestResponse, Some(3)),
        Err(SessionError::SessionUnknown("RequestResponse".to_string()))
    );
    assert_eq!(
        session_layer.create_session(SessionType::FireAndForget, Some(12345)),
        Ok(Info { id: 12345, session_type: SessionType::FireAndForget, state: State::Active })
    );
    assert_eq!(
        session_layer.create_session(SessionType::FireAndForget, Some(12345)),
        Err(SessionError::SessionIdAlreadyUsed("12345".to_string()))
    );
}

fn fnf_header(id: u32) -> Option<HeaderInfo> {
    Some(HeaderInfo { session_id: id, header_type: 1, kind: Some(HeaderKind::Fnf), message_id: 0 })
}

#[test]
fn test_handle_message() {
    let mut session_layer = SessionLayer::new(0);
    let session = FireAndForget::new(1, SessionDirection::Bidirectional);
    session_layer.insert_session(1, session).unwrap();

    let res = session_layer.handle_message(MessageDirection::North, Some(1), &mut fnf_header(1));
    assert_eq!(res, Ok(Route::Deliver(1)));
}

#[test]
fn gateway_messages_open_sessions() {
    let mut layer = SessionLayer::new(7);
    assert_eq!(
        layer.handle_message(MessageDirection::North, None, &mut fnf_header(4)),
        Ok(Route::Opened(Info { id: 4, session_type: SessionType::FireAndForget, state: State::Active }))
    );
    assert!(layer.contains(4));
    assert_eq!(
        layer.handle_message(MessageDirection::North, None, &mut fnf_header(4)),
        Ok(Route::Deliver(4))
    );
    assert_eq!(
        layer.handle_message(MessageDirection::North, None, &mut None),
        Err(SessionError::MissingAgpHeader("missing AGP header".to_string()))
    );
    let mut unknown = Some(HeaderInfo { session_id: 9, header_type: -3, kind: None, message_id: 0 });
    assert_eq!(
        layer.handle_message(MessageDirection::North, None, &mut unknown),
        Err(SessionError::SessionUnknown("-3".to_string()))
    );
    let mut other = Some(HeaderInfo {
        session_id: 9,
        header_type: 2,
        kind: Some(HeaderKind::Other("REQUEST".to_string())),
        message_id: 0,
    });
    assert_eq!(
        layer.handle_message(MessageDirection::North, None, &mut other),
        Err(SessionError::SessionUnknown("REQUEST".to_string()))
    );
    assert!(!layer.contains(9));
}

#[test]
fn app_messages_need_an_open_session() {
    let mut layer = SessionLayer::new(0);
    assert_eq!(
        layer.handle_message(MessageDirection::South, None, &mut fnf_header(1)),
        Err(SessionError::MissingSessionId("none".to_string()))
    );
    assert_eq!(
        layer.handle_message(MessageDirection::South, Some(2), &mut fnf_header(2)),
        Err(SessionError::SessionNotFound("2".to_string()))
    );
    layer.insert_session(2, FireAndForget::new(2, SessionDirection::Bidirectional)).unwrap();
    assert_eq!(
        layer.handle_message(MessageDirection::South, Some(2), &mut None),
        Err(SessionError::MissingSessionHeader)
    );
    let mut h = fnf_header(0);
    assert_eq!(
        layer.handle_message(MessageDirection::South, Some(2), &mut h),
        Ok(Route::Deliver(2))
    );
    assert_eq!(h.unwrap().session_id, 2);
}

#[test]
fn stored_sessions_read_back() {
    let mut layer = SessionLayer::new(0);
    assert_eq!(layer.session(3), None);
    let session = FireAndForget::new(3, SessionDirection::Sender);
    layer.insert_session(3, session).unwrap();
    assert_eq!(layer.session(3), Some(session));
    assert!(layer.remove_session(3));
    assert_eq!(layer.session(3), None);
}
