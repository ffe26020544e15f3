use stremio_core_shell::ipc::{
    INVALID_COMMAND_NAME, INVALID_EXTERNAL, INVALID_OBSERVE_NAME, INVALID_SET, INVALID_SET_NAME,
    IpcArg, IpcEvent, IpcEventMpv, IpcMessageRequest, IpcMessageResponse, ResponseArgs,
    ResponseData, INVALID_COMMAND, INVALID_NAME, INVALID_NAME_TYPE, INVALID_VISIBILITY,
    MISSING_ARGS, NO_RESPONSE, UNKNOWN_METHOD, UNKNOWN_TYPE,
};
use stremio_core_shell::property::{MpvProperty, UntypedValue};

fn text(s: &str) -> UntypedValue {
    UntypedValue::String(s.to_string())
}

fn call(args: Vec<IpcArg>) -> Result<IpcEvent, &'static str> {
    IpcEvent::from_request(&IpcMessageRequest { id: 7, msg_type: 6, args: Some(args) })
}

#[test]
fn handshake_and_unknown_types() {
    let r = IpcEvent::from_request(&IpcMessageRequest { id: 42, msg_type: 3, args: None });
    assert!(matches!(r, Ok(IpcEvent::Init(42))));
    let r = IpcEvent::from_request(&IpcMessageRequest { id: 42, msg_type: 9, args: None });
    assert_eq!(r.unwrap_err(), UNKNOWN_TYPE);
    let r = IpcEvent::from_request(&IpcMessageRequest { id: 1, msg_type: 6, args: None });
    assert_eq!(r.unwrap_err(), MISSING_ARGS);
    assert_eq!(call(vec![]).unwrap_err(), INVALID_NAME);
    assert_eq!(call(vec![IpcArg::Value(UntypedValue::Bool(true))]).unwrap_err(), INVALID_NAME_TYPE);
}

#[test]
fn calls_without_data() {
    assert!(matches!(call(vec![IpcArg::Value(text("quit"))]), Ok(IpcEvent::Quit)));
    assert!(matches!(call(vec![IpcArg::Value(text("app-ready"))]), Ok(IpcEvent::AppReady)));
    assert!(matches!(call(vec![IpcArg::Value(text("read-clipboard"))]), Ok(IpcEvent::ReadClipboard)));
    assert_eq!(call(vec![IpcArg::Value(text("dance"))]).unwrap_err(), UNKNOWN_METHOD);
}

#[test]
fn calls_with_data() {
    let visibility = IpcArg::Object(vec![
        ("other".to_string(), UntypedValue::Bool(false)),
        ("fullscreen".to_string(), UntypedValue::Bool(true)),
    ]);
    assert!(matches!(
        call(vec![IpcArg::Value(text("win-set-visibility")), visibility]),
        Ok(IpcEvent::Fullscreen(true))
    ));
    let bad = IpcArg::Object(vec![("fullscreen".to_string(), text("yes"))]);
    assert_eq!(call(vec![IpcArg::Value(text("win-set-visibility")), bad]).unwrap_err(), INVALID_VISIBILITY);

    match call(vec![IpcArg::Value(text("open-external")), IpcArg::Value(text("https://x.y"))]) {
        Ok(IpcEvent::OpenExternal(u)) => assert_eq!(u, "https://x.y"),
        other => panic!("unexpected {:?}", other),
    }

    let cmd = IpcArg::Array(vec![text("loadfile"), text("a.mkv"), text("replace")]);
    match call(vec![IpcArg::Value(text("mpv-command")), cmd]) {
        Ok(IpcEvent::Mpv(IpcEventMpv::Command((name, args)))) => {
            assert_eq!(name, "loadfile");
            assert_eq!(args, vec!["a.mkv".to_string(), "replace".to_string()]);
        }
        other => panic!("unexpected {:?}", other),
    }
    let cmd = IpcArg::Array(vec![text("seek"), UntypedValue::Number(10f64.to_bits())]);
    assert_eq!(call(vec![IpcArg::Value(text("mpv-command")), cmd]).unwrap_err(), INVALID_COMMAND);

    match call(vec![IpcArg::Value(text("mpv-observe-prop")), IpcArg::Value(text("pause"))]) {
        Ok(IpcEvent::Mpv(IpcEventMpv::Observe(n))) => assert_eq!(n, "pause"),
        other => panic!("unexpected {:?}", other),
    }

    let set = IpcArg::Array(vec![text("pause"), UntypedValue::Bool(true)]);
    match call(vec![IpcArg::Value(text("mpv-set-prop")), set]) {
        Ok(IpcEvent::Mpv(IpcEventMpv::SetProperty(p))) => {
            assert_eq!(p.name(), "pause");
            assert!(matches!(p.1, Some(UntypedValue::Bool(true))));
        }
        other => panic!("unexpected {:?}", other),
    }

    assert!(matches!(
        call(vec![IpcArg::Value(text("  app-ready ")), IpcArg::Value(UntypedValue::Other)]),
        Ok(IpcEvent::AppReady)
    ));
    assert_eq!(
        call(vec![IpcArg::Value(text("quit")), IpcArg::Value(UntypedValue::Other)]).unwrap_err(),
        UNKNOWN_METHOD
    );
}

#[test]
fn responses() {
    let r = IpcMessageResponse::from_event(IpcEvent::Init(5)).unwrap();
    assert_eq!((r.id, r.msg_type, r.object.as_str()), (5, 3, "transport"));
    assert_eq!(r.data, Some(ResponseData::Transport));
    assert!(r.args.is_none());

    let r = IpcMessageResponse::from_event(IpcEvent::Minimized(true)).unwrap();
    assert_eq!((r.id, r.msg_type), (1, 1));
    assert!(matches!(r.args, Some(ResponseArgs::WinStateChanged { state: 9 })));
    let r = IpcMessageResponse::from_event(IpcEvent::Minimized(false)).unwrap();
    assert!(matches!(r.args, Some(ResponseArgs::WinStateChanged { state: 8 })));

    let r = IpcMessageResponse::from_event(IpcEvent::Visibility(true)).unwrap();
    assert!(matches!(
        r.args,
        Some(ResponseArgs::WinVisibilityChanged { visible: true, visibility: 1, is_fullscreen: false })
    ));
    let r = IpcMessageResponse::from_event(IpcEvent::Fullscreen(true)).unwrap();
    assert!(matches!(
        r.args,
        Some(ResponseArgs::WinVisibilityChanged { visible: true, visibility: 1, is_fullscreen: true })
    ));

    let p = MpvProperty("pause".to_string(), Some(UntypedValue::Bool(true)));
    let r = IpcMessageResponse::from_event(IpcEvent::Mpv(IpcEventMpv::Change(p))).unwrap();
    assert!(matches!(r.args, Some(ResponseArgs::MpvPropChange(_))));

    assert_eq!(IpcMessageResponse::from_event(IpcEvent::Quit).unwrap_err(), NO_RESPONSE);
    assert_eq!(IpcMessageResponse::from_event(IpcEvent::AppReady).unwrap_err(), NO_RESPONSE);
}

#[test]
fn malformed_call_data() {
    let name = |s: &str| IpcArg::Value(text(s));
    assert_eq!(
        call(vec![name("open-external"), IpcArg::Value(UntypedValue::Bool(true))]).unwrap_err(),
        INVALID_EXTERNAL
    );
    assert_eq!(
        call(vec![name("mpv-command"), IpcArg::Array(vec![])]).unwrap_err(),
        INVALID_COMMAND_NAME
    );
    assert_eq!(
        call(vec![name("mpv-command"), IpcArg::Value(text("stop"))]).unwrap_err(),
        INVALID_COMMAND
    );
    assert_eq!(
        call(vec![name("mpv-observe-prop"), IpcArg::Array(vec![])]).unwrap_err(),
        INVALID_OBSERVE_NAME
    );
    assert_eq!(
        call(vec![name("mpv-set-prop"), IpcArg::Value(text("pause"))]).unwrap_err(),
        INVALID_SET
    );
    assert_eq!(
        call(vec![name("mpv-set-prop"), IpcArg::Array(vec![UntypedValue::Bool(true)])]).unwrap_err(),
        INVALID_SET_NAME
    );
    match call(vec![name("mpv-set-prop"), IpcArg::Array(vec![text("sid")])]) {
        Ok(IpcEvent::Mpv(IpcEventMpv::SetProperty(p))) => {
            assert_eq!(p.name(), "sid");
            assert!(p.1.is_none());
        }
        other => panic!("unexpected {:?}", other),
    }
}
