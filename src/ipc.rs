//! Messages between the shell and the overlay's UI layer: requests decoded
//! into typed events, and events that become responses.
use vstd::prelude::*;

use crate::property::{MpvProperty, UntypedValue};
use crate::text::{str_eq, trim, trim_of};

verus! {

/// A request argument: a scalar, an array of scalars, or an object whose
/// members are scalars.  Anything nested deeper stands as `Other`.
#[derive(Clone, Debug)]
pub enum IpcArg {
    Value(UntypedValue),
    Array(Vec<UntypedValue>),
    Object(Vec<(String, UntypedValue)>),
}

/// A request as the UI layer frames it.
#[derive(Clone, Debug)]
pub struct IpcMessageRequest {
    pub id: u64,
    pub msg_type: u8,
    pub args: Option<Vec<IpcArg>>,
}

#[derive(Debug)]
pub enum IpcEventMpv {
    Observe(String),
    Command((String, Vec<String>)),
    SetProperty(MpvProperty),
    Change(MpvProperty),
    Ended(Option<String>),
    Error(String),
}

#[derive(Debug)]
pub enum IpcEvent {
    Init(u64),
    Quit,
    AppReady,
    ReadClipboard,
    Fullscreen(bool),
    Minimized(bool),
    Visibility(bool),
    OpenMedia(String),
    OpenExternal(String),
    Mpv(IpcEventMpv),
    GpuWarning(String),
    NextVideo,
    PreviousVideo,
}

pub const UNKNOWN_TYPE: &'static str = "Unknown type";

pub const MISSING_ARGS: &'static str = "Missing args";

pub const INVALID_NAME: &'static str = "Invalid name";

pub const INVALID_NAME_TYPE: &'static str = "Invalid name type";

pub const UNKNOWN_METHOD: &'static str = "Unknown method";

pub const INVALID_VISIBILITY: &'static str = "Invalid win-set-visibility object";

pub const INVALID_EXTERNAL: &'static str = "Invalid open-external argument";

pub const INVALID_COMMAND: &'static str = "Invalid mpv-command arguments";

pub const INVALID_COMMAND_NAME: &'static str = "Invalid mpv-command name";

pub const INVALID_OBSERVE_NAME: &'static str = "Invalid mpv-observe-prop name";

pub const INVALID_SET: &'static str = "Invalid mpv-set-prop arguments";

pub const INVALID_SET_NAME: &'static str = "Invalid mpv-set-prop name";

/// Request type of the handshake.
pub const TYPE_INIT: u8 = 3;

/// Request type of a method call.
pub const TYPE_CALL: u8 = 6;

/// Request type of an event sent to the UI layer.
pub const TYPE_EVENT: u8 = 1;

/// The text of a scalar that is a string.
pub open spec fn text_of(v: UntypedValue) -> Option<Seq<char>> {
    match v {
        UntypedValue::String(s) => Some(s@),
        _ => None,
    }
}

/// The boolean that the first member named `key` holds, if it is a boolean.
pub open spec fn member_bool(fields: Seq<(String, UntypedValue)>, key: Seq<char>) -> Option<bool>
    decreases fields.len(),
{
    if fields.len() == 0 {
        None
    } else if fields[0].0@ == key {
        match fields[0].1 {
            UntypedValue::Bool(b) => Some(b),
            _ => None,
        }
    } else {
        member_bool(fields.drop_first(), key)
    }
}

/// Every item is a string.
pub open spec fn all_text(items: Seq<UntypedValue>) -> bool {
    forall|i: int| 0 <= i < items.len() ==> #[trigger] text_of(items[i]) is Some
}

/// The event for a method call with data `d`.
pub open spec fn decoded_with_data(name: Seq<char>, d: IpcArg, r: Result<IpcEvent, &'static str>) -> bool {
    if name == "win-set-visibility"@ {
        match d {
            IpcArg::Object(fields) => match member_bool(fields@, "fullscreen"@) {
                Some(b) => r matches Ok(IpcEvent::Fullscreen(x)) && x == b,
                None => r == Err::<IpcEvent, &'static str>(INVALID_VISIBILITY),
            },
            _ => r == Err::<IpcEvent, &'static str>(INVALID_VISIBILITY),
        }
    } else if name == "open-external"@ {
        match d {
            IpcArg::Value(UntypedValue::String(s)) => r matches Ok(IpcEvent::OpenExternal(x)) && x@
                == s@,
            _ => r == Err::<IpcEvent, &'static str>(INVALID_EXTERNAL),
        }
    } else if name == "mpv-command"@ {
        match d {
            IpcArg::Array(items) => if !all_text(items@) {
                r == Err::<IpcEvent, &'static str>(INVALID_COMMAND)
            } else if items@.len() == 0 {
                r == Err::<IpcEvent, &'static str>(INVALID_COMMAND_NAME)
            } else {
                r matches Ok(IpcEvent::Mpv(IpcEventMpv::Command((n, a)))) && Some(n@) == text_of(
                    items@[0],
                ) && a@.len() + 1 == items@.len() && forall|i: int|
                    0 <= i < a@.len() ==> Some(#[trigger] a@[i]@) == text_of(items@[i + 1])
            },
            _ => r == Err::<IpcEvent, &'static str>(INVALID_COMMAND),
        }
    } else if name == "mpv-observe-prop"@ {
        match d {
            IpcArg::Value(UntypedValue::String(s)) => r matches Ok(
                IpcEvent::Mpv(IpcEventMpv::Observe(x)),
            ) && x@ == s@,
            _ => r == Err::<IpcEvent, &'static str>(INVALID_OBSERVE_NAME),
        }
    } else if name == "mpv-set-prop"@ {
        match d {
            IpcArg::Array(items) => if items@.len() > 0 && text_of(items@[0]) is Some {
                r matches Ok(IpcEvent::Mpv(IpcEventMpv::SetProperty(p))) && Some(p.0@) == text_of(items@[0])
                    && p.payload() == (if items@.len() > 1 {
                    Some(items@[1]@)
                } else {
                    None
                })
            } else {
                r == Err::<IpcEvent, &'static str>(INVALID_SET_NAME)
            },
            _ => r == Err::<IpcEvent, &'static str>(INVALID_SET),
        }
    } else if trim_of(name) == "app-ready"@ {
        r matches Ok(IpcEvent::AppReady)
    } else {
        r == Err::<IpcEvent, &'static str>(UNKNOWN_METHOD)
    }
}

/// The event for a method call without data.
pub open spec fn decoded_without_data(name: Seq<char>, r: Result<IpcEvent, &'static str>) -> bool {
    if name == "quit"@ {
        r matches Ok(IpcEvent::Quit)
    } else if name == "app-ready"@ {
        r matches Ok(IpcEvent::AppReady)
    } else if name == "read-clipboard"@ {
        r matches Ok(IpcEvent::ReadClipboard)
    } else {
        r == Err::<IpcEvent, &'static str>(UNKNOWN_METHOD)
    }
}

/// What a request decodes to: the handshake, or a method call named by
/// the first argument with the second argument, if any, as its data.
pub open spec fn decoded(req: IpcMessageRequest, r: Result<IpcEvent, &'static str>) -> bool {
    if req.msg_type == TYPE_INIT {
        r matches Ok(IpcEvent::Init(id)) && id == req.id
    } else if req.msg_type != TYPE_CALL {
        r == Err::<IpcEvent, &'static str>(UNKNOWN_TYPE)
    } else {
        match req.args {
            None => r == Err::<IpcEvent, &'static str>(MISSING_ARGS),
            Some(a) => if a@.len() == 0 {
                r == Err::<IpcEvent, &'static str>(INVALID_NAME)
            } else {
                match a@[0] {
                    IpcArg::Value(UntypedValue::String(name)) => if a@.len() > 1 {
                        decoded_with_data(name@, a@[1], r)
                    } else {
                        decoded_without_data(name@, r)
                    },
                    _ => r == Err::<IpcEvent, &'static str>(INVALID_NAME_TYPE),
                }
            },
        }
    }
}

fn find_bool(fields: &Vec<(String, UntypedValue)>, key: &str) -> (r: Option<bool>)
    ensures
        r == member_bool(fields@, key@),
{
    let mut i: usize = 0;
    assert(fields@.subrange(0, fields@.len() as int) =~= fields@);
    while i < fields.len()
        invariant
            i <= fields@.len(),
            member_bool(fields@, key@) == member_bool(fields@.subrange(i as int, fields@.len() as int), key@),
        decreases fields@.len() - i,
    {
        let ghost rest = fields@.subrange(i as int, fields@.len() as int);
        assert(rest[0] == fields@[i as int]);
        if str_eq(fields[i].0.as_str(), key) {
            return match &fields[i].1 {
                UntypedValue::Bool(b) => Some(*b),
                _ => None,
            };
        }
        assert(rest.drop_first() =~= fields@.subrange(i + 1, fields@.len() as int));
        i = i + 1;
    }
    None
}

fn command_of(items: &Vec<UntypedValue>) -> (r: Result<IpcEvent, &'static str>)
    ensures
        !all_text(items@) ==> r == Err::<IpcEvent, &'static str>(INVALID_COMMAND),
        all_text(items@) && items@.len() == 0 ==> r == Err::<IpcEvent, &'static str>(INVALID_COMMAND_NAME),
        all_text(items@) && items@.len() > 0 ==> (r matches Ok(IpcEvent::Mpv(IpcEventMpv::Command((n, a))))
            && Some(n@) == text_of(items@[0]) && a@.len() + 1 == items@.len() && forall|i: int|
            0 <= i < a@.len() ==> Some(#[trigger] a@[i]@) == text_of(items@[i + 1])),
{
    let mut texts: Vec<String> = Vec::new();
    let mut i: usize = 0;
    while i < items.len()
        invariant
            i <= items@.len(),
            texts@.len() == i,
            forall|j: int| 0 <= j < i ==> Some(#[trigger] texts@[j]@) == text_of(items@[j]),
        decreases items@.len() - i,
    {
        match &items[i] {
            UntypedValue::String(s) => texts.push(s.clone()),
            _ => {
                assert(text_of(items@[i as int]) is None);
                return Err(INVALID_COMMAND);
            },
        }
        i = i + 1;
    }
    assert forall|j: int| 0 <= j < items@.len() implies #[trigger] text_of(items@[j]) is Some by {
        assert(Some(texts@[j]@) == text_of(items@[j]));
    }
    if texts.len() == 0 {
        return Err(INVALID_COMMAND_NAME);
    }
    let name = texts.remove(0);
    Ok(IpcEvent::Mpv(IpcEventMpv::Command((name, texts))))
}

fn with_data(name: &str, d: &IpcArg) -> (r: Result<IpcEvent, &'static str>)
    ensures
        decoded_with_data(name@, *d, r),
{
    if str_eq(name, "win-set-visibility") {
        match d {
            IpcArg::Object(fields) => match find_bool(fields, "fullscreen") {
                Some(b) => Ok(IpcEvent::Fullscreen(b)),
                None => Err(INVALID_VISIBILITY),
            },
            _ => Err(INVALID_VISIBILITY),
        }
    } else if str_eq(name, "open-external") {
        match d {
            IpcArg::Value(UntypedValue::String(s)) => Ok(IpcEvent::OpenExternal(s.clone())),
            _ => Err(INVALID_EXTERNAL),
        }
    } else if str_eq(name, "mpv-command") {
        match d {
            IpcArg::Array(items) => command_of(items),
            _ => Err(INVALID_COMMAND),
        }
    } else if str_eq(name, "mpv-observe-prop") {
        match d {
            IpcArg::Value(UntypedValue::String(s)) => Ok(
                IpcEvent::Mpv(IpcEventMpv::Observe(s.clone())),
            ),
            _ => Err(INVALID_OBSERVE_NAME),
        }
    } else if str_eq(name, "mpv-set-prop") {
        match d {
            IpcArg::Array(items) => {
                if items.len() > 0 {
                    match &items[0] {
                        UntypedValue::String(n) => {
                            let value = if items.len() > 1 {
                                Some(items[1].copied())
                            } else {
                                None
                            };
                            Ok(IpcEvent::Mpv(IpcEventMpv::SetProperty(MpvProperty(n.clone(), value))))
                        },
                        _ => Err(INVALID_SET_NAME),
                    }
                } else {
                    Err(INVALID_SET_NAME)
                }
            },
            _ => Err(INVALID_SET),
        }
    } else if str_eq(trim(name), "app-ready") {
        Ok(IpcEvent::AppReady)
    } else {
        Err(UNKNOWN_METHOD)
    }
}

fn without_data(name: &str) -> (r: Result<IpcEvent, &'static str>)
    ensures
        decoded_without_data(name@, r),
{
    if str_eq(name, "quit") {
        Ok(IpcEvent::Quit)
    } else if str_eq(name, "app-ready") {
        Ok(IpcEvent::AppReady)
    } else if str_eq(name, "read-clipboard") {
        Ok(IpcEvent::ReadClipboard)
    } else {
        Err(UNKNOWN_METHOD)
    }
}

impl IpcEvent {
    /// Decodes a request into the event it asks for.
    pub fn from_request(req: &IpcMessageRequest) -> (r: Result<IpcEvent, &'static str>)
        ensures
            decoded(*req, r),
    {
        if req.msg_type == TYPE_INIT {
            return Ok(IpcEvent::Init(req.id));
        }
        if req.msg_type != TYPE_CALL {
            return Err(UNKNOWN_TYPE);
        }
        match &req.args {
            None => Err(MISSING_ARGS),
            Some(a) => {
                if a.len() == 0 {
                    return Err(INVALID_NAME);
                }
                match &a[0] {
                    IpcArg::Value(UntypedValue::String(name)) => {
                        if a.len() > 1 {
                            with_data(name.as_str(), &a[1])
                        } else {
                            without_data(name.as_str())
                        }
                    },
                    _ => Err(INVALID_NAME_TYPE),
                }
            },
        }
    }
}

/// Name of the object that every response comes from.
pub const TRANSPORT_NAME: &'static str = "transport";

pub const NO_RESPONSE: &'static str = "Failed to convert IpcEvent to IpcMessageResponse";

/// The data of the handshake response: a description of the transport
/// object, with the shell's version, for the UI layer's channel.
#[derive(Clone, Copy, Debug, PartialEq, Eq, Structural)]
pub enum ResponseData {
    Transport,
}

/// The event that a response carries to the UI layer, by its name there.
#[derive(Debug)]
pub enum ResponseArgs {
    /// `win-visibility-changed`
    WinVisibilityChanged { visible: bool, visibility: u32, is_fullscreen: bool },
    /// `win-state-changed`: 9 when minimized, 8 otherwise.
    WinStateChanged { state: u32 },
    /// `open-media`
    OpenMedia(String),
    /// `mpv-prop-change`
    MpvPropChange(MpvProperty),
    /// `mpv-event-ended`
    MpvEventEnded(Option<String>),
    /// `mpv-event-error`
    MpvEventError(String),
    /// `gpu-warning`
    GpuWarning(String),
    /// `next-video`
    NextVideo,
    /// `previous-video`
    PreviousVideo,
}

/// A message to the UI layer.
#[derive(Debug)]
pub struct IpcMessageResponse {
    pub id: u64,
    pub msg_type: u8,
    pub object: String,
    pub data: Option<ResponseData>,
    pub args: Option<ResponseArgs>,
}

/// The response an event becomes, as id, type, data and args, or `None`
/// for events that the UI layer is not told of.
pub open spec fn response_for(e: IpcEvent) -> Option<(u64, u8, Option<ResponseData>, Option<ResponseArgs>)> {
    match e {
        IpcEvent::Init(id) => Some((id, TYPE_INIT, Some(ResponseData::Transport), None)),
        IpcEvent::Fullscreen(state) => Some(
            (
                1,
                TYPE_EVENT,
                None,
                Some(
                    ResponseArgs::WinVisibilityChanged {
                        visible: true,
                        visibility: 1,
                        is_fullscreen: state,
                    },
                ),
            ),
        ),
        IpcEvent::Visibility(state) => Some(
            (
                1,
                TYPE_EVENT,
                None,
                Some(
                    ResponseArgs::WinVisibilityChanged {
                        visible: state,
                        visibility: if state {
                            1
                        } else {
                            0
                        },
                        is_fullscreen: false,
                    },
                ),
            ),
        ),
        IpcEvent::Minimized(state) => Some(
            (
                1,
                TYPE_EVENT,
                None,
                Some(
                    ResponseArgs::WinStateChanged {
                        state: if state {
                            9
                        } else {
                            8
                        },
                    },
                ),
            ),
        ),
        IpcEvent::OpenMedia(d) => Some((1, TYPE_EVENT, None, Some(ResponseArgs::OpenMedia(d)))),
        IpcEvent::Mpv(IpcEventMpv::Change(p)) => Some(
            (1, TYPE_EVENT, None, Some(ResponseArgs::MpvPropChange(p))),
        ),
        IpcEvent::Mpv(IpcEventMpv::Ended(e)) => Some(
            (1, TYPE_EVENT, None, Some(ResponseArgs::MpvEventEnded(e))),
        ),
        IpcEvent::Mpv(IpcEventMpv::Error(e)) => Some(
            (1, TYPE_EVENT, None, Some(ResponseArgs::MpvEventError(e))),
        ),
        IpcEvent::GpuWarning(m) => Some((1, TYPE_EVENT, None, Some(ResponseArgs::GpuWarning(m)))),
        IpcEvent::NextVideo => Some((1, TYPE_EVENT, None, Some(ResponseArgs::NextVideo))),
        IpcEvent::PreviousVideo => Some((1, TYPE_EVENT, None, Some(ResponseArgs::PreviousVideo))),
        _ => None,
    }
}

impl IpcMessageResponse {
    /// The response for an event, from the transport object.
    pub fn from_event(event: IpcEvent) -> (r: Result<IpcMessageResponse, &'static str>)
        ensures
            match response_for(event) {
                Some((id, t, d, a)) => r matches Ok(m) && m.id == id && m.msg_type == t
                    && m.object@ == TRANSPORT_NAME@ && m.data == d && m.args == a,
                None => r == Err::<IpcMessageResponse, &'static str>(NO_RESPONSE),
            },
    {
        let (id, msg_type, data, args) = match event {
            IpcEvent::Init(id) => (id, TYPE_INIT, Some(ResponseData::Transport), None),
            IpcEvent::Fullscreen(state) => (
                1,
                TYPE_EVENT,
                None,
                Some(
                    ResponseArgs::WinVisibilityChanged {
                        visible: true,
                        visibility: 1,
                        is_fullscreen: state,
                    },
                ),
            ),
            IpcEvent::Visibility(state) => (
                1,
                TYPE_EVENT,
                None,
                Some(
                    ResponseArgs::WinVisibilityChanged {
                        visible: state,
                        visibility: if state {
                            1
                        } else {
                            0
                        },
                        is_fullscreen: false,
                    },
                ),
            ),
            IpcEvent::Minimized(state) => (
                1,
                TYPE_EVENT,
                None,
                Some(
                    ResponseArgs::WinStateChanged {
                        state: if state {
                            9
                        } else {
                            8
                        },
                    },
                ),
            ),
            IpcEvent::OpenMedia(d) => (1, TYPE_EVENT, None, Some(ResponseArgs::OpenMedia(d))),
            IpcEvent::Mpv(IpcEventMpv::Change(p)) => (
                1,
                TYPE_EVENT,
                None,
                Some(ResponseArgs::MpvPropChange(p)),
            ),
            IpcEvent::Mpv(IpcEventMpv::Ended(e)) => (
                1,
                TYPE_EVENT,
                None,
                Some(ResponseArgs::MpvEventEnded(e)),
            ),
            IpcEvent::Mpv(IpcEventMpv::Error(e)) => (
                1,
                TYPE_EVENT,
                None,
                Some(ResponseArgs::MpvEventError(e)),
            ),
            IpcEvent::GpuWarning(m) => (1, TYPE_EVENT, None, Some(ResponseArgs::GpuWarning(m))),
            IpcEvent::NextVideo => (1, TYPE_EVENT, None, Some(ResponseArgs::NextVideo)),
            IpcEvent::PreviousVideo => (1, TYPE_EVENT, None, Some(ResponseArgs::PreviousVideo)),
            _ => {
                return Err(NO_RESPONSE);
            },
        };
        let object = String::from_str(TRANSPORT_NAME);
        Ok(IpcMessageResponse { id, msg_type, object, data, args })
    }
}

} // verus!
