//! The playback-engine proxy: which properties are observed, what a set
//! hands the engine, and how the engine's native events become typed events.
use vstd::prelude::*;

use crate::property::{
    payload_view, typed_value, value_error, MpvProperty, MpvPropertyValue, UntypedValue,
    UntypedView, ValueView,
};
use crate::registry::{kind_of, registered_kind, PropertyKind};
use crate::text::str_eq;

verus! {

/// Why playback stopped, where the engine reports a failure.
#[derive(Clone, Copy, Debug, PartialEq, Eq, Structural)]
pub enum StopReason {
    /// The engine was asked to quit.
    Quit,
    /// Playback failed.
    General,
}

/// End-of-file code with which the engine reports a quit request.
pub const END_FILE_QUIT: u32 = 3;

/// End-of-file code with which the engine reports a failure.
pub const END_FILE_ERROR: u32 = 4;

/// A native engine event, as far as the proxy reads it.
#[derive(Clone, Debug)]
pub enum EngineEvent {
    StartFile,
    EndFile(u32),
    PropertyChange(String, UntypedValue),
    Other,
}

/// What one poll of the engine yielded: an event, or an engine error.
#[derive(Clone, Debug)]
pub enum PollResult {
    Event(EngineEvent),
    Error(String),
}

/// A typed playback event, delivered once to the host loop.
#[derive(Clone, Debug)]
pub enum PlayerEvent {
    Start,
    Stop(Option<StopReason>),
    Update,
    PropertyChange(MpvProperty),
    MpvError(String),
}

/// The mathematical content of an `EngineEvent`.
pub enum EngineEventView {
    StartFile,
    EndFile(u32),
    PropertyChange(Seq<char>, UntypedView),
    Other,
}

/// The mathematical content of a `PollResult`.
pub enum PollView {
    Event(EngineEventView),
    Error(Seq<char>),
}

/// The mathematical content of a `PlayerEvent`.
pub enum PlayerEventView {
    Start,
    Stop(Option<StopReason>),
    Update,
    PropertyChange(Seq<char>, Option<UntypedView>),
    MpvError(Seq<char>),
}

impl View for EngineEvent {
    type V = EngineEventView;

    open spec fn view(&self) -> EngineEventView {
        match self {
            EngineEvent::StartFile => EngineEventView::StartFile,
            EngineEvent::EndFile(c) => EngineEventView::EndFile(*c),
            EngineEvent::PropertyChange(n, v) => EngineEventView::PropertyChange(n@, v@),
            EngineEvent::Other => EngineEventView::Other,
        }
    }
}

impl View for PollResult {
    type V = PollView;

    open spec fn view(&self) -> PollView {
        match self {
            PollResult::Event(e) => PollView::Event(e@),
            PollResult::Error(m) => PollView::Error(m@),
        }
    }
}

impl View for PlayerEvent {
    type V = PlayerEventView;

    open spec fn view(&self) -> PlayerEventView {
        match self {
            PlayerEvent::Start => PlayerEventView::Start,
            PlayerEvent::Stop(r) => PlayerEventView::Stop(*r),
            PlayerEvent::Update => PlayerEventView::Update,
            PlayerEvent::PropertyChange(p) => PlayerEventView::PropertyChange(p.0@, p.payload()),
            PlayerEvent::MpvError(m) => PlayerEventView::MpvError(m@),
        }
    }
}

/// The stop reason that an end-of-file code stands for.
pub open spec fn stop_reason(code: u32) -> Option<StopReason> {
    if code == END_FILE_QUIT {
        Some(StopReason::Quit)
    } else if code == END_FILE_ERROR {
        Some(StopReason::General)
    } else {
        None
    }
}

/// The typed event for a native event; `None` where the event is dropped.
pub open spec fn convert(e: EngineEventView) -> Option<PlayerEventView> {
    match e {
        EngineEventView::StartFile => Some(PlayerEventView::Start),
        EngineEventView::EndFile(c) => Some(PlayerEventView::Stop(stop_reason(c))),
        EngineEventView::PropertyChange(n, v) => match v {
            UntypedView::Other => None,
            _ => Some(PlayerEventView::PropertyChange(n, Some(v))),
        },
        EngineEventView::Other => None,
    }
}

/// Some poll in `polls` reported an engine error.
pub open spec fn has_error(polls: Seq<PollView>) -> bool {
    exists|i: int| 0 <= i < polls.len() && #[trigger] polls[i] is Error
}

/// The typed events for a run of polls, in poll order, up to and including
/// the first engine error.
pub open spec fn converted(polls: Seq<PollView>) -> Seq<PlayerEventView>
    decreases polls.len(),
{
    if polls.len() == 0 {
        Seq::empty()
    } else {
        let before = polls.drop_last();
        if has_error(before) {
            converted(before)
        } else {
            match polls.last() {
                PollView::Error(m) => converted(before).push(PlayerEventView::MpvError(m)),
                PollView::Event(e) => match convert(e) {
                    Some(t) => converted(before).push(t),
                    None => converted(before),
                },
            }
        }
    }
}

/// What an observe call asks of the engine: to register the name for
/// change notification with its registered kind, or nothing.
pub open spec fn observe_request(observed: Set<Seq<char>>, name: Seq<char>) -> Option<PropertyKind> {
    match registered_kind(name) {
        Some(k) => if observed.contains(name) {
            None
        } else {
            Some(k)
        },
        None => None,
    }
}

/// The observed set once the engine has accepted a registration of `name`.
pub open spec fn observe_accepted(observed: Set<Seq<char>>, name: Seq<char>) -> Set<Seq<char>> {
    if registered_kind(name) is Some {
        observed.insert(name)
    } else {
        observed
    }
}

/// A run of observe calls for `name`, where `accepted[i]` says whether the
/// engine accepted the `i`-th registration asked of it: the observed set
/// afterwards, and how many registrations the engine accepted.
pub open spec fn observe_run(observed: Set<Seq<char>>, name: Seq<char>, accepted: Seq<bool>) -> (
    Set<Seq<char>>,
    nat,
)
    decreases accepted.len(),
{
    if accepted.len() == 0 {
        (observed, 0)
    } else {
        let (s, k) = observe_run(observed, name, accepted.drop_last());
        if observe_request(s, name) is Some && accepted.last() {
            (observe_accepted(s, name), k + 1)
        } else {
            (s, k)
        }
    }
}

/// A name that the registry does not hold is never handed to the engine:
/// observing it asks for no registration and records nothing, and setting
/// it fails locally whatever its payload.
pub proof fn lemma_unregistered_untouched(
    observed: Set<Seq<char>>,
    name: Seq<char>,
    payload: Option<UntypedView>,
)
    requires
        registered_kind(name) is None,
    ensures
        observe_request(observed, name) is None,
        observe_accepted(observed, name) == observed,
        typed_value(name, payload) is None,
{
}

/// A payload that is text never passes for a property registered as a
/// float: the set fails locally with the float error.
pub proof fn lemma_float_rejects_text(name: Seq<char>, text: Seq<char>)
    requires
        registered_kind(name) == Some(PropertyKind::Float),
    ensures
        typed_value(name, Some(UntypedView::Text(text))) is None,
        value_error(name, Some(UntypedView::Text(text))) == crate::property::NOT_A_FLOAT,
{
}

/// Observing a name any number of times gets it registered with the engine
/// at most once (a registration counts when the engine accepts it), and not
/// at all if it is already observed or not registered.
pub proof fn lemma_observe_at_most_once(
    observed: Set<Seq<char>>,
    name: Seq<char>,
    accepted: Seq<bool>,
)
    ensures
        observe_run(observed, name, accepted).1 <= 1,
        observed.contains(name) ==> observe_run(observed, name, accepted).1 == 0,
        registered_kind(name) is None ==> observe_run(observed, name, accepted).1 == 0,
        observe_run(observed, name, accepted).1 == 1 ==> observe_run(
            observed,
            name,
            accepted,
        ).0.contains(name),
    decreases accepted.len(),
{
    if accepted.len() > 0 {
        lemma_observe_at_most_once(observed, name, accepted.drop_last());
        let (s, k) = observe_run(observed, name, accepted.drop_last());
        if observed.contains(name) {
            assert(s.contains(name)) by {
                lemma_observed_stays(observed, name, accepted.drop_last());
            }
        }
    }
}

proof fn lemma_observed_stays(observed: Set<Seq<char>>, name: Seq<char>, accepted: Seq<bool>)
    requires
        observed.contains(name),
    ensures
        observe_run(observed, name, accepted).0.contains(name),
    decreases accepted.len(),
{
    if accepted.len() > 0 {
        lemma_observed_stays(observed, name, accepted.drop_last());
    }
}

/// Draining keeps poll order: the events for two runs of polls, the first
/// without an engine error, are the first run's events followed by the
/// second run's.
pub proof fn lemma_drain_keeps_order(a: Seq<PollView>, b: Seq<PollView>)
    requires
        !has_error(a),
    ensures
        converted(a + b) == converted(a) + converted(b),
    decreases b.len(),
{
    if b.len() == 0 {
        assert(a + b =~= a);
        assert(converted(a) + converted(b) =~= converted(a));
    } else {
        let ab = a + b;
        let b0 = b.drop_last();
        lemma_drain_keeps_order(a, b0);
        assert(ab.drop_last() =~= a + b0);
        assert(ab.last() == b.last());
        assert(has_error(a + b0) == has_error(b0)) by {
            if has_error(a + b0) {
                let i = choose|i: int| 0 <= i < (a + b0).len() && #[trigger] (a + b0)[i] is Error;
                if i < a.len() {
                    assert(a[i] is Error);
                } else {
                    assert(b0[i - a.len()] is Error);
                }
            }
            if has_error(b0) {
                let i = choose|i: int| 0 <= i < b0.len() && #[trigger] b0[i] is Error;
                assert((a + b0)[i + a.len()] is Error);
            }
        }
        if !has_error(b0) {
            match b.last() {
                PollView::Error(m) => {
                    assert(converted(a) + converted(b0).push(PlayerEventView::MpvError(m)) =~= (
                    converted(a) + converted(b0)).push(PlayerEventView::MpvError(m)));
                },
                PollView::Event(e) => match convert(e) {
                    Some(t) => {
                        assert(converted(a) + converted(b0).push(t) =~= (converted(a)
                            + converted(b0)).push(t));
                    },
                    None => {},
                },
            }
        }
    }
}

/// The mathematical state of the proxy.
pub struct PlayerView {
    pub observed: Set<Seq<char>>,
    pub pending: Seq<PlayerEventView>,
    pub render_context: bool,
}

/// The proxy's state: the names registered for change notification, the
/// typed events waiting for the next drain, and whether a render context
/// exists.
pub struct Player {
    observed: Vec<String>,
    pending: Vec<PlayerEvent>,
    render_context: bool,
}

impl View for Player {
    type V = PlayerView;

    closed spec fn view(&self) -> PlayerView {
        PlayerView {
            observed: self.observed@.map_values(|s: String| s@).to_set(),
            pending: self.pending@.map_values(|e: PlayerEvent| e@),
            render_context: self.render_context,
        }
    }
}

fn contains_name(names: &Vec<String>, name: &str) -> (r: bool)
    ensures
        r == names@.map_values(|s: String| s@).contains(name@),
{
    let mut i: usize = 0;
    while i < names.len()
        invariant
            i <= names@.len(),
            forall|j: int| 0 <= j < i ==> names@[j]@ != name@,
        decreases names@.len() - i,
    {
        if str_eq(names[i].as_str(), name) {
            assert(names@.map_values(|s: String| s@)[i as int] == name@);
            return true;
        }
        i = i + 1;
    }
    proof {
        let m = names@.map_values(|s: String| s@);
        if m.contains(name@) {
            let j = choose|j: int| 0 <= j < m.len() && m[j] == name@;
            assert(names@[j]@ == name@);
        }
    }
    false
}

fn convert_event(e: &EngineEvent) -> (r: Option<PlayerEvent>)
    ensures
        match convert(e@) {
            Some(t) => r matches Some(x) && x@ == t,
            None => r is None,
        },
{
    match e {
        EngineEvent::StartFile => Some(PlayerEvent::Start),
        EngineEvent::EndFile(code) => {
            let reason = if *code == END_FILE_QUIT {
                Some(StopReason::Quit)
            } else if *code == END_FILE_ERROR {
                Some(StopReason::General)
            } else {
                None
            };
            Some(PlayerEvent::Stop(reason))
        },
        EngineEvent::PropertyChange(name, value) => match value {
            UntypedValue::Other => None,
            _ => Some(PlayerEvent::PropertyChange(MpvProperty(name.clone(), Some(value.copied())))),
        },
        EngineEvent::Other => None,
    }
}

/// Once a run of polls holds an engine error, later polls add no events.
proof fn lemma_error_ends_run(polls: Seq<PollView>, k: int)
    requires
        0 <= k <= polls.len(),
        has_error(polls.take(k)),
    ensures
        forall|m: int| k <= m <= polls.len() ==> #[trigger] converted(polls.take(m)) == converted(
            polls.take(k),
        ),
    decreases polls.len() - k,
{
    if k < polls.len() {
        assert(polls.take(k + 1).drop_last() =~= polls.take(k));
        assert(has_error(polls.take(k + 1))) by {
            let j = choose|j: int| 0 <= j < k && #[trigger] polls.take(k)[j] is Error;
            assert(polls.take(k + 1)[j] is Error);
        }
        lemma_error_ends_run(polls, k + 1);
    }
}

impl PlayerEvent {
    /// The typed event for a native event; `None` for events that the proxy
    /// drops (unsupported event kinds and payloads).
    pub fn from_engine(e: EngineEvent) -> (r: Option<PlayerEvent>)
        ensures
            match convert(e@) {
                Some(t) => r matches Some(x) && x@ == t,
                None => r is None,
            },
    {
        convert_event(&e)
    }
}

/// The engine's `msg-level` option: everything at the level `scope` names,
/// or nothing logged without one.
pub open spec fn msg_level(scope: Option<Seq<char>>) -> Seq<char> {
    match scope {
        Some(s) => "all="@ + s,
        None => "all=no"@,
    }
}

/// The options the engine is created with, in order.
pub open spec fn engine_options_spec(scope: Option<Seq<char>>) -> Seq<(Seq<char>, Seq<char>)> {
    seq![
        ("vo"@, "libmpv"@),
        ("hwdec"@, "auto"@),
        ("vd-lavc-dr"@, "yes"@),
        ("video-timing-offset"@, "0"@),
        ("terminal"@, "yes"@),
        ("msg-level"@, msg_level(scope)),
        ("cache"@, "yes"@),
        ("demuxer-max-bytes"@, "100000000"@),
        ("demuxer-readahead-secs"@, "20"@),
    ]
}

fn option(name: &str, value: &str) -> (r: (String, String))
    ensures
        r.0@ == name@,
        r.1@ == value@,
{
    (String::from_str(name), String::from_str(value))
}

/// The options to create the engine with: video output through the render
/// API, hardware decoding where available, a 100 MB demuxer cache reading 20
/// seconds ahead, and log output at the level `log_scope` names.
pub fn engine_options(log_scope: Option<String>) -> (r: Vec<(String, String)>)
    ensures
        r@.map_values(|p: (String, String)| (p.0@, p.1@)) == engine_options_spec(
            match log_scope {
                Some(s) => Some(s@),
                None => None,
            },
        ),
{
    let level = match log_scope {
        Some(scope) => String::from_str("all=").concat(scope.as_str()),
        None => String::from_str("all=no"),
    };
    let mut r: Vec<(String, String)> = Vec::new();
    r.push(option("vo", "libmpv"));
    r.push(option("hwdec", "auto"));
    r.push(option("vd-lavc-dr", "yes"));
    r.push(option("video-timing-offset", "0"));
    r.push(option("terminal", "yes"));
    r.push((String::from_str("msg-level"), level));
    r.push(option("cache", "yes"));
    r.push(option("demuxer-max-bytes", "100000000"));
    r.push(option("demuxer-readahead-secs", "20"));
    proof {
        assert(r@.map_values(|p: (String, String)| (p.0@, p.1@)) =~= engine_options_spec(
            match log_scope {
                Some(s) => Some(s@),
                None => None,
            },
        ));
    }
    r
}

impl Player {
    /// No name is recorded as observed twice.
    pub closed spec fn wf(&self) -> bool {
        self.observed@.map_values(|s: String| s@).no_duplicates()
    }

    /// A proxy that observes nothing, has nothing queued and no render context.
    pub fn new() -> (r: Player)
        ensures
            r.wf(),
            r@.observed == Set::<Seq<char>>::empty(),
            r@.pending == Seq::<PlayerEventView>::empty(),
            !r@.render_context,
    {
        let r = Player { observed: Vec::new(), pending: Vec::new(), render_context: false };
        proof {
            assert(r.observed@.map_values(|s: String| s@).to_set() =~= Set::<Seq<char>>::empty());
            assert(r.pending@.map_values(|e: PlayerEvent| e@) =~= Seq::<PlayerEventView>::empty());
        }
        r
    }

    /// What observing `name` asks of the engine: `Some(kind)` when the
    /// engine is to register `name` with `kind`, `None` when the name is not
    /// registered or already observed.
    pub fn observe_property(&self, name: &str) -> (r: Option<PropertyKind>)
        ensures
            r == observe_request(self@.observed, name@),
    {
        match kind_of(name) {
            Some(k) => {
                if contains_name(&self.observed, name) {
                    None
                } else {
                    Some(k)
                }
            },
            None => None,
        }
    }

    /// Records that the engine accepted the registration of `name`; a name
    /// that is not registered, or already observed, changes nothing.
    pub fn observe_accepted(&mut self, name: String)
        requires
            old(self).wf(),
        ensures
            final(self).wf(),
            final(self)@.observed == observe_accepted(old(self)@.observed, name@),
            final(self)@.pending == old(self)@.pending,
            final(self)@.render_context == old(self)@.render_context,
    {
        if kind_of(name.as_str()).is_some() && !contains_name(&self.observed, name.as_str()) {
            let ghost old_names = self.observed@.map_values(|s: String| s@);
            let ghost n = name@;
            self.observed.push(name);
            proof {
                let new_names = self.observed@.map_values(|s: String| s@);
                assert(new_names =~= old_names.push(n));
                assert(new_names.to_set() =~= old_names.to_set().insert(n)) by {
                    assert forall|x| new_names.to_set().contains(x) <==> old_names.to_set().insert(n).contains(x) by {
                        if x == n {
                            assert(new_names[old_names.len() as int] == n);
                        } else if old_names.contains(x) {
                            let j = choose|j: int| 0 <= j < old_names.len() && old_names[j] == x;
                            assert(new_names[j] == x);
                        } else if new_names.contains(x) {
                            let j = choose|j: int| 0 <= j < new_names.len() && new_names[j] == x;
                            assert(j < old_names.len());
                            assert(old_names[j] == x);
                        }
                    }
                }
            }
        } else {
            proof {
                let names = self.observed@.map_values(|s: String| s@);
                if registered_kind(name@) is Some {
                    assert(names.to_set().insert(name@) =~= names.to_set());
                }
            }
        }
    }

    /// What setting `property` hands the engine: its typed value, checked
    /// against the registry, or the local error on which no engine call is made.
    pub fn set_property(&self, property: MpvProperty) -> (r: Result<MpvPropertyValue, &'static str>)
        ensures
            typed_value(property.0@, property.payload()) matches Some(v) ==> r matches Ok(x) && x@
                == v,
            typed_value(property.0@, property.payload()) is None ==> r == Err::<
                MpvPropertyValue,
                &'static str,
            >(value_error(property.0@, property.payload())),
    {
        property.value()
    }

    /// Queues the signal that the engine has a new frame ready.
    pub fn queue_update(&mut self)
        ensures
            final(self).wf() == old(self).wf(),
            final(self)@.pending == old(self)@.pending.push(PlayerEventView::Update),
            final(self)@.observed == old(self)@.observed,
            final(self)@.render_context == old(self)@.render_context,
    {
        let ghost old_pending = self.pending@;
        self.pending.push(PlayerEvent::Update);
        proof {
            assert(self.pending@.map_values(|e: PlayerEvent| e@) =~= old_pending.map_values(
                |e: PlayerEvent| e@,
            ).push(PlayerEventView::Update));
        }
    }

    /// Drains one tick: the events queued before, then the typed events for
    /// `polled` (the results of polling the engine, in order) up to and
    /// including the first engine error; all in arrival order, each once.
    pub fn events(&mut self, polled: Vec<PollResult>) -> (r: Vec<PlayerEvent>)
        ensures
            final(self).wf() == old(self).wf(),
            r@.map_values(|e: PlayerEvent| e@) == old(self)@.pending + converted(
                polled@.map_values(|p: PollResult| p@),
            ),
            final(self)@.pending == Seq::<PlayerEventView>::empty(),
            final(self)@.observed == old(self)@.observed,
            final(self)@.render_context == old(self)@.render_context,
    {
        let ghost polls = polled@.map_values(|p: PollResult| p@);
        let mut out: Vec<PlayerEvent> = Vec::new();
        std::mem::swap(&mut out, &mut self.pending);
        let ghost start = out@.map_values(|e: PlayerEvent| e@);
        let mut i: usize = 0;
        let n = polled.len();
        while i < n
            invariant
                n == polled@.len(),
                polls == polled@.map_values(|p: PollResult| p@),
                self.pending@.len() == 0,
                self.observed == old(self).observed,
                self.render_context == old(self).render_context,
                start == old(self)@.pending,
                i <= n,
                !has_error(polls.take(i as int)),
                out@.map_values(|e: PlayerEvent| e@) == start + converted(polls.take(i as int)),
            decreases n - i,
        {
            let ghost pre = out@.map_values(|e: PlayerEvent| e@);
            proof {
                assert(polls.take(i + 1).drop_last() =~= polls.take(i as int));
                assert(polls.take(i + 1).last() == polls[i as int]);
            }
            match &polled[i] {
                PollResult::Error(m) => {
                    let ghost mv = m@;
                    out.push(PlayerEvent::MpvError(m.clone()));
                    proof {
                        assert(out@.map_values(|e: PlayerEvent| e@) =~= pre.push(
                            PlayerEventView::MpvError(mv),
                        ));
                        assert(polls[i as int] == polled@[i as int]@);
                        assert(polls[i as int] == PollView::Error(mv));
                        assert(polls.take(i + 1)[i as int] is Error);
                        assert(has_error(polls.take(i + 1)));
                        assert(converted(polls.take(i + 1)) == converted(polls.take(i as int)).push(
                            PlayerEventView::MpvError(mv),
                        ));
                        lemma_error_ends_run(polls, i + 1);
                        assert(converted(polls.take(n as int)) == converted(polls.take(i + 1)));
                        assert(polls.take(n as int) =~= polls);
                        assert(out@.map_values(|e: PlayerEvent| e@) =~= start + converted(polls));
                        assert(self.pending@.map_values(|e: PlayerEvent| e@) =~= Seq::<
                            PlayerEventView,
                        >::empty());
                    }
                    return out;
                },
                PollResult::Event(e) => {
                    let ghost ev = e@;
                    proof {
                        assert(polls[i as int] == PollView::Event(ev));
                    }
                    proof {
                        assert(polls[i as int] == polled@[i as int]@);
                    }
                    match convert_event(e) {
                        Some(t) => {
                            out.push(t);
                            proof {
                                assert(out@.map_values(|e: PlayerEvent| e@) =~= pre.push(
                                    convert(ev).unwrap(),
                                ));
                            }
                        },
                        None => {},
                    }
                    proof {
                        assert(!has_error(polls.take(i + 1))) by {
                            if has_error(polls.take(i + 1)) {
                                let j = choose|j: int|
                                    0 <= j < i + 1 && #[trigger] polls.take(i + 1)[j] is Error;
                                if j < i {
                                    assert(polls.take(i as int)[j] is Error);
                                }
                            }
                        }
                    }
                },
            }
            i = i + 1;
        }
        proof {
            assert(polls.take(n as int) =~= polls);
            assert(self.pending@.map_values(|e: PlayerEvent| e@) =~= Seq::<PlayerEventView>::empty());
        }
        out
    }

    /// Records whether a render context bound to a new display surface was
    /// created; any earlier one has been torn down.
    pub fn setup(&mut self, created: bool)
        ensures
            final(self).wf() == old(self).wf(),
            final(self)@.render_context == created,
            final(self)@.observed == old(self)@.observed,
            final(self)@.pending == old(self)@.pending,
    {
        self.render_context = created;
    }

    /// Tears the render context down; playback state is kept.
    pub fn release(&mut self)
        ensures
            final(self).wf() == old(self).wf(),
            !final(self)@.render_context,
            final(self)@.observed == old(self)@.observed,
            final(self)@.pending == old(self)@.pending,
    {
        self.render_context = false;
    }

    /// Whether the engine is to draw its current frame into a destination
    /// buffer of `width` by `height`: only with a render context and a
    /// positive size.
    pub fn render(&self, width: i32, height: i32) -> (r: bool)
        ensures
            r == (self@.render_context && width > 0 && height > 0),
    {
        self.render_context && width > 0 && height > 0
    }

    /// Whether the engine is to be told that a frame was presented.
    pub fn report_swap(&self) -> (r: bool)
        ensures
            r == self@.render_context,
    {
        self.render_context
    }
}

} // verus!
