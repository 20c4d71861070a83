use vstd::prelude::*;
use vstd::string::StringExecFns;
use crate::api::{failure_response, failure_text, StoreError, StoreErrorView};
use crate::dto::{ApiResponse, STATUS_INTERNAL_SERVER_ERROR, STATUS_OK};
use crate::query::texts;

verus! {

/// Key under which the list of distinct function names is cached.
pub const FUNCTIONS_CACHE_KEY: &'static str = "mq_functions";

/// The list that `serde_json::from_str` reads from a text as a JSON array of
/// strings, or `None` where the text is not one.
pub uninterp spec fn json_string_list(text: Seq<char>) -> Option<Seq<Seq<char>>>;

/// The JSON text that `serde_json::to_string` writes for a list of strings.
pub uninterp spec fn string_list_json(list: Seq<Seq<char>>) -> Seq<char>;

/// A list of names as a plain value.
pub open spec fn names_view(list: Option<Vec<String>>) -> Option<Seq<Seq<char>>> {
    match list {
        Some(l) => Some(texts(l@)),
        None => None,
    }
}

/// Parses a cached text with `serde_json::from_str` as a vector of strings.
///
/// Trusted: the result is the named list.
#[verifier::external_body]
fn parse_string_list(text: &str) -> (list: Option<Vec<String>>)
    ensures
        names_view(list) == json_string_list(text@),
{
    serde_json::from_str::<Vec<String>>(text).ok()
}

/// Renders a list with `serde_json::to_string`.
///
/// Trusted: the result is the named text; and the text that is written for
/// a list is read back as that list (the writer emits a JSON array of
/// string literals, escaping what must be escaped, and the reader undoes
/// exactly those escapes).
#[verifier::external_body]
fn render_string_list(list: &Vec<String>) -> (text: String)
    ensures
        text@ == string_list_json(texts(list@)),
        json_string_list(text@) == Some(texts(list@)),
{
    serde_json::to_string(list).unwrap_or_default()
}

/// The cache-aside protocol in front of one reference list: the key of its
/// entry, and whether an external cache is configured at all.
pub struct ReferenceCache {
    pub key: String,
    pub configured: bool,
}

/// Where a lookup stands.
#[derive(Debug)]
pub enum CachePhase {
    /// Nothing has been asked yet.
    Idle,
    /// The cache has been asked for the entry.
    Reading,
    /// The loader has been asked for the authoritative list.
    Loading,
    /// The loader's list is being written to the cache.
    Writing(Vec<String>),
    /// The reply has been given.
    Finished,
}

/// What the outside reports back.
#[derive(Debug)]
pub enum CacheEvent {
    /// The lookup begins.
    Started,
    /// The cache answered: the entry's text, or nothing where the cache
    /// could not be reached, the read failed or the entry is missing.
    ReadDone(Option<String>),
    /// The loader answered.
    LoadDone(Result<Vec<String>, StoreError>),
    /// The write to the cache ended, successfully or not.
    WriteDone(bool),
}

/// What the outside is to do next.
#[derive(Debug)]
pub enum CacheAction {
    /// Ask the cache for the entry under the key.
    Read { key: String },
    /// Ask the loader for the authoritative list.
    Load,
    /// Try to write the text under the key; a failure is only logged.
    Write { key: String, json: String },
    /// Answer the request.
    Reply(ApiResponse<Vec<String>>),
    /// Nothing: the event was not awaited and is ignored.
    Nothing,
}

/// A phase as a plain value.
pub enum PhaseView {
    Idle,
    Reading,
    Loading,
    Writing(Seq<Seq<char>>),
    Finished,
}

/// An event as a plain value.
pub enum EventView {
    Started,
    ReadDone(Option<Seq<char>>),
    LoadDone(Result<Seq<Seq<char>>, StoreErrorView>),
    WriteDone(bool),
}

/// A reply as a plain value.
pub struct ReplyView {
    pub success: bool,
    pub message: Seq<char>,
    pub status_code: u16,
    pub data: Option<Seq<Seq<char>>>,
}

/// An action as a plain value.
pub enum ActionView {
    Read { key: Seq<char> },
    Load,
    Write { key: Seq<char>, json: Seq<char> },
    Reply(ReplyView),
    Nothing,
}

impl View for CachePhase {
    type V = PhaseView;

    open spec fn view(&self) -> PhaseView {
        match self {
            CachePhase::Idle => PhaseView::Idle,
            CachePhase::Reading => PhaseView::Reading,
            CachePhase::Loading => PhaseView::Loading,
            CachePhase::Writing(list) => PhaseView::Writing(texts(list@)),
            CachePhase::Finished => PhaseView::Finished,
        }
    }
}

impl View for CacheEvent {
    type V = EventView;

    open spec fn view(&self) -> EventView {
        match self {
            CacheEvent::Started => EventView::Started,
            CacheEvent::ReadDone(Some(text)) => EventView::ReadDone(Some(text@)),
            CacheEvent::ReadDone(None) => EventView::ReadDone(None),
            CacheEvent::LoadDone(Ok(list)) => EventView::LoadDone(Ok(texts(list@))),
            CacheEvent::LoadDone(Err(e)) => EventView::LoadDone(Err(e@)),
            CacheEvent::WriteDone(ok) => EventView::WriteDone(*ok),
        }
    }
}

/// The reply that an envelope stands for.
pub open spec fn reply_view(resp: ApiResponse<Vec<String>>) -> ReplyView {
    ReplyView {
        success: resp.success,
        message: resp.message@,
        status_code: resp.status_code,
        data: names_view(resp.data),
    }
}

impl View for CacheAction {
    type V = ActionView;

    open spec fn view(&self) -> ActionView {
        match self {
            CacheAction::Read { key } => ActionView::Read { key: key@ },
            CacheAction::Load => ActionView::Load,
            CacheAction::Write { key, json } => ActionView::Write { key: key@, json: json@ },
            CacheAction::Reply(resp) => ActionView::Reply(reply_view(*resp)),
            CacheAction::Nothing => ActionView::Nothing,
        }
    }
}

/// The reply to a hit: the cached list, verbatim.
pub open spec fn hit_reply(list: Seq<Seq<char>>) -> ReplyView {
    ReplyView {
        success: true,
        message: "Success (cache)"@,
        status_code: STATUS_OK,
        data: Some(list),
    }
}

/// The reply after a load: the loader's list.
pub open spec fn loaded_reply(list: Seq<Seq<char>>) -> ReplyView {
    ReplyView { success: true, message: "Success"@, status_code: STATUS_OK, data: Some(list) }
}

/// The reply after a failed load.
pub open spec fn failed_reply(cause: Seq<char>) -> ReplyView {
    ReplyView {
        success: false,
        message: failure_text(cause),
        status_code: STATUS_INTERNAL_SERVER_ERROR,
        data: None,
    }
}

/// The list that a cache answer holds: none where the cache gave no text or
/// the text is not a JSON array of strings.
pub open spec fn cached_list(reply: Option<Seq<char>>) -> Option<Seq<Seq<char>>> {
    match reply {
        Some(text) => json_string_list(text),
        None => None,
    }
}

/// What follows the cache's answer, given the list parsed from it: a hit
/// ends the lookup with that list; anything else falls through to the loader.
pub open spec fn after_read(parsed: Option<Seq<Seq<char>>>) -> (PhaseView, ActionView) {
    match parsed {
        Some(list) => (PhaseView::Finished, ActionView::Reply(hit_reply(list))),
        None => (PhaseView::Loading, ActionView::Load),
    }
}

/// The protocol: the phase and action that follow a phase and an event.
///
/// A lookup asks the cache first, if one is configured. A hit is replied
/// verbatim and the loader is not asked. Otherwise the loader is asked; its
/// failure is replied as such; its list is written to the cache, if one is
/// configured, and then replied whatever became of the write. An event that
/// the phase does not await changes nothing.
pub open spec fn next(key: Seq<char>, configured: bool, phase: PhaseView, event: EventView) -> (
    PhaseView,
    ActionView,
) {
    match (phase, event) {
        (PhaseView::Idle, EventView::Started) => if configured {
            (PhaseView::Reading, ActionView::Read { key })
        } else {
            (PhaseView::Loading, ActionView::Load)
        },
        (PhaseView::Reading, EventView::ReadDone(reply)) => after_read(cached_list(reply)),
        (PhaseView::Loading, EventView::LoadDone(Ok(list))) => if configured {
            (PhaseView::Writing(list), ActionView::Write { key, json: string_list_json(list) })
        } else {
            (PhaseView::Finished, ActionView::Reply(loaded_reply(list)))
        },
        (PhaseView::Loading, EventView::LoadDone(Err(error))) => (
            PhaseView::Finished,
            ActionView::Reply(failed_reply(error.cause())),
        ),
        (PhaseView::Writing(list), EventView::WriteDone(_)) => (
            PhaseView::Finished,
            ActionView::Reply(loaded_reply(list)),
        ),
        _ => (phase, ActionView::Nothing),
    }
}

/// Whether a phase awaits an event: the start when nothing was asked yet,
/// and after each request the outside's report of it.
pub open spec fn awaits(phase: PhaseView, event: EventView) -> bool {
    match (phase, event) {
        (PhaseView::Idle, EventView::Started) => true,
        (PhaseView::Reading, EventView::ReadDone(_)) => true,
        (PhaseView::Loading, EventView::LoadDone(_)) => true,
        (PhaseView::Writing(_), EventView::WriteDone(_)) => true,
        _ => false,
    }
}

/// The report that an action asks for; a reply and no action ask for none.
pub open spec fn reports(action: ActionView, event: EventView) -> bool {
    match (action, event) {
        (ActionView::Read { .. }, EventView::ReadDone(_)) => true,
        (ActionView::Load, EventView::LoadDone(_)) => true,
        (ActionView::Write { .. }, EventView::WriteDone(_)) => true,
        _ => false,
    }
}

/// The protocol never stalls: an awaited event is always answered with an
/// action, an event that is not awaited with none and no change of phase;
/// and the report of the action just asked for is what the next phase
/// awaits. So a driver that starts a lookup and reports each action in turn
/// is never told to do nothing before it is told to reply.
pub proof fn awaited_event_is_answered(
    key: Seq<char>,
    configured: bool,
    phase: PhaseView,
    event: EventView,
    report: EventView,
)
    ensures
        awaits(phase, event) <==> !(next(key, configured, phase, event).1 is Nothing),
        !awaits(phase, event) ==> next(key, configured, phase, event).0 == phase,
        awaits(phase, event) && reports(next(key, configured, phase, event).1, report) ==> awaits(
            next(key, configured, phase, event).0,
            report,
        ),
        awaits(phase, event) && next(key, configured, phase, event).1 is Reply ==> next(
            key,
            configured,
            phase,
            event,
        ).0 == PhaseView::Finished,
{
}

/// The kinds of action that a lookup can ask for.
pub enum ActionKind {
    Read,
    Load,
    Write,
    Reply,
}

/// Whether an action is of a kind.
pub open spec fn is_kind(action: ActionView, kind: ActionKind) -> bool {
    match kind {
        ActionKind::Read => action is Read,
        ActionKind::Load => action is Load,
        ActionKind::Write => action is Write,
        ActionKind::Reply => action is Reply,
    }
}

/// How many actions of a kind a lookup asks for when it is fed the events
/// in turn, starting in the given phase.
pub open spec fn count_in_run(
    key: Seq<char>,
    configured: bool,
    phase: PhaseView,
    events: Seq<EventView>,
    kind: ActionKind,
) -> nat
    decreases events.len(),
{
    if events.len() == 0 {
        0
    } else {
        let (after, action) = next(key, configured, phase, events[0]);
        let here: nat = if is_kind(action, kind) {
            1
        } else {
            0
        };
        here + count_in_run(key, configured, after, events.drop_first(), kind)
    }
}

/// How many actions of a kind can still come once a phase is reached.
pub open spec fn remaining(phase: PhaseView, kind: ActionKind) -> nat {
    match (phase, kind) {
        (PhaseView::Idle, _) => 1,
        (PhaseView::Reading, ActionKind::Read) => 0,
        (PhaseView::Reading, _) => 1,
        (PhaseView::Loading, ActionKind::Write) => 1,
        (PhaseView::Loading, ActionKind::Reply) => 1,
        (PhaseView::Loading, _) => 0,
        (PhaseView::Writing(_), ActionKind::Reply) => 1,
        (PhaseView::Writing(_), _) => 0,
        (PhaseView::Finished, _) => 0,
    }
}

/// From any phase on, whatever events arrive and in whatever order, the
/// lookup asks for no more actions of a kind than remain for that phase.
pub proof fn run_stays_within_remaining(
    key: Seq<char>,
    configured: bool,
    phase: PhaseView,
    events: Seq<EventView>,
    kind: ActionKind,
)
    ensures
        count_in_run(key, configured, phase, events, kind) <= remaining(phase, kind),
    decreases events.len(),
{
    if events.len() > 0 {
        let (after, action) = next(key, configured, phase, events[0]);
        run_stays_within_remaining(key, configured, after, events.drop_first(), kind);
    }
}

/// A lookup reads the cache at most once, asks the loader at most once,
/// attempts at most one cache write and replies at most once, whatever
/// events arrive.
pub proof fn each_action_at_most_once(
    key: Seq<char>,
    configured: bool,
    events: Seq<EventView>,
    kind: ActionKind,
)
    ensures
        count_in_run(key, configured, PhaseView::Idle, events, kind) <= 1,
{
    run_stays_within_remaining(key, configured, PhaseView::Idle, events, kind);
}

/// Cache fallthrough: when the cache gives no usable entry, the loader is
/// asked, its list is offered to the cache in exactly one write under the
/// same key, and the reply carries the loader's list whether or not that
/// write succeeded. No further write follows, whatever events arrive.
pub proof fn miss_falls_through_to_loader(
    key: Seq<char>,
    reply: Option<Seq<char>>,
    list: Seq<Seq<char>>,
    written: bool,
    later: Seq<EventView>,
)
    requires
        cached_list(reply) is None,
    ensures
        ({
            let begun = next(key, true, PhaseView::Idle, EventView::Started);
            let missed = next(key, true, begun.0, EventView::ReadDone(reply));
            let loaded = next(key, true, missed.0, EventView::LoadDone(Ok(list)));
            let ended = next(key, true, loaded.0, EventView::WriteDone(written));
            &&& begun.1 == ActionView::Read { key }
            &&& missed.1 == ActionView::Load
            &&& loaded.1 == ActionView::Write { key, json: string_list_json(list) }
            &&& ended.1 == ActionView::Reply(loaded_reply(list))
            &&& loaded_reply(list).data == Some(list)
            &&& ended.0 == PhaseView::Finished
            &&& count_in_run(key, true, ended.0, later, ActionKind::Write) == 0
        }),
{
    run_stays_within_remaining(key, true, PhaseView::Finished, later, ActionKind::Write);
}

/// Without a configured cache the loader is asked at once and its list is
/// replied; no cache action is ever asked for.
pub proof fn unconfigured_cache_is_bypassed(key: Seq<char>, list: Seq<Seq<char>>)
    ensures
        ({
            let begun = next(key, false, PhaseView::Idle, EventView::Started);
            let loaded = next(key, false, begun.0, EventView::LoadDone(Ok(list)));
            &&& begun.1 == ActionView::Load
            &&& loaded == (PhaseView::Finished, ActionView::Reply(loaded_reply(list)))
        }),
{
}

/// A hit short-circuits the source: an entry that parses is replied
/// verbatim, and the loader is never asked, nor the cache written, whatever
/// events arrive afterwards. Nothing in the protocol expires an entry.
pub proof fn hit_is_served_verbatim(
    key: Seq<char>,
    configured: bool,
    text: Seq<char>,
    list: Seq<Seq<char>>,
    later: Seq<EventView>,
)
    requires
        json_string_list(text) == Some(list),
    ensures
        ({
            let served = next(key, configured, PhaseView::Reading, EventView::ReadDone(Some(text)));
            &&& served == (PhaseView::Finished, ActionView::Reply(hit_reply(list)))
            &&& count_in_run(key, configured, served.0, later, ActionKind::Load) == 0
            &&& count_in_run(key, configured, served.0, later, ActionKind::Write) == 0
        }),
{
    run_stays_within_remaining(key, configured, PhaseView::Finished, later, ActionKind::Load);
    run_stays_within_remaining(key, configured, PhaseView::Finished, later, ActionKind::Write);
}

/// A failed load is replied as a failure, whichever kind it is, with its
/// cause in the message, and nothing is written.
pub proof fn failed_load_is_not_cached(
    key: Seq<char>,
    configured: bool,
    error: StoreErrorView,
    later: Seq<EventView>,
)
    ensures
        ({
            let failed = next(key, configured, PhaseView::Loading, EventView::LoadDone(Err(error)));
            &&& failed == (PhaseView::Finished, ActionView::Reply(failed_reply(error.cause())))
            &&& count_in_run(key, configured, failed.0, later, ActionKind::Write) == 0
        }),
{
    run_stays_within_remaining(key, configured, PhaseView::Finished, later, ActionKind::Write);
}


/// Decides what follows the cache's answer, given the list parsed from it.
pub fn on_cached(parsed: Option<Vec<String>>) -> (out: (CachePhase, CacheAction))
    ensures
        (out.0@, out.1@) == after_read(names_view(parsed)),
{
    match parsed {
        Some(list) => (
            CachePhase::Finished,
            CacheAction::Reply(ApiResponse::success("Success (cache)", Some(list))),
        ),
        None => (CachePhase::Loading, CacheAction::Load),
    }
}

impl ReferenceCache {
    /// The cache-aside protocol for the list of distinct function names.
    pub fn for_functions(configured: bool) -> (cache: ReferenceCache)
        ensures
            cache.key@ == FUNCTIONS_CACHE_KEY@,
            cache.configured == configured,
    {
        ReferenceCache { key: String::from_str(FUNCTIONS_CACHE_KEY), configured }
    }

    /// Advances a lookup by one event and says what to do next.
    ///
    /// Where it asks for a write, the text to write is one that a later
    /// read of the entry serves as a hit with the very list just loaded.
    pub fn step(&self, phase: CachePhase, event: CacheEvent) -> (out: (CachePhase, CacheAction))
        ensures
            (out.0@, out.1@) == next(self.key@, self.configured, phase@, event@),
            out.1@ matches ActionView::Write { key, json } ==> (out.0@ matches PhaseView::Writing(
                list,
            ) ==> next(self.key@, self.configured, PhaseView::Reading, EventView::ReadDone(Some(json)))
                == (PhaseView::Finished, ActionView::Reply(hit_reply(list)))),
    {
        match (phase, event) {
            (CachePhase::Idle, CacheEvent::Started) => {
                if self.configured {
                    (CachePhase::Reading, CacheAction::Read { key: self.key.clone() })
                } else {
                    (CachePhase::Loading, CacheAction::Load)
                }
            },
            (CachePhase::Reading, CacheEvent::ReadDone(Some(text))) => on_cached(
                parse_string_list(text.as_str()),
            ),
            (CachePhase::Reading, CacheEvent::ReadDone(None)) => on_cached(None),
            (CachePhase::Loading, CacheEvent::LoadDone(Ok(list))) => {
                if self.configured {
                    let json = render_string_list(&list);
                    (CachePhase::Writing(list), CacheAction::Write { key: self.key.clone(), json })
                } else {
                    (
                        CachePhase::Finished,
                        CacheAction::Reply(ApiResponse::success("Success", Some(list))),
                    )
                }
            },
            (CachePhase::Loading, CacheEvent::LoadDone(Err(e))) => (
                CachePhase::Finished,
                CacheAction::Reply(failure_response(&e)),
            ),
            (CachePhase::Writing(list), CacheEvent::WriteDone(_)) => (
                CachePhase::Finished,
                CacheAction::Reply(ApiResponse::success("Success", Some(list))),
            ),
            (phase, _) => (phase, CacheAction::Nothing),
        }
    }
}

} // verus!
