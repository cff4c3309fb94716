//! The data model of ingested telemetry: events, log entries, and their
//! mathematical views.

use vstd::prelude::*;

verus! {

/// One generated completion choice carried by a `Completion` event.
pub struct Choice {
    pub index: u32,
    pub text: String,
}

/// The prompt context carried by a `Completion` event.
pub struct Segments {
    pub prefix: String,
    pub suffix: Option<String>,
}

/// A telemetry event from the code-completion assistant: the closed union of
/// everything the ingestion API accepts. Immutable once constructed.
pub enum Event {
    View {
        completion_id: String,
        choice_index: u32,
        view_id: Option<String>,
    },
    Select {
        completion_id: String,
        choice_index: u32,
        view_id: Option<String>,
        kind: Option<String>,
        elapsed: Option<u32>,
    },
    Dismiss {
        completion_id: String,
        choice_index: u32,
        view_id: Option<String>,
        elapsed: Option<u32>,
    },
    Completion {
        completion_id: String,
        language: String,
        prompt: String,
        segments: Option<Segments>,
        choices: Vec<Choice>,
        user_agent: Option<String>,
    },
    ChatCompletion {},
}

/// One ingested event together with its timestamp (milliseconds) and the
/// opaque identifier the caller supplied, if any.
pub struct LogEntry {
    pub ts: u64,
    pub user: Option<String>,
    pub event: Event,
}

// Mathematical views of the data model: every string becomes a sequence of
// characters, so that contracts can speak of its contents.

pub struct ChoiceV {
    pub index: u32,
    pub text: Seq<char>,
}

pub struct SegmentsV {
    pub prefix: Seq<char>,
    pub suffix: Option<Seq<char>>,
}

pub enum EventV {
    View {
        completion_id: Seq<char>,
        choice_index: u32,
        view_id: Option<Seq<char>>,
    },
    Select {
        completion_id: Seq<char>,
        choice_index: u32,
        view_id: Option<Seq<char>>,
        kind: Option<Seq<char>>,
        elapsed: Option<u32>,
    },
    Dismiss {
        completion_id: Seq<char>,
        choice_index: u32,
        view_id: Option<Seq<char>>,
        elapsed: Option<u32>,
    },
    Completion {
        completion_id: Seq<char>,
        language: Seq<char>,
        prompt: Seq<char>,
        segments: Option<SegmentsV>,
        choices: Seq<ChoiceV>,
        user_agent: Option<Seq<char>>,
    },
    ChatCompletion {},
}

pub struct LogEntryV {
    pub ts: u64,
    pub user: Option<Seq<char>>,
    pub event: EventV,
}

impl View for Choice {
    type V = ChoiceV;

    open spec fn view(&self) -> ChoiceV {
        ChoiceV { index: self.index, text: self.text@ }
    }
}

impl View for Segments {
    type V = SegmentsV;

    open spec fn view(&self) -> SegmentsV {
        SegmentsV { prefix: self.prefix@, suffix: self.suffix.deep_view() }
    }
}

impl View for Event {
    type V = EventV;

    open spec fn view(&self) -> EventV {
        match self {
            Event::View { completion_id, choice_index, view_id } => EventV::View {
                completion_id: completion_id@,
                choice_index: *choice_index,
                view_id: view_id.deep_view(),
            },
            Event::Select { completion_id, choice_index, view_id, kind, elapsed } => EventV::Select {
                completion_id: completion_id@,
                choice_index: *choice_index,
                view_id: view_id.deep_view(),
                kind: kind.deep_view(),
                elapsed: *elapsed,
            },
            Event::Dismiss { completion_id, choice_index, view_id, elapsed } => EventV::Dismiss {
                completion_id: completion_id@,
                choice_index: *choice_index,
                view_id: view_id.deep_view(),
                elapsed: *elapsed,
            },
            Event::Completion {
                completion_id,
                language,
                prompt,
                segments,
                choices,
                user_agent,
            } => EventV::Completion {
                completion_id: completion_id@,
                language: language@,
                prompt: prompt@,
                segments: match segments {
                    Some(s) => Some(s@),
                    None => None,
                },
                choices: choices@.map_values(|c: Choice| c@),
                user_agent: user_agent.deep_view(),
            },
            Event::ChatCompletion {} => EventV::ChatCompletion {},
        }
    }
}

impl View for LogEntry {
    type V = LogEntryV;

    open spec fn view(&self) -> LogEntryV {
        LogEntryV { ts: self.ts, user: self.user.deep_view(), event: self.event@ }
    }
}

/// The classification an event falls under: the discriminant recorded with
/// each audit record.
#[derive(Clone, Copy, Debug, PartialEq, Eq, Structural)]
pub enum EventKind {
    View,
    Select,
    Dismiss,
    Completion,
    ChatCompletion,
}

/// The stable string form of an event kind, as the gateway stores it.
pub open spec fn kind_str(k: EventKind) -> Seq<char> {
    match k {
        EventKind::View => "view"@,
        EventKind::Select => "select"@,
        EventKind::Dismiss => "dismiss"@,
        EventKind::Completion => "completion"@,
        EventKind::ChatCompletion => "chat_completion"@,
    }
}

/// The kind an event classifies to.
pub open spec fn kind_of(e: EventV) -> EventKind {
    match e {
        EventV::View { .. } => EventKind::View,
        EventV::Select { .. } => EventKind::Select,
        EventV::Dismiss { .. } => EventKind::Dismiss,
        EventV::Completion { .. } => EventKind::Completion,
        EventV::ChatCompletion { .. } => EventKind::ChatCompletion,
    }
}

impl EventKind {
    /// The stable string form stored by the gateway.
    pub fn as_enum_str(&self) -> (r: &'static str)
        ensures
            r@ == kind_str(*self),
    {
        match self {
            EventKind::View => "view",
            EventKind::Select => "select",
            EventKind::Dismiss => "dismiss",
            EventKind::Completion => "completion",
            EventKind::ChatCompletion => "chat_completion",
        }
    }
}

impl Event {
    /// The kind this event classifies to.
    pub fn kind(&self) -> (r: EventKind)
        ensures
            r == kind_of(self@),
    {
        match self {
            Event::View { .. } => EventKind::View,
            Event::Select { .. } => EventKind::Select,
            Event::Dismiss { .. } => EventKind::Dismiss,
            Event::Completion { .. } => EventKind::Completion,
            Event::ChatCompletion { .. } => EventKind::ChatCompletion,
        }
    }
}

} // verus!
