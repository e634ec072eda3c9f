//! What a session hands to the memory of its project, and the rules it hands to its tools.

use vstd::prelude::*;
use vstd::string::*;

use crate::application::{AppView, HarnessApplication};
use crate::error::{failure, outcome, ApplicationError, Outcome};
use crate::json::{json_text, object, text_json, Json, JsonView};
use crate::model::option_view;
use crate::ordered::in_order;
use crate::results::{MeetingRecord, MeetingView};
use crate::text::texts;

verus! {

/// What kind of thing is remembered.
#[derive(Debug, PartialEq, Eq)]
pub enum MemoryKind {
    Meeting,
    Other { name: String },
}

pub enum MemoryKindView {
    Meeting,
    Other { name: Seq<char> },
}

impl View for MemoryKind {
    type V = MemoryKindView;

    open spec fn view(&self) -> MemoryKindView {
        match *self {
            MemoryKind::Meeting => MemoryKindView::Meeting,
            MemoryKind::Other { name } => MemoryKindView::Other { name: name@ },
        }
    }
}

/// Something new to remember. Whoever hands it over has only observed it.
#[derive(Debug, PartialEq, Eq)]
pub struct NewMemoryRecord {
    pub id: String,
    pub kind: MemoryKind,
    pub title: String,
    pub content: String,
    pub tags: Vec<String>,
    pub source_ref: Option<String>,
}

pub struct MemoryView {
    pub id: Seq<char>,
    pub kind: MemoryKindView,
    pub title: Seq<char>,
    pub content: Seq<char>,
    pub tags: Seq<Seq<char>>,
    pub source_ref: Option<Seq<char>>,
}

impl View for NewMemoryRecord {
    type V = MemoryView;

    open spec fn view(&self) -> MemoryView {
        MemoryView {
            id: self.id@,
            kind: self.kind@,
            title: self.title@,
            content: self.content@,
            tags: texts(self.tags@),
            source_ref: option_view(self.source_ref),
        }
    }
}

/// Texts as a list in JSON.
pub open spec fn texts_json(items: Seq<Seq<char>>) -> JsonView {
    JsonView::List(items.map_values(|t: Seq<char>| JsonView::Text(t)))
}

/// A number in JSON.
pub open spec fn number_json(n: i64) -> JsonView {
    if n >= 0 {
        JsonView::Unsigned(n as u64)
    } else {
        JsonView::Negative(n)
    }
}

/// A meeting in JSON.
pub open spec fn meeting_json(m: MeetingView) -> JsonView {
    JsonView::Object(
        seq![
            ("id"@, JsonView::Text(m.id)),
            ("missionId"@, JsonView::Text(m.mission_id)),
            ("topic"@, JsonView::Text(m.topic)),
            ("participants"@, texts_json(in_order(m.participants))),
            ("transcript"@, texts_json(m.transcript)),
            ("decisions"@, texts_json(m.decisions)),
            ("conflicts"@, texts_json(m.conflicts)),
            ("createdAtMillis"@, number_json(m.created_at_millis)),
            (
                "closedAtMillis"@,
                match m.closed_at_millis {
                    Some(at) => number_json(at),
                    None => JsonView::Null,
                },
            ),
        ],
    )
}

fn json_of_texts(items: &Vec<String>) -> (r: Json)
    ensures
        r@ == texts_json(texts(items@)),
{
    let mut list: Vec<Json> = Vec::new();
    let mut i: usize = 0;
    while i < items.len()
        invariant
            i <= items.len(),
            list@.len() == i,
            forall|k: int| 0 <= k < i ==> (#[trigger] list@[k])@ == JsonView::Text(items@[k]@),
        decreases items.len() - i,
    {
        list.push(text_json(items[i].as_str()));
        i = i + 1;
    }
    let r = Json::List(list);
    assert(r@->List_0 =~= texts_json(texts(items@))->List_0);
    r
}

fn json_of_number(n: i64) -> (r: Json)
    ensures
        r@ == number_json(n),
{
    if n >= 0 {
        Json::Unsigned(n as u64)
    } else {
        Json::Negative(n)
    }
}

fn json_of_meeting(meeting: &MeetingRecord) -> (r: Json)
    ensures
        r@ == meeting_json(meeting@),
{
    let closed = match meeting.closed_at_millis {
        Some(at) => json_of_number(at),
        None => Json::Null,
    };
    let r = object(
        vec![
            ("id".to_string(), text_json(meeting.id.as_str())),
            ("missionId".to_string(), text_json(meeting.mission_id.as_str())),
            ("topic".to_string(), text_json(meeting.topic.as_str())),
            ("participants".to_string(), json_of_texts(meeting.participants.items())),
            ("transcript".to_string(), json_of_texts(&meeting.transcript)),
            ("decisions".to_string(), json_of_texts(&meeting.decisions)),
            ("conflicts".to_string(), json_of_texts(&meeting.conflicts)),
            ("createdAtMillis".to_string(), json_of_number(meeting.created_at_millis)),
            ("closedAtMillis".to_string(), closed),
        ],
    );
    assert(r@->Object_0 =~= meeting_json(meeting@)->Object_0);
    r
}

/// What is remembered of a meeting: its topic, and all of it as JSON.
pub open spec fn meeting_memory(m: MeetingView, id: Seq<char>) -> MemoryView {
    MemoryView {
        id,
        kind: MemoryKindView::Meeting,
        title: m.topic,
        content: json_text(meeting_json(m)),
        tags: seq!["agent-meeting"@, "conflict"@],
        source_ref: Some(m.id),
    }
}

pub fn remember_meeting(meeting: &MeetingRecord, id: String) -> (r: NewMemoryRecord)
    ensures
        r@ == meeting_memory(meeting@, id@),
{
    let r = NewMemoryRecord {
        id,
        kind: MemoryKind::Meeting,
        title: meeting.topic.clone(),
        content: json_of_meeting(meeting).text(),
        tags: vec!["agent-meeting".to_string(), "conflict".to_string()],
        source_ref: Some(meeting.id.clone()),
    };
    assert(r@.tags =~= seq!["agent-meeting"@, "conflict"@]);
    r
}

/// A rule on what the tools may do.
#[derive(Debug, PartialEq, Eq)]
pub struct PermissionRule {
    pub id: String,
    pub effect: String,
    pub action: String,
    pub pattern: String,
}

pub struct RuleModel {
    pub id: Seq<char>,
    pub effect: Seq<char>,
    pub action: Seq<char>,
    pub pattern: Seq<char>,
}

impl View for PermissionRule {
    type V = RuleModel;

    open spec fn view(&self) -> RuleModel {
        RuleModel {
            id: self.id@,
            effect: self.effect@,
            action: self.action@,
            pattern: self.pattern@,
        }
    }
}

/// What the session remembers points back at it.
pub open spec fn session_memory(
    s: AppView,
    has_memory: bool,
    kind: MemoryKindView,
    title: Seq<char>,
    content: Seq<char>,
    tags: Seq<Seq<char>>,
    id: Seq<char>,
) -> Outcome<MemoryView> {
    if has_memory {
        Outcome::Done(
            MemoryView { id, kind, title, content, tags, source_ref: Some(s.session_id) },
        )
    } else {
        failure("memory-runtime-missing"@, "Memory 尚未注入"@)
    }
}

impl HarnessApplication {
    /// What is handed to the memory when the user has something remembered.
    pub fn add_memory(
        &self,
        has_memory: bool,
        kind: MemoryKind,
        title: String,
        content: String,
        tags: Vec<String>,
        id: String,
    ) -> (r: Result<NewMemoryRecord, ApplicationError>)
        ensures
            outcome(r) == session_memory(
                self@,
                has_memory,
                kind@,
                title@,
                content@,
                texts(tags@),
                id@,
            ),
    {
        if !has_memory {
            return Err(ApplicationError::new("memory-runtime-missing", "Memory 尚未注入"));
        }
        Ok(
            NewMemoryRecord {
                id,
                kind,
                title,
                content,
                tags,
                source_ref: Some(self.session_id.clone()),
            },
        )
    }

    /// The rule that is handed to the tools, under an id of its own.
    pub fn add_permission_rule(
        &self,
        effect: String,
        action: String,
        pattern: String,
        id: String,
    ) -> (r: Result<PermissionRule, ApplicationError>)
        ensures
            outcome(r) == (if self@.tools_ready {
                Outcome::Done(
                    RuleModel { id: id@, effect: effect@, action: action@, pattern: pattern@ },
                )
            } else {
                failure("tool-runtime-missing"@, "Tool Runtime 尚未注入"@)
            }),
    {
        if !self.tools_ready {
            return Err(ApplicationError::new("tool-runtime-missing", "Tool Runtime 尚未注入"));
        }
        Ok(PermissionRule { id, effect, action, pattern })
    }
}

} // verus!
