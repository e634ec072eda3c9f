//! What language servers have found, in a form that a model can read: short, and bounded.

use vstd::prelude::*;
use vstd::string::*;

use crate::digest::{hash_text, text_hash};
use crate::json::{
    bool_value, json_views, list_value, member, member_of, text_value, unsigned_value, Json,
    JsonView,
};
use crate::model::{option_view, views};
use crate::text::{
    byte_len, chars_of, count_bytes, decimal, decimal_of, first_chars, first_of, join, joined,
    same, starts_with, starts_with_text, texts,
};

verus! {

pub open spec fn text_or(value: Option<Seq<char>>, default: Seq<char>) -> Seq<char> {
    match value {
        Some(text) => text,
        None => default,
    }
}

/// Where a fact is: in a location of its own, or at the fact itself.
pub open spec fn location_of(fact: JsonView) -> JsonView {
    match member(fact, "location"@) {
        Some(location) => location,
        None => fact,
    }
}

pub open spec fn path_of(fact: JsonView) -> Seq<char> {
    match text_value(member(location_of(fact), "path"@)) {
        Some(path) => path,
        None => text_or(text_value(member(fact, "path"@)), "<external>"@),
    }
}

pub open spec fn plus_one(n: u64) -> u64 {
    if n == u64::MAX {
        0
    } else {
        (n + 1) as u64
    }
}

/// A line or a character, counted from one. What is counted for people is taken as it is; what is
/// counted for programs, from zero, is raised by one.
pub open spec fn place_in(fact: JsonView, what: Seq<char>) -> Seq<char> {
    let location = location_of(fact);
    let human = unsigned_value(
        member_of(member_of(member(location, "humanRange"@), "start"@), what),
    );
    let raw = unsigned_value(member_of(member_of(member(location, "range"@), "start"@), what));
    match human {
        Some(n) => decimal(n as nat),
        None => match raw {
            Some(n) => decimal(plus_one(n) as nat),
            None => "?"@,
        },
    }
}

/// A text on one line.
pub open spec fn one_line(s: Seq<char>) -> Seq<char> {
    s.map_values(
        |c: char|
            if c == '\r' || c == '\n' {
                ' '
            } else {
                c
            },
    )
}

pub open spec fn number_or_zero(value: Option<u64>) -> nat {
    match value {
        Some(n) => n as nat,
        None => 0,
    }
}

pub open spec fn spot(fact: JsonView) -> Seq<char> {
    path_of(fact) + ":"@ + place_in(fact, "line"@) + ":"@ + place_in(fact, "character"@)
}

/// A fact on one line.
pub open spec fn fact_line(tool: Seq<char>, fact: JsonView) -> Seq<char> {
    if tool == "lsp.symbols"@ {
        text_or(text_value(member(fact, "name"@)), "<symbol>"@) + " · kind="@ + decimal(
            number_or_zero(unsigned_value(member(fact, "kind"@))),
        ) + " · "@ + spot(fact)
    } else if tool == "lsp.diagnostics"@ {
        "severity="@ + decimal(number_or_zero(unsigned_value(member(fact, "severity"@))))
            + " · code="@ + text_or(text_value(member(fact, "code"@)), "none"@) + " · "@ + spot(
            fact,
        ) + " · "@ + first_of(
            one_line(text_or(text_value(member(fact, "message"@)), "<diagnostic>"@)),
            512,
        )
    } else {
        spot(fact)
    }
}

fn flatten(s: &str) -> (r: String)
    ensures
        r@ == one_line(s@),
{
    let chars = chars_of(s);
    let mut r = String::new();
    let mut i: usize = 0;
    assert(r@ =~= one_line(s@).subrange(0, 0));
    while i < chars.len()
        invariant
            i <= chars.len(),
            chars@ == s@,
            r@ == one_line(s@).subrange(0, i as int),
        decreases chars.len() - i,
    {
        let c = chars[i];
        if c == '\r' || c == '\n' {
            r.push(' ');
        } else {
            r.push(c);
        }
        assert(r@ =~= one_line(s@).subrange(0, i as int + 1));
        i = i + 1;
    }
    assert(one_line(s@).subrange(0, s@.len() as int) =~= one_line(s@));
    r
}

fn place(fact: &Json, what: &str) -> (r: String)
    ensures
        r@ == place_in(fact@, what@),
{
    let location = match fact.get("location") {
        Some(location) => location,
        None => fact,
    };
    let human = match location.get("humanRange") {
        Some(range) => match range.get("start") {
            Some(start) => start.get_unsigned(what),
            None => None,
        },
        None => None,
    };
    match human {
        Some(n) => decimal_of(n),
        None => {
            let raw = match location.get("range") {
                Some(range) => match range.get("start") {
                    Some(start) => start.get_unsigned(what),
                    None => None,
                },
                None => None,
            };
            match raw {
                Some(n) => if n == 0xffff_ffff_ffff_ffff {
                    decimal_of(0)
                } else {
                    decimal_of(n + 1)
                },
                None => "?".to_string(),
            }
        },
    }
}

fn path(fact: &Json) -> (r: String)
    ensures
        r@ == path_of(fact@),
{
    let location = match fact.get("location") {
        Some(location) => location,
        None => fact,
    };
    match location.get_text("path") {
        Some(path) => path.clone(),
        None => match fact.get_text("path") {
            Some(path) => path.clone(),
            None => "<external>".to_string(),
        },
    }
}

/// Writes a fact on one line.
pub fn compact_lsp_fact(tool_name: &str, fact: &Json) -> (r: String)
    ensures
        r@ == fact_line(tool_name@, fact@),
{
    let mut at: String = path(fact);
    at.append(":");
    at.append(place(fact, "line").as_str());
    at.append(":");
    at.append(place(fact, "character").as_str());
    if same(tool_name, "lsp.symbols") {
        let mut r: String = match fact.get_text("name") {
            Some(name) => name.clone(),
            None => "<symbol>".to_string(),
        };
        r.append(" · kind=");
        let kind: u64 = match fact.get_unsigned("kind") {
            Some(kind) => kind,
            None => 0,
        };
        r.append(decimal_of(kind).as_str());
        r.append(" · ");
        r.append(at.as_str());
        r
    } else if same(tool_name, "lsp.diagnostics") {
        let mut r: String = "severity=".to_string();
        let severity: u64 = match fact.get_unsigned("severity") {
            Some(severity) => severity,
            None => 0,
        };
        r.append(decimal_of(severity).as_str());
        r.append(" · code=");
        let code: String = match fact.get_text("code") {
            Some(code) => code.clone(),
            None => "none".to_string(),
        };
        r.append(code.as_str());
        r.append(" · ");
        r.append(at.as_str());
        r.append(" · ");
        let message: String = match fact.get_text("message") {
            Some(message) => flatten(message.as_str()),
            None => flatten("<diagnostic>"),
        };
        r.append(first_chars(message.as_str(), 512).as_str());
        r
    } else {
        at
    }
}

/// What is known of the answer of a language server.
pub struct LspAnswer {
    pub server_id: String,
    pub path: String,
    pub count: u64,
    pub returned: u64,
    pub truncated: bool,
    pub expected_file_hash: Option<String>,
}

pub struct AnswerView {
    pub server_id: Seq<char>,
    pub path: Seq<char>,
    pub count: u64,
    pub returned: u64,
    pub truncated: bool,
    pub expected_file_hash: Option<Seq<char>>,
}

impl View for LspAnswer {
    type V = AnswerView;

    open spec fn view(&self) -> AnswerView {
        AnswerView {
            server_id: self.server_id@,
            path: self.path@,
            count: self.count,
            returned: self.returned,
            truncated: self.truncated,
            expected_file_hash: option_view(self.expected_file_hash),
        }
    }
}

/// What an answer says of itself; nothing if the tool is no language server.
pub open spec fn answer_of(tool: Seq<char>, arguments: JsonView, result: JsonView) -> Option<
    AnswerView,
> {
    if !starts_with_text(tool, "lsp."@) {
        None
    } else {
        Some(
            AnswerView {
                server_id: text_or(text_value(member(arguments, "serverId"@)), "unknown"@),
                path: match text_value(member(result, "path"@)) {
                    Some(path) => path,
                    None => text_or(text_value(member(arguments, "path"@)), "unknown"@),
                },
                count: number_or_zero(unsigned_value(member(result, "count"@))) as u64,
                returned: number_or_zero(unsigned_value(member(result, "returned"@))) as u64,
                truncated: bool_value(member(result, "truncated"@)) == Some(true),
                expected_file_hash: text_value(member(result, "fileHash"@)),
            },
        )
    }
}

pub fn read_lsp_answer(tool_name: &str, arguments: &Json, result: &Json) -> (r: Option<LspAnswer>)
    ensures
        option_view(r) == answer_of(tool_name@, arguments@, result@),
{
    if !starts_with(tool_name, "lsp.") {
        return None;
    }
    let server_id: String = match arguments.get_text("serverId") {
        Some(id) => id.clone(),
        None => "unknown".to_string(),
    };
    let path: String = match result.get_text("path") {
        Some(path) => path.clone(),
        None => match arguments.get_text("path") {
            Some(path) => path.clone(),
            None => "unknown".to_string(),
        },
    };
    let count: u64 = match result.get_unsigned("count") {
        Some(n) => n,
        None => 0,
    };
    let returned: u64 = match result.get_unsigned("returned") {
        Some(n) => n,
        None => 0,
    };
    let truncated = match result.get_bool("truncated") {
        Some(b) => b,
        None => false,
    };
    let expected_file_hash = match result.get_text("fileHash") {
        Some(hash) => Some(hash.clone()),
        None => None,
    };
    Some(LspAnswer { server_id, path, count, returned, truncated, expected_file_hash })
}

/// What became of the facts in the index of the repository.
pub enum Projection {
    /// There is no index, or there are no facts, or they are not indexed.
    Absent,
    Stored { kind: String, added: u64, removed: u64 },
    Isolated { code: String },
}

pub enum ProjectionView {
    Absent,
    Stored { kind: Seq<char>, added: u64, removed: u64 },
    Isolated { code: Seq<char> },
}

impl View for Projection {
    type V = ProjectionView;

    open spec fn view(&self) -> ProjectionView {
        match *self {
            Projection::Absent => ProjectionView::Absent,
            Projection::Stored { kind, added, removed } => ProjectionView::Stored {
                kind: kind@,
                added,
                removed,
            },
            Projection::Isolated { code } => ProjectionView::Isolated { code: code@ },
        }
    }
}

pub open spec fn projection_note(p: ProjectionView) -> Seq<char> {
    match p {
        ProjectionView::Absent => ""@,
        ProjectionView::Stored { kind, added, removed } => " · repositoryProjection="@ + kind
            + " added="@ + decimal(added as nat) + " removed="@ + decimal(removed as nat),
        ProjectionView::Isolated { code } => " · repositoryProjection=isolated("@ + code + ")"@,
    }
}

fn note_of(projection: &Projection) -> (r: String)
    ensures
        r@ == projection_note(projection@),
{
    match projection {
        Projection::Absent => "".to_string(),
        Projection::Stored { kind, added, removed } => {
            let mut r: String = " · repositoryProjection=".to_string();
            r.append(kind.as_str());
            r.append(" added=");
            r.append(decimal_of(*added).as_str());
            r.append(" removed=");
            r.append(decimal_of(*removed).as_str());
            r
        },
        Projection::Isolated { code } => {
            let mut r: String = " · repositoryProjection=isolated(".to_string();
            r.append(code.as_str());
            r.append(")");
            r
        },
    }
}

pub open spec fn bool_text(b: bool) -> Seq<char> {
    if b {
        "true"@
    } else {
        "false"@
    }
}

/// The first line: whose answer it is, and how much of it there is. It comes from outside and is
/// not to be trusted.
pub open spec fn answer_head(tool: Seq<char>, a: AnswerView, note: Seq<char>) -> Seq<char> {
    "LSP fact [UNTRUSTED EXTERNAL PROCESS OUTPUT] · tool="@ + tool + " · server="@ + a.server_id
        + " · path="@ + a.path + " · count="@ + decimal(a.count as nat) + " · returned="@ + decimal(
        a.returned as nat,
    ) + " · truncated="@ + bool_text(a.truncated) + note + "\n"@
}

/// The most bytes that the facts of one answer take in the context.
pub const MAX_FACT_BYTES: usize = 8192;

/// The answer with its first facts, a line each. Once they take too much, the rest is left out.
pub open spec fn with_facts(head: Seq<char>, tool: Seq<char>, facts: Seq<JsonView>, n: int) -> (
    Seq<char>,
    bool,
)
    decreases n,
{
    if n <= 0 {
        (head, false)
    } else {
        let (before, full) = with_facts(head, tool, facts, n - 1);
        let line = fact_line(tool, facts[n - 1]);
        if full {
            (before, true)
        } else if byte_len(before) + byte_len(line) + 3 > MAX_FACT_BYTES {
            (before + "- [context-summary-truncated]\n"@, true)
        } else {
            (before + "- "@ + line + "\n"@, false)
        }
    }
}

pub open spec fn at_most(n: int, most: int) -> int {
    if n < most {
        n
    } else {
        most
    }
}

/// What is kept of an answer in the context.
pub open spec fn answer_text(tool: Seq<char>, a: AnswerView, result: JsonView, note: Seq<char>) -> Seq<
    char,
> {
    let head = answer_head(tool, a, note);
    match list_value(member(result, "facts"@)) {
        Some(facts) => with_facts(head, tool, facts, at_most(facts.len() as int, 32)).0,
        None => head,
    }
}

/// The source under which an answer is kept: a later one of the same tool, server and file takes its
/// place.
pub open spec fn answer_identity(tool: Seq<char>, a: AnswerView) -> Seq<char> {
    "lsp-fact:"@ + first_of(text_hash(tool + "\n"@ + a.server_id + "\n"@ + a.path), 24)
}

proof fn lemma_full(head: Seq<char>, tool: Seq<char>, facts: Seq<JsonView>, n: int, m: int)
    requires
        with_facts(head, tool, facts, n).1,
        n <= m,
    ensures
        with_facts(head, tool, facts, m) == with_facts(head, tool, facts, n),
    decreases m - n,
{
    if n < m {
        lemma_full(head, tool, facts, n, m - 1);
    }
}

proof fn lemma_byte_len_adds(a: Seq<char>, b: Seq<char>)
    ensures
        byte_len(a + b) == byte_len(a) + byte_len(b),
    decreases b.len(),
{
    if b.len() == 0 {
        assert(a + b =~= a);
    } else {
        assert((a + b).drop_last() =~= a + b.drop_last());
        lemma_byte_len_adds(a, b.drop_last());
    }
}

/// What the facts of an answer take is bounded: no more than the limit, and the line that says that
/// something was left out.
pub proof fn law_facts_are_bounded(head: Seq<char>, tool: Seq<char>, facts: Seq<JsonView>, n: int)
    requires
        byte_len(head) <= MAX_FACT_BYTES,
    ensures
        !with_facts(head, tool, facts, n).1 ==> byte_len(with_facts(head, tool, facts, n).0)
            <= MAX_FACT_BYTES,
        byte_len(with_facts(head, tool, facts, n).0) <= MAX_FACT_BYTES + byte_len(
            "- [context-summary-truncated]\n"@,
        ),
    decreases n,
{
    if n > 0 {
        law_facts_are_bounded(head, tool, facts, n - 1);
        let (before, full) = with_facts(head, tool, facts, n - 1);
        let line = fact_line(tool, facts[n - 1]);
        lemma_byte_len_adds(before, "- [context-summary-truncated]\n"@);
        lemma_byte_len_adds(before, "- "@);
        lemma_byte_len_adds(before + "- "@, line);
        lemma_byte_len_adds(before + "- "@ + line, "\n"@);
        reveal_strlit("- ");
        reveal_strlit("\n");
        reveal_with_fuel(byte_len, 3);
        assert(byte_len("- "@) == 2) by {
            assert("- "@.drop_last().drop_last() =~= Seq::empty());
            assert("- "@.drop_last().last() == '-');
        }
        assert(byte_len("\n"@) == 1) by {
            assert("\n"@.drop_last() =~= Seq::empty());
        }
    }
}

/// The text that is kept of an answer, and the source under which it is kept.
pub fn record_lsp_tool_fact(
    tool_name: &str,
    answer: &LspAnswer,
    result: &Json,
    projection: &Projection,
) -> (r: (String, String))
    ensures
        r.0@ == answer_identity(tool_name@, answer@),
        r.1@ == answer_text(tool_name@, answer@, result@, projection_note(projection@)),
{
    let mut content: String =
        "LSP fact [UNTRUSTED EXTERNAL PROCESS OUTPUT] · tool=".to_string();
    content.append(tool_name);
    content.append(" · server=");
    content.append(answer.server_id.as_str());
    content.append(" · path=");
    content.append(answer.path.as_str());
    content.append(" · count=");
    content.append(decimal_of(answer.count).as_str());
    content.append(" · returned=");
    content.append(decimal_of(answer.returned).as_str());
    content.append(" · truncated=");
    content.append(
        if answer.truncated {
            "true"
        } else {
            "false"
        },
    );
    content.append(note_of(projection).as_str());
    content.append("\n");
    let ghost head = content@;
    assert(head == answer_head(tool_name@, answer@, projection_note(projection@)));
    match result.get_list("facts") {
        Some(facts) => {
            let ghost all = json_views(facts@);
            let most: usize = if facts.len() < 32 {
                facts.len()
            } else {
                32
            };
            let mut full = false;
            let mut i: usize = 0;
            while i < most && !full
                invariant
                    i <= most <= facts.len(),
                    all == json_views(facts@),
                    with_facts(head, tool_name@, all, i as int) == (content@, full),
                decreases most - i,
            {
                assert(all[i as int] == facts@[i as int]@);
                let line = compact_lsp_fact(tool_name, &facts[i]);
                let taken: usize = count_bytes(content.as_str()).saturating_add(
                    count_bytes(line.as_str()),
                ).saturating_add(3);
                if taken > MAX_FACT_BYTES {
                    content.append("- [context-summary-truncated]\n");
                    full = true;
                } else {
                    content.append("- ");
                    content.append(line.as_str());
                    content.append("\n");
                }
                i = i + 1;
            }
            proof {
                if full {
                    lemma_full(head, tool_name@, all, i as int, most as int);
                }
            }
        },
        None => {},
    }
    let mut key: String = tool_name.to_string();
    key.append("\n");
    key.append(answer.server_id.as_str());
    key.append("\n");
    key.append(answer.path.as_str());
    let hash = hash_text(key.as_str());
    let mut identity: String = "lsp-fact:".to_string();
    identity.append(first_chars(hash.as_str(), 24).as_str());
    (identity, content)
}

/// Whether memory is searched by meaning.
#[derive(Clone, Copy, Debug, PartialEq, Eq, Structural)]
pub enum VectorMode {
    Off,
    On,
    Auto,
}

#[derive(Clone, Copy, Debug, PartialEq, Eq, Structural)]
pub enum RetrievalMode {
    Lexical,
    Semantic,
    Auto,
}

pub open spec fn retrieval(mode: VectorMode, proactive: bool) -> RetrievalMode {
    match mode {
        VectorMode::Off => RetrievalMode::Lexical,
        VectorMode::On => RetrievalMode::Semantic,
        VectorMode::Auto => if proactive {
            RetrievalMode::Auto
        } else {
            RetrievalMode::Lexical
        },
    }
}

pub fn retrieval_mode(mode: VectorMode, proactive: bool) -> (r: RetrievalMode)
    ensures
        r == retrieval(mode, proactive),
{
    match mode {
        VectorMode::Off => RetrievalMode::Lexical,
        VectorMode::On => RetrievalMode::Semantic,
        VectorMode::Auto => if proactive {
            RetrievalMode::Auto
        } else {
            RetrievalMode::Lexical
        },
    }
}

/// How much that is remembered is taken for a prompt.
pub const MAX_MEMORY_HITS: usize = 6;

/// How many files are taken for a prompt.
pub const MAX_REPOSITORY_HITS: usize = 8;

/// Something that was remembered.
pub struct MemoryHit {
    pub title: String,
    pub content: String,
}

pub struct MemoryHitView {
    pub title: Seq<char>,
    pub content: Seq<char>,
}

impl View for MemoryHit {
    type V = MemoryHitView;

    open spec fn view(&self) -> MemoryHitView {
        MemoryHitView { title: self.title@, content: self.content@ }
    }
}

/// A file that was found.
pub struct RepositoryHit {
    pub path: String,
    pub language: String,
    pub summary: String,
    pub symbols: Vec<String>,
    pub diagnostics: Vec<String>,
    pub matched_by: String,
}

pub struct RepositoryHitView {
    pub path: Seq<char>,
    pub language: Seq<char>,
    pub summary: Seq<char>,
    pub symbols: Seq<Seq<char>>,
    pub diagnostics: Seq<Seq<char>>,
    pub matched_by: Seq<char>,
}

impl View for RepositoryHit {
    type V = RepositoryHitView;

    open spec fn view(&self) -> RepositoryHitView {
        RepositoryHitView {
            path: self.path@,
            language: self.language@,
            summary: self.summary@,
            symbols: texts(self.symbols@),
            diagnostics: texts(self.diagnostics@),
            matched_by: self.matched_by@,
        }
    }
}

pub open spec fn memory_line(h: MemoryHitView) -> Seq<char> {
    "- "@ + h.title + ": "@ + first_of(h.content, 1200) + "\n"@
}

pub open spec fn repository_line(h: RepositoryHitView) -> Seq<char> {
    "- "@ + h.path + " ["@ + h.language + "] "@ + first_of(h.summary, 800) + " symbols="@ + joined(
        h.symbols,
        ","@,
    ) + " diagnostics="@ + joined(h.diagnostics, " | "@) + " matched="@ + h.matched_by + "\n"@
}

pub open spec fn memory_section(start: Seq<char>, hits: Seq<MemoryHitView>) -> Seq<char>
    decreases hits.len(),
{
    if hits.len() == 0 {
        start
    } else {
        memory_section(start, hits.drop_last()) + memory_line(hits.last())
    }
}

pub open spec fn repository_section(start: Seq<char>, hits: Seq<RepositoryHitView>) -> Seq<char>
    decreases hits.len(),
{
    if hits.len() == 0 {
        start
    } else {
        repository_section(start, hits.drop_last()) + repository_line(hits.last())
    }
}

/// What was found for a prompt: a section of what was remembered and one of the files, each only if
/// there is something in it.
pub open spec fn retrieved_text(memory: Seq<MemoryHitView>, files: Seq<RepositoryHitView>) -> Seq<
    char,
> {
    let first = if memory.len() == 0 {
        Seq::empty()
    } else {
        memory_section("\n\n[Retrieved Project Memory]\n"@, memory)
    };
    if files.len() == 0 {
        first
    } else {
        repository_section(first + "\n[Retrieved Repository Context]\n"@, files)
    }
}

/// Writes down what was found for a prompt.
pub fn retrieve_project_context(memory: &Vec<MemoryHit>, files: &Vec<RepositoryHit>) -> (r: String)
    ensures
        r@ == retrieved_text(views(memory@), views(files@)),
{
    let ghost remembered = views(memory@);
    let ghost found = views(files@);
    let mut out = String::new();
    if memory.len() > 0 {
        out.append("\n\n[Retrieved Project Memory]\n");
        assert(out@ =~= "\n\n[Retrieved Project Memory]\n"@);
        let ghost start = out@;
        let mut i: usize = 0;
        assert(remembered.subrange(0, 0) =~= Seq::empty());
        while i < memory.len()
            invariant
                i <= memory.len(),
                remembered == views(memory@),
                out@ == memory_section(start, remembered.subrange(0, i as int)),
            decreases memory.len() - i,
        {
            let ghost next = remembered.subrange(0, i as int + 1);
            assert(next.drop_last() =~= remembered.subrange(0, i as int));
            assert(next.last() == memory@[i as int]@);
            let mut line: String = "- ".to_string();
            line.append(memory[i].title.as_str());
            line.append(": ");
            line.append(first_chars(memory[i].content.as_str(), 1200).as_str());
            line.append("\n");
            out.append(line.as_str());
            i = i + 1;
        }
        assert(remembered.subrange(0, remembered.len() as int) =~= remembered);
    }
    if files.len() > 0 {
        out.append("\n[Retrieved Repository Context]\n");
        let ghost start = out@;
        let mut i: usize = 0;
        assert(found.subrange(0, 0) =~= Seq::empty());
        while i < files.len()
            invariant
                i <= files.len(),
                found == views(files@),
                out@ == repository_section(start, found.subrange(0, i as int)),
            decreases files.len() - i,
        {
            let ghost next = found.subrange(0, i as int + 1);
            assert(next.drop_last() =~= found.subrange(0, i as int));
            assert(next.last() == files@[i as int]@);
            let mut line: String = "- ".to_string();
            line.append(files[i].path.as_str());
            line.append(" [");
            line.append(files[i].language.as_str());
            line.append("] ");
            line.append(first_chars(files[i].summary.as_str(), 800).as_str());
            line.append(" symbols=");
            line.append(join(&files[i].symbols, ",").as_str());
            line.append(" diagnostics=");
            line.append(join(&files[i].diagnostics, " | ").as_str());
            line.append(" matched=");
            line.append(files[i].matched_by.as_str());
            line.append("\n");
            out.append(line.as_str());
            i = i + 1;
        }
        assert(found.subrange(0, found.len() as int) =~= found);
    }
    out
}

} // verus!
