//! The tool dispatcher: resolves a named tool call to a shell command built
//! from the tool's template, and turns the command's outcome into the text
//! handed back to the chat-completion service.
use vstd::prelude::*;
use crate::config::{ParamConfig, ToolConfig};
use crate::text::{lemma_replaced_absent, occurs, replace_text, replaced, same_text, trim_text, trimmed};

verus! {

/// A tool call's arguments as (name, text) pairs.
pub open spec fn args_view(a: Seq<(String, String)>) -> Seq<(Seq<char>, Seq<char>)> {
    a.map_values(|p: (String, String)| (p.0@, p.1@))
}

/// The placeholder that stands for argument `key` in a command template.
pub open spec fn placeholder(key: Seq<char>) -> Seq<char> {
    "{{"@ + key + "}}"@
}

/// `cmd` with each argument's placeholder replaced by its text, the
/// arguments taken in order.
pub open spec fn substituted(cmd: Seq<char>, args: Seq<(Seq<char>, Seq<char>)>) -> Seq<char>
    decreases args.len(),
{
    if args.len() == 0 {
        cmd
    } else {
        let last = args.last();
        replaced(substituted(cmd, args.drop_last()), placeholder(last.0), last.1)
    }
}

/// The answer given for a tool name that no tool has.
pub open spec fn not_found_message(name: Seq<char>) -> Seq<char> {
    "Инструмент «"@ + name + "» не найден"@
}

/// `i` is the first tool named `name`.
pub open spec fn first_named(tools: Seq<ToolConfig>, name: Seq<char>, i: int) -> bool {
    0 <= i < tools.len() && tools[i].name@ == name
        && forall|j: int| 0 <= j < i ==> tools[j].name@ != name
}

/// No tool is named `name`.
pub open spec fn none_named(tools: Seq<ToolConfig>, name: Seq<char>) -> bool {
    forall|j: int| 0 <= j < tools.len() ==> tools[j].name@ != name
}

/// A template whose placeholders no argument names is left as it is: such a
/// placeholder reaches the command literally.
pub proof fn lemma_unnamed_placeholders_kept(cmd: Seq<char>, args: Seq<(Seq<char>, Seq<char>)>)
    requires
        forall|i: int| 0 <= i < args.len() ==> !occurs(cmd, placeholder(#[trigger] args[i].0)),
    ensures
        substituted(cmd, args) == cmd,
    decreases args.len(),
{
    if args.len() > 0 {
        let init = args.drop_last();
        assert forall|i: int| 0 <= i < init.len() implies !occurs(cmd, placeholder(#[trigger] init[i].0)) by {
            assert(init[i] == args[i]);
        }
        lemma_unnamed_placeholders_kept(cmd, init);
        lemma_replaced_absent(cmd, placeholder(args.last().0), args.last().1);
    }
}

/// What a tool call resolves to.
pub enum ToolRequest {
    /// No tool has the name: the text is the answer, and nothing runs.
    NotFound(String),
    /// The shell command to run.
    Run(String),
}

/// `r` is what calling `name` with `args` resolves to among `tools`.
pub open spec fn resolves_to(
    tools: Seq<ToolConfig>,
    name: Seq<char>,
    args: Seq<(Seq<char>, Seq<char>)>,
    r: ToolRequest,
) -> bool {
    match r {
        ToolRequest::NotFound(m) => none_named(tools, name) && m@ == not_found_message(name),
        ToolRequest::Run(c) => exists|i: int|
            first_named(tools, name, i) && c@ == substituted(tools[i].command@, args),
    }
}

/// How a tool's command ended.
pub enum ToolOutcome {
    /// The shell ran; `status` is the exit status as text.
    Exited { success: bool, status: String, stdout: String, stderr: String },
    /// The shell could not be started; the text says why.
    LaunchFailed(String),
}

/// The text handed back for a command's outcome.
pub open spec fn outcome_text(o: ToolOutcome) -> Seq<char> {
    match o {
        ToolOutcome::Exited { success, status, stdout, stderr } => {
            let out = trimmed(stdout@);
            let err = trimmed(stderr@);
            if success {
                if out.len() == 0 { "OK"@ } else { out }
            } else {
                "Ошибка (код "@ + status@ + "): "@ + (if err.len() == 0 { out } else { err })
            }
        },
        ToolOutcome::LaunchFailed(e) => "Ошибка запуска: "@ + e@,
    }
}

/// A tool as presented to the chat-completion service: an object schema whose
/// properties are the tool's parameters.
pub struct ToolSchema {
    pub name: String,
    pub description: String,
    pub properties: Vec<(String, ParamConfig)>,
    pub required: Vec<String>,
}

/// The tools loaded from configuration.
pub struct ToolManager {
    pub tools: Vec<ToolConfig>,
}

fn copy_strings(v: &Vec<String>) -> (r: Vec<String>)
    ensures
        r@ == v@,
{
    let mut r: Vec<String> = Vec::new();
    let mut i: usize = 0;
    while i < v.len()
        invariant
            i <= v.len(),
            r@ == v@.subrange(0, i as int),
        decreases v.len() - i,
    {
        r.push(v[i].clone());
        i = i + 1;
        proof {
            assert(r@ =~= v@.subrange(0, i as int));
        }
    }
    proof {
        assert(v@.subrange(0, i as int) =~= v@);
    }
    r
}

fn copy_params(v: &Vec<(String, ParamConfig)>) -> (r: Vec<(String, ParamConfig)>)
    ensures
        r@ == v@,
{
    let mut r: Vec<(String, ParamConfig)> = Vec::new();
    let mut i: usize = 0;
    while i < v.len()
        invariant
            i <= v.len(),
            r@ == v@.subrange(0, i as int),
        decreases v.len() - i,
    {
        let p = ParamConfig {
            param_type: v[i].1.param_type.clone(),
            description: v[i].1.description.clone(),
        };
        r.push((v[i].0.clone(), p));
        i = i + 1;
        proof {
            assert(r@ =~= v@.subrange(0, i as int));
        }
    }
    proof {
        assert(v@.subrange(0, i as int) =~= v@);
    }
    r
}

/// One member of a parsed JSON object.
pub enum JsonMember {
    /// A string, by its contents.
    Str(String),
    /// Any other value, by its JSON text.
    Other(String),
}

/// A parsed JSON document, as far as tool arguments read it.
pub enum JsonDoc {
    /// An object, by its members in key order.
    Object(Vec<(String, JsonMember)>),
    /// Any value that is not an object.
    NotObject,
}

pub enum JsonMemberView {
    Str(Seq<char>),
    Other(Seq<char>),
}

pub enum JsonDocView {
    Object(Seq<(Seq<char>, JsonMemberView)>),
    NotObject,
}

impl View for JsonMember {
    type V = JsonMemberView;

    open spec fn view(&self) -> JsonMemberView {
        match self {
            JsonMember::Str(s) => JsonMemberView::Str(s@),
            JsonMember::Other(t) => JsonMemberView::Other(t@),
        }
    }
}

impl View for JsonDoc {
    type V = JsonDocView;

    open spec fn view(&self) -> JsonDocView {
        match self {
            JsonDoc::Object(m) => JsonDocView::Object(
                m@.map_values(|e: (String, JsonMember)| (e.0@, e.1@)),
            ),
            JsonDoc::NotObject => JsonDocView::NotObject,
        }
    }
}

pub open spec fn parsed_view(p: Option<JsonDoc>) -> Option<JsonDocView> {
    match p {
        Some(d) => Some(d@),
        None => None,
    }
}

/// What `parse_json` gives for a text: `None` where it is not JSON.
pub uninterp spec fn json_parse(text: Seq<char>) -> Option<JsonDocView>;

/// Relies on `serde_json::from_str` to parse the text as a JSON value, and on
/// `serde_json::Value`'s `Display` for the JSON text of a member that is not a
/// string. An object's members come in key order (its map is a `BTreeMap`).
#[verifier::external_body]
fn parse_json(text: &str) -> (r: Option<JsonDoc>)
    ensures
        parsed_view(r) == json_parse(text@),
{
    serde_json::from_str::<serde_json::Value>(text).ok().map(|v| match v {
        serde_json::Value::Object(m) => JsonDoc::Object(m.into_iter().map(|(k, v)| match v {
            serde_json::Value::String(s) => (k, JsonMember::Str(s)),
            other => (k, JsonMember::Other(other.to_string())),
        }).collect()),
        _ => JsonDoc::NotObject,
    })
}

/// The text that stands for a member in a command: a string's contents,
/// unquoted, or any other value's JSON text.
pub open spec fn member_text(m: JsonMemberView) -> Seq<char> {
    match m {
        JsonMemberView::Str(s) => s,
        JsonMemberView::Other(t) => t,
    }
}

/// The arguments that a parsed document gives: the members of an object, in
/// order; none for text that did not parse or for a value that is not an object.
pub open spec fn arguments_spec(parsed: Option<JsonDocView>) -> Seq<(Seq<char>, Seq<char>)> {
    match parsed {
        Some(JsonDocView::Object(ms)) => ms.map_values(
            |e: (Seq<char>, JsonMemberView)| (e.0, member_text(e.1)),
        ),
        _ => Seq::empty(),
    }
}

/// The arguments of a tool call whose argument text is `text`.
pub open spec fn json_arguments(text: Seq<char>) -> Seq<(Seq<char>, Seq<char>)> {
    arguments_spec(json_parse(text))
}

/// The arguments that a parsed document gives, as (name, text) pairs.
pub fn arguments_of(parsed: &Option<JsonDoc>) -> (r: Vec<(String, String)>)
    ensures
        args_view(r@) == arguments_spec(parsed_view(*parsed)),
{
    let mut r: Vec<(String, String)> = Vec::new();
    match parsed {
        Some(JsonDoc::Object(ms)) => {
            let ghost want = arguments_spec(parsed_view(*parsed));
            let mut i: usize = 0;
            while i < ms.len()
                invariant
                    i <= ms@.len(),
                    want == arguments_spec(parsed_view(*parsed)),
                    *parsed == Some(JsonDoc::Object(*ms)),
                    r@.len() == i,
                    forall|k: int| 0 <= k < i ==> (#[trigger] r@[k]).0@ == ms@[k].0@
                        && r@[k].1@ == member_text(ms@[k].1@),
                decreases ms@.len() - i,
            {
                let text = match &ms[i].1 {
                    JsonMember::Str(s) => s.clone(),
                    JsonMember::Other(t) => t.clone(),
                };
                r.push((ms[i].0.clone(), text));
                i = i + 1;
            }
            proof {
                assert(args_view(r@) =~= want);
            }
            r
        },
        _ => {
            proof {
                assert(args_view(r@) =~= Seq::empty());
            }
            r
        },
    }
}

/// A call of a name that no tool has yields the fixed not-found answer and no
/// command to run.
pub proof fn lemma_unknown_tool(
    tools: Seq<ToolConfig>,
    name: Seq<char>,
    args: Seq<(Seq<char>, Seq<char>)>,
    r: ToolRequest,
)
    requires
        none_named(tools, name),
        resolves_to(tools, name, args, r),
    ensures
        r is NotFound,
        r->NotFound_0@ == not_found_message(name),
{
}

impl ToolManager {
    /// Every tool's parameters form a map.
    pub open spec fn wf(&self) -> bool {
        forall|i: int| 0 <= i < self.tools@.len() ==> (#[trigger] self.tools@[i]).wf()
    }

    pub fn new(tools: Vec<ToolConfig>) -> (r: Self)
        requires
            forall|i: int| 0 <= i < tools@.len() ==> (#[trigger] tools@[i]).wf(),
        ensures
            r.tools == tools,
            r.wf(),
    {
        ToolManager { tools }
    }

    /// The definitions handed to the chat-completion service, one per tool, in order.
    pub fn tools(&self) -> (r: Vec<ToolSchema>)
        ensures
            r@.len() == self.tools@.len(),
            forall|i: int| 0 <= i < r@.len() ==> {
                &&& r@[i].name == self.tools@[i].name
                &&& r@[i].description == self.tools@[i].description
                &&& r@[i].properties@ == self.tools@[i].params@
                &&& r@[i].required@ == self.tools@[i].required_params@
            },
    {
        let mut r: Vec<ToolSchema> = Vec::new();
        let mut i: usize = 0;
        while i < self.tools.len()
            invariant
                i <= self.tools@.len(),
                r@.len() == i,
                forall|k: int| 0 <= k < i ==> {
                    &&& r@[k].name == self.tools@[k].name
                    &&& r@[k].description == self.tools@[k].description
                    &&& r@[k].properties@ == self.tools@[k].params@
                    &&& r@[k].required@ == self.tools@[k].required_params@
                },
            decreases self.tools@.len() - i,
        {
            let t = &self.tools[i];
            r.push(ToolSchema {
                name: t.name.clone(),
                description: t.description.clone(),
                properties: copy_params(&t.params),
                required: copy_strings(&t.required_params),
            });
            i = i + 1;
        }
        r
    }

    /// The index of the first tool named `name`.
    pub fn find_tool(&self, name: &str) -> (r: Option<usize>)
        ensures
            match r {
                Some(i) => first_named(self.tools@, name@, i as int),
                None => none_named(self.tools@, name@),
            },
    {
        let mut i: usize = 0;
        while i < self.tools.len()
            invariant
                i <= self.tools@.len(),
                forall|j: int| 0 <= j < i ==> self.tools@[j].name@ != name@,
            decreases self.tools@.len() - i,
        {
            if same_text(self.tools[i].name.as_str(), name) {
                return Some(i);
            }
            i = i + 1;
        }
        None
    }

    /// Resolves a call of tool `name` with `args`: the tool's command with every
    /// `{{key}}` replaced by the value of argument `key`, or the not-found answer.
    /// Placeholders that no argument names stay as they are.
    pub fn call_tool(&self, name: &str, args: &Vec<(String, String)>) -> (r: ToolRequest)
        ensures
            resolves_to(self.tools@, name@, args_view(args@), r),
    {
        match self.find_tool(name) {
            None => {
                let mut m = String::from_str("Инструмент «");
                m.append(name);
                m.append("» не найден");
                ToolRequest::NotFound(m)
            },
            Some(t) => {
                let mut cmd = self.tools[t].command.clone();
                let mut i: usize = 0;
                while i < args.len()
                    invariant
                        i <= args@.len(),
                        cmd@ == substituted(
                            self.tools@[t as int].command@,
                            args_view(args@).subrange(0, i as int),
                        ),
                    decreases args@.len() - i,
                {
                    let mut key = String::from_str("{{");
                    key.append(args[i].0.as_str());
                    key.append("}}");
                    proof {
                        reveal_strlit("{{");
                        assert(key@.len() > 0);
                    }
                    cmd = replace_text(cmd.as_str(), key.as_str(), args[i].1.as_str());
                    proof {
                        let done = args_view(args@).subrange(0, i + 1);
                        assert(done.drop_last() =~= args_view(args@).subrange(0, i as int));
                    }
                    i = i + 1;
                }
                proof {
                    assert(args_view(args@).subrange(0, i as int) =~= args_view(args@));
                }
                ToolRequest::Run(cmd)
            },
        }
    }

    /// Resolves a call whose arguments come as JSON text, as the chat-completion
    /// service sends them: the members of a JSON object, each by `arguments_of`;
    /// text that does not parse, or is not an object, counts as no arguments.
    pub fn call_tool_json(&self, name: &str, arguments: &str) -> (r: ToolRequest)
        ensures
            resolves_to(self.tools@, name@, json_arguments(arguments@), r),
    {
        let parsed = parse_json(arguments);
        let args = arguments_of(&parsed);
        self.call_tool(name, &args)
    }
}

/// The text handed back to the chat-completion service for a command's outcome:
/// on success the trimmed output, or `OK` when there is none; on failure the
/// exit status with the trimmed error output, or the trimmed output when the
/// error output is empty.
pub fn tool_result(outcome: &ToolOutcome) -> (r: String)
    ensures
        r@ == outcome_text(*outcome),
{
    match outcome {
        ToolOutcome::Exited { success, status, stdout, stderr } => {
            let out = trim_text(stdout.as_str());
            if *success {
                if out.as_str().is_empty() {
                    String::from_str("OK")
                } else {
                    out
                }
            } else {
                let err = trim_text(stderr.as_str());
                let mut r = String::from_str("Ошибка (код ");
                r.append(status.as_str());
                r.append("): ");
                if err.as_str().is_empty() {
                    r.append(out.as_str());
                } else {
                    r.append(err.as_str());
                }
                r
            }
        },
        ToolOutcome::LaunchFailed(e) => {
            let mut r = String::from_str("Ошибка запуска: ");
            r.append(e.as_str());
            r
        },
    }
}

} // verus!
