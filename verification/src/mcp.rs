//! The decisions of the `mdall-mcp` server: which JSON-RPC methods get which
//! reply, which tool a `tools/call` runs with which arguments, and the text of
//! tool results. The server's transport (newline-delimited JSON on stdin and
//! stdout) and the conversion engine run around this module; request
//! identifiers are carried through untouched as the type `Id`.
use vstd::prelude::*;
use crate::format::{decimal, usize_to_decimal};
use crate::text::chars_of;

verus! {

/// The two texts are equal.
pub fn same_text(a: &str, b: &str) -> (r: bool)
    ensures
        r == (a@ == b@),
{
    let av = chars_of(a);
    let bv = chars_of(b);
    if av.len() != bv.len() {
        return false;
    }
    let mut i: usize = 0;
    while i < av.len()
        invariant
            i <= av.len() == bv.len(),
            av@ == a@,
            bv@ == b@,
            forall|k: int| 0 <= k < i ==> av@[k] == bv@[k],
        decreases av.len() - i,
    {
        if av[i] != bv[i] {
            assert(a@[i as int] != b@[i as int]);
            return false;
        }
        i = i + 1;
    }
    assert(av@ =~= bv@);
    true
}

/// MCP protocol revision this server speaks.
pub fn protocol_version() -> (s: &'static str)
    ensures
        s@ == "2024-11-05"@,
{
    "2024-11-05"
}

/// Name under which the server introduces itself.
pub fn server_name() -> (s: &'static str)
    ensures
        s@ == "mdall-mcp"@,
{
    "mdall-mcp"
}

/// One argument of a tool's input schema (all arguments are strings).
pub struct ToolParam {
    pub name: String,
    pub description: String,
}

/// A tool the server offers: its name, description, string arguments and
/// which of them are required.
pub struct ToolDef {
    pub name: String,
    pub description: String,
    pub params: Vec<ToolParam>,
    pub required: Vec<String>,
}

/// The arguments of a `tools/call` request: the tool name when it is a
/// string, and each argument with its value when that value is a string.
pub struct CallParams {
    pub name: Option<String>,
    pub args: Vec<(String, Option<String>)>,
}

/// A tool run that the server performs with the conversion engine.
pub enum ToolInvocation {
    ListFormats,
    ConvertFile { input: String, output: String },
    ImportToMd { input: String },
    ExportMd {
        markdown: String,
        output: String,
        title: Option<String>,
        author: Option<String>,
        base_dir: Option<String>,
    },
    RecoverSource { input: String },
}

/// [`ToolInvocation`] with its texts as character sequences.
pub enum ToolInvocationView {
    ListFormats,
    ConvertFile { input: Seq<char>, output: Seq<char> },
    ImportToMd { input: Seq<char> },
    ExportMd {
        markdown: Seq<char>,
        output: Seq<char>,
        title: Option<Seq<char>>,
        author: Option<Seq<char>>,
        base_dir: Option<Seq<char>>,
    },
    RecoverSource { input: Seq<char> },
}

/// The character view of an optional text.
pub open spec fn opt_view(o: Option<String>) -> Option<Seq<char>> {
    match o {
        Some(s) => Some(s@),
        None => None,
    }
}

impl View for ToolInvocation {
    type V = ToolInvocationView;

    open spec fn view(&self) -> ToolInvocationView {
        match self {
            ToolInvocation::ListFormats => ToolInvocationView::ListFormats,
            ToolInvocation::ConvertFile { input, output } => ToolInvocationView::ConvertFile {
                input: input@,
                output: output@,
            },
            ToolInvocation::ImportToMd { input } => ToolInvocationView::ImportToMd {
                input: input@,
            },
            ToolInvocation::ExportMd { markdown, output, title, author, base_dir } =>
                ToolInvocationView::ExportMd {
                markdown: markdown@,
                output: output@,
                title: opt_view(*title),
                author: opt_view(*author),
                base_dir: opt_view(*base_dir),
            },
            ToolInvocation::RecoverSource { input } => ToolInvocationView::RecoverSource {
                input: input@,
            },
        }
    }
}

/// A reply to a JSON-RPC request.
pub enum Reply<Id> {
    /// `initialize`: protocol version, tool capability, server name.
    Initialize { id: Id, protocol_version: String, server_name: String },
    /// `ping`: an empty result.
    Pong { id: Id },
    /// `tools/list`: the tool definitions.
    ToolList { id: Id, tools: Vec<ToolDef> },
    /// A tool result: one text block, flagged as an error or not.
    ToolResult { id: Id, text: String, is_error: bool },
    /// A JSON-RPC error.
    Error { id: Id, code: i64, message: String },
}

/// What the server does with a request.
pub enum Dispatch<Id> {
    /// Send this reply.
    Reply(Reply<Id>),
    /// Run this tool, then reply with [`tool_reply`].
    RunTool { id: Id, call: ToolInvocation },
}

/// Index of the first argument named `key` at or after `i`, or -1.
pub open spec fn arg_index(args: Seq<(String, Option<String>)>, key: Seq<char>, i: int) -> int
    decreases args.len() - i,
{
    if i < 0 || i >= args.len() {
        -1
    } else if args[i].0@ == key {
        i
    } else {
        arg_index(args, key, i + 1)
    }
}

/// The value of argument `key` when it is present with a string value.
pub open spec fn opt_arg(args: Seq<(String, Option<String>)>, key: Seq<char>) -> Option<Seq<char>> {
    let i = arg_index(args, key, 0);
    if i < 0 {
        None
    } else {
        opt_view(args[i].1)
    }
}

/// Message for a required argument that is missing or not a string.
pub open spec fn missing_arg_message(key: Seq<char>) -> Seq<char> {
    "missing or non-string argument '"@ + key + "'"@
}

/// Message for a tool name the server does not know.
pub open spec fn unknown_tool_message(name: Seq<char>) -> Seq<char> {
    "unknown tool '"@ + name + "'"@
}

/// The tool run that a `tools/call` asks for, or the error text of its result.
pub open spec fn planned_call(p: CallParams) -> Result<ToolInvocationView, Seq<char>> {
    let name = match p.name {
        Some(n) => n@,
        None => Seq::<char>::empty(),
    };
    let args = p.args@;
    let input = opt_arg(args, "input"@);
    let output = opt_arg(args, "output"@);
    let markdown = opt_arg(args, "markdown"@);
    if name == "list_formats"@ {
        Ok(ToolInvocationView::ListFormats)
    } else if name == "convert_file"@ {
        if input is None {
            Err(missing_arg_message("input"@))
        } else if output is None {
            Err(missing_arg_message("output"@))
        } else {
            Ok(ToolInvocationView::ConvertFile { input: input->0, output: output->0 })
        }
    } else if name == "import_to_md"@ {
        if input is None {
            Err(missing_arg_message("input"@))
        } else {
            Ok(ToolInvocationView::ImportToMd { input: input->0 })
        }
    } else if name == "export_md"@ {
        if markdown is None {
            Err(missing_arg_message("markdown"@))
        } else if output is None {
            Err(missing_arg_message("output"@))
        } else {
            Ok(
                ToolInvocationView::ExportMd {
                    markdown: markdown->0,
                    output: output->0,
                    title: opt_arg(args, "title"@),
                    author: opt_arg(args, "author"@),
                    base_dir: opt_arg(args, "base_dir"@),
                },
            )
        }
    } else if name == "recover_source"@ {
        if input is None {
            Err(missing_arg_message("input"@))
        } else {
            Ok(ToolInvocationView::RecoverSource { input: input->0 })
        }
    } else {
        Err(unknown_tool_message(name))
    }
}

/// The character view of a planned call.
pub open spec fn plan_view(r: Result<ToolInvocation, String>) -> Result<ToolInvocationView, Seq<char>> {
    match r {
        Ok(c) => Ok(c@),
        Err(e) => Err(e@),
    }
}

/// Look up argument `key` among `args` (the first entry with that name).
fn find_arg(args: &Vec<(String, Option<String>)>, key: &str) -> (r: Option<String>)
    ensures
        opt_view(r) == opt_arg(args@, key@),
{
    let mut i: usize = 0;
    while i < args.len()
        invariant
            i <= args.len(),
            arg_index(args@, key@, i as int) == arg_index(args@, key@, 0),
        decreases args.len() - i,
    {
        if same_text(args[i].0.as_str(), key) {
            return match &args[i].1 {
                Some(v) => Some(v.clone()),
                None => None,
            };
        }
        i = i + 1;
    }
    None
}

/// The value of the required string argument `key`, or the error text.
fn str_arg(args: &Vec<(String, Option<String>)>, key: &str) -> (r: Result<String, String>)
    ensures
        match r {
            Ok(v) => opt_arg(args@, key@) == Some(v@),
            Err(e) => opt_arg(args@, key@) is None && e@ == missing_arg_message(key@),
        },
{
    match find_arg(args, key) {
        Some(v) => Ok(v),
        None => {
            let mut e = String::from_str("missing or non-string argument '");
            e.append(key);
            e.append("'");
            Err(e)
        },
    }
}

/// Which tool a `tools/call` runs and with which arguments; the error text
/// for an unknown tool or a missing required argument.
pub fn plan_tool_call(params: &CallParams) -> (r: Result<ToolInvocation, String>)
    ensures
        plan_view(r) == planned_call(*params),
{
    let name: &str = match &params.name {
        Some(n) => n.as_str(),
        None => "",
    };
    proof {
        reveal_strlit("");
        reveal_strlit("list_formats");
        reveal_strlit("convert_file");
        reveal_strlit("import_to_md");
        reveal_strlit("export_md");
        reveal_strlit("recover_source");
        assert(""@.len() == 0);
        assert("list_formats"@.len() == 12 && "list_formats"@[0] == 'l');
        assert("convert_file"@.len() == 12 && "convert_file"@[0] == 'c');
        assert("import_to_md"@.len() == 12 && "import_to_md"@[0] == 'i');
        assert("export_md"@.len() == 9);
        assert("recover_source"@.len() == 14);
    }
    let args = &params.args;
    if same_text(name, "list_formats") {
        Ok(ToolInvocation::ListFormats)
    } else if same_text(name, "convert_file") {
        let input = match str_arg(args, "input") {
            Ok(v) => v,
            Err(e) => {
                return Err(e);
            },
        };
        let output = match str_arg(args, "output") {
            Ok(v) => v,
            Err(e) => {
                return Err(e);
            },
        };
        Ok(ToolInvocation::ConvertFile { input, output })
    } else if same_text(name, "import_to_md") {
        let input = match str_arg(args, "input") {
            Ok(v) => v,
            Err(e) => {
                return Err(e);
            },
        };
        Ok(ToolInvocation::ImportToMd { input })
    } else if same_text(name, "export_md") {
        let markdown = match str_arg(args, "markdown") {
            Ok(v) => v,
            Err(e) => {
                return Err(e);
            },
        };
        let output = match str_arg(args, "output") {
            Ok(v) => v,
            Err(e) => {
                return Err(e);
            },
        };
        let title = find_arg(args, "title");
        let author = find_arg(args, "author");
        let base_dir = find_arg(args, "base_dir");
        Ok(ToolInvocation::ExportMd { markdown, output, title, author, base_dir })
    } else if same_text(name, "recover_source") {
        let input = match str_arg(args, "input") {
            Ok(v) => v,
            Err(e) => {
                return Err(e);
            },
        };
        Ok(ToolInvocation::RecoverSource { input })
    } else {
        let mut e = String::from_str("unknown tool '");
        e.append(name);
        e.append("'");
        Err(e)
    }
}

/// Wrap a tool's outcome as a tool result: its text, flagged as an error
/// when the tool failed.
pub fn tool_reply<Id>(id: Id, result: Result<String, String>) -> (r: Reply<Id>)
    ensures
        match result {
            Ok(t) => r matches Reply::ToolResult { id: rid, text, is_error } && rid == id && text
                == t && !is_error,
            Err(m) => r matches Reply::ToolResult { id: rid, text, is_error } && rid == id && text
                == m && is_error,
        },
{
    match result {
        Ok(text) => Reply::ToolResult { id, text, is_error: false },
        Err(text) => Reply::ToolResult { id, text, is_error: true },
    }
}

/// The answer to a `tools/call` request: "missing params" (-32602) without
/// parameters, a failed tool result when the call cannot be planned, and
/// otherwise the tool to run.
pub fn handle_call<Id>(params: Option<CallParams>, id: Id) -> (d: Dispatch<Id>)
    ensures
        match params {
            None => d matches Dispatch::Reply(Reply::Error { id: rid, code, message }) && rid == id
                && code == -32602 && message@ == "missing params"@,
            Some(p) => match planned_call(p) {
                Ok(c) => d matches Dispatch::RunTool { id: rid, call } && rid == id && call@ == c,
                Err(m) => d matches Dispatch::Reply(Reply::ToolResult { id: rid, text, is_error })
                    && rid == id && text@ == m && is_error,
            },
        },
{
    match params {
        None => Dispatch::Reply(
            Reply::Error { id, code: -32602, message: String::from_str("missing params") },
        ),
        Some(p) => match plan_tool_call(&p) {
            Ok(call) => Dispatch::RunTool { id, call },
            Err(m) => Dispatch::Reply(tool_reply(id, Err(m))),
        },
    }
}

/// What the server does with a JSON-RPC request: notifications
/// (`notifications/initialized`, `notifications/cancelled`) and requests
/// without an id that need one get no reply; `initialize`, `ping` and
/// `tools/list` are answered; `tools/call` is dispatched; any other method
/// with an id gets "method not found" (-32601).
pub fn handle<Id>(method: &str, params: Option<CallParams>, id: Option<Id>) -> (r: Option<
    Dispatch<Id>,
>)
    ensures
        method@ == "initialize"@ ==> match id {
            None => r is None,
            Some(i) => r matches Some(
                Dispatch::Reply(Reply::Initialize { id: rid, protocol_version, server_name }),
            ) && rid == i && protocol_version@ == "2024-11-05"@ && server_name@ == "mdall-mcp"@,
        },
        method@ == "notifications/initialized"@ || method@ == "notifications/cancelled"@ ==> r is None,
        method@ == "ping"@ ==> match id {
            None => r is None,
            Some(i) => r matches Some(Dispatch::Reply(Reply::Pong { id: rid })) && rid == i,
        },
        method@ == "tools/list"@ ==> match id {
            None => r is None,
            Some(i) => r matches Some(Dispatch::Reply(Reply::ToolList { id: rid, tools })) && rid
                == i && tool_defs_exact(tools@),
        },
        method@ == "tools/call"@ ==> match id {
            None => r is None,
            Some(i) => match params {
                None => r matches Some(Dispatch::Reply(Reply::Error { id: rid, code, message }))
                    && rid == i && code == -32602 && message@ == "missing params"@,
                Some(p) => match planned_call(p) {
                    Ok(c) => r matches Some(Dispatch::RunTool { id: rid, call }) && rid == i
                        && call@ == c,
                    Err(m) => r matches Some(
                        Dispatch::Reply(Reply::ToolResult { id: rid, text, is_error }),
                    ) && rid == i && text@ == m && is_error,
                },
            },
        },
        id is None ==> r is None,
        id is Some && method@ != "notifications/initialized"@ && method@
            != "notifications/cancelled"@ ==> r is Some,
        !known_method(method@) ==> match id {
            None => r is None,
            Some(i) => r matches Some(Dispatch::Reply(Reply::Error { id: rid, code, message }))
                && rid == i && code == -32601 && message@ == "method not found"@,
        },
{
    proof {
        reveal_strlit("initialize");
        reveal_strlit("notifications/initialized");
        reveal_strlit("notifications/cancelled");
        reveal_strlit("ping");
        reveal_strlit("tools/list");
        reveal_strlit("tools/call");
    }
    proof {
        assert("initialize"@.len() == 10 && "initialize"@[0] == 'i');
        assert("notifications/initialized"@.len() == 25);
        assert("notifications/cancelled"@.len() == 23);
        assert("ping"@.len() == 4);
        assert("tools/list"@.len() == 10 && "tools/list"@[0] == 't' && "tools/list"@[6] == 'l');
        assert("tools/call"@.len() == 10 && "tools/call"@[0] == 't' && "tools/call"@[6] == 'c');
    }
    if same_text(method, "initialize") {
        match id {
            None => None,
            Some(i) => Some(
                Dispatch::Reply(
                    Reply::Initialize {
                        id: i,
                        protocol_version: String::from_str(protocol_version()),
                        server_name: String::from_str(server_name()),
                    },
                ),
            ),
        }
    } else if same_text(method, "notifications/initialized") || same_text(
        method,
        "notifications/cancelled",
    ) {
        None
    } else if same_text(method, "ping") {
        match id {
            None => None,
            Some(i) => Some(Dispatch::Reply(Reply::Pong { id: i })),
        }
    } else if same_text(method, "tools/list") {
        match id {
            None => None,
            Some(i) => Some(Dispatch::Reply(Reply::ToolList { id: i, tools: tool_defs() })),
        }
    } else if same_text(method, "tools/call") {
        match id {
            None => None,
            Some(i) => Some(handle_call(params, i)),
        }
    } else {
        match id {
            None => None,
            Some(i) => Some(
                Dispatch::Reply(
                    Reply::Error {
                        id: i,
                        code: -32601,
                        message: String::from_str("method not found"),
                    },
                ),
            ),
        }
    }
}

/// The methods the server knows.
pub open spec fn known_method(m: Seq<char>) -> bool {
    ||| m == "initialize"@
    ||| m == "notifications/initialized"@
    ||| m == "notifications/cancelled"@
    ||| m == "ping"@
    ||| m == "tools/list"@
    ||| m == "tools/call"@
}

/// Name of tool `i` (in the order of the tool list).
pub open spec fn tool_name(i: int) -> Seq<char> {
    if i == 0 {
        "list_formats"@
    } else if i == 1 {
        "convert_file"@
    } else if i == 2 {
        "import_to_md"@
    } else if i == 3 {
        "export_md"@
    } else {
        "recover_source"@
    }
}

/// Description of tool `i`.
pub open spec fn tool_description(i: int) -> Seq<char> {
    if i == 0 {
        "List every import and export format the conversion engine supports."@
    } else if i == 1 {
        "Convert a document from one format to another, inferring both formats from the file extensions. Fully offline. DOCX export is reversible: the original Markdown + LaTeX is embedded for lossless recovery."@
    } else if i == 2 {
        "Import any supported document and return its Markdown representation (LaTeX equations preserved as $...$). Does not write a file."@
    } else if i == 3 {
        "Export inline Markdown to a file in the format implied by the output extension. Optional title/author metadata. Referenced figures are resolved relative to base_dir (default: the output folder)."@
    } else {
        "Recover the ORIGINAL editable Markdown + LaTeX from a DOCX previously exported by MD -> ALL. This is the reversibility differentiator: a supervisor can annotate the DOCX in Word and the author recovers their exact source. Returns the recovered Markdown."@
    }
}

/// Argument names of tool `i`, in schema order.
pub open spec fn tool_param_names(i: int) -> Seq<Seq<char>> {
    if i == 0 {
        Seq::empty()
    } else if i == 1 {
        seq!["input"@, "output"@]
    } else if i == 2 {
        seq!["input"@]
    } else if i == 3 {
        seq!["markdown"@, "output"@, "title"@, "author"@, "base_dir"@]
    } else {
        seq!["input"@]
    }
}

/// Argument descriptions of tool `i`, in schema order.
pub open spec fn tool_param_descriptions(i: int) -> Seq<Seq<char>> {
    if i == 0 {
        Seq::empty()
    } else if i == 1 {
        seq![
            "Absolute path to the source file (.md/.docx/.html/.tex/...)."@,
            "Absolute path to write; the extension selects the target format (.pdf/.docx/.html/.typ/...)."@,
        ]
    } else if i == 2 {
        seq!["Absolute path to the source file."@]
    } else if i == 3 {
        seq![
            "Markdown source to export."@,
            "Absolute output path; extension selects the format."@,
            "Optional document title."@,
            "Optional document author."@,
            "Optional folder to resolve relative image paths against (default: output folder)."@,
        ]
    } else {
        seq!["Absolute path to a .docx produced by MD -> ALL."@]
    }
}

/// Required arguments of tool `i`.
pub open spec fn tool_required(i: int) -> Seq<Seq<char>> {
    if i == 0 {
        Seq::empty()
    } else if i == 1 {
        seq!["input"@, "output"@]
    } else if i == 2 {
        seq!["input"@]
    } else if i == 3 {
        seq!["markdown"@, "output"@]
    } else {
        seq!["input"@]
    }
}

/// Tool `t` is tool number `i` of the list.
pub open spec fn tool_def_is(t: ToolDef, i: int) -> bool {
    &&& t.name@ == tool_name(i)
    &&& t.description@ == tool_description(i)
    &&& t.params@.len() == tool_param_names(i).len()
    &&& forall|k: int|
        0 <= k < t.params@.len() ==> (#[trigger] t.params@[k]).name@ == tool_param_names(i)[k]
            && t.params@[k].description@ == tool_param_descriptions(i)[k]
    &&& t.required@.len() == tool_required(i).len()
    &&& forall|k: int| 0 <= k < t.required@.len() ==> (#[trigger] t.required@[k])@ == tool_required(i)[k]
}

/// The tool list is exactly the five tools, in order.
pub open spec fn tool_defs_exact(tools: Seq<ToolDef>) -> bool {
    &&& tools.len() == 5
    &&& forall|i: int| 0 <= i < 5 ==> tool_def_is(#[trigger] tools[i], i)
}

fn param(name: &str, description: &str) -> (p: ToolParam)
    ensures
        p.name@ == name@,
        p.description@ == description@,
{
    ToolParam { name: String::from_str(name), description: String::from_str(description) }
}

/// The five tools the server offers: list_formats, convert_file,
/// import_to_md, export_md and recover_source.
pub fn tool_defs() -> (tools: Vec<ToolDef>)
    ensures
        tool_defs_exact(tools@),
{
    let mut tools: Vec<ToolDef> = Vec::new();
    tools.push(
        ToolDef {
            name: String::from_str("list_formats"),
            description: String::from_str(
                "List every import and export format the conversion engine supports.",
            ),
            params: Vec::new(),
            required: Vec::new(),
        },
    );
    let mut p1: Vec<ToolParam> = Vec::new();
    p1.push(
        param(
            "input",
            "Absolute path to the source file (.md/.docx/.html/.tex/...).",
        ),
    );
    p1.push(
        param(
            "output",
            "Absolute path to write; the extension selects the target format (.pdf/.docx/.html/.typ/...).",
        ),
    );
    let mut r1: Vec<String> = Vec::new();
    r1.push(String::from_str("input"));
    r1.push(String::from_str("output"));
    tools.push(
        ToolDef {
            name: String::from_str("convert_file"),
            description: String::from_str(
                "Convert a document from one format to another, inferring both formats from the file extensions. Fully offline. DOCX export is reversible: the original Markdown + LaTeX is embedded for lossless recovery.",
            ),
            params: p1,
            required: r1,
        },
    );
    let mut p2: Vec<ToolParam> = Vec::new();
    p2.push(param("input", "Absolute path to the source file."));
    let mut r2: Vec<String> = Vec::new();
    r2.push(String::from_str("input"));
    tools.push(
        ToolDef {
            name: String::from_str("import_to_md"),
            description: String::from_str(
                "Import any supported document and return its Markdown representation (LaTeX equations preserved as $...$). Does not write a file.",
            ),
            params: p2,
            required: r2,
        },
    );
    let mut p3: Vec<ToolParam> = Vec::new();
    p3.push(param("markdown", "Markdown source to export."));
    p3.push(param("output", "Absolute output path; extension selects the format."));
    p3.push(param("title", "Optional document title."));
    p3.push(param("author", "Optional document author."));
    p3.push(
        param(
            "base_dir",
            "Optional folder to resolve relative image paths against (default: output folder).",
        ),
    );
    let mut r3: Vec<String> = Vec::new();
    r3.push(String::from_str("markdown"));
    r3.push(String::from_str("output"));
    tools.push(
        ToolDef {
            name: String::from_str("export_md"),
            description: String::from_str(
                "Export inline Markdown to a file in the format implied by the output extension. Optional title/author metadata. Referenced figures are resolved relative to base_dir (default: the output folder).",
            ),
            params: p3,
            required: r3,
        },
    );
    let mut p4: Vec<ToolParam> = Vec::new();
    p4.push(param("input", "Absolute path to a .docx produced by MD -> ALL."));
    let mut r4: Vec<String> = Vec::new();
    r4.push(String::from_str("input"));
    tools.push(
        ToolDef {
            name: String::from_str("recover_source"),
            description: String::from_str(
                "Recover the ORIGINAL editable Markdown + LaTeX from a DOCX previously exported by MD -> ALL. This is the reversibility differentiator: a supervisor can annotate the DOCX in Word and the author recovers their exact source. Returns the recovered Markdown.",
            ),
            params: p4,
            required: r4,
        },
    );
    proof {
        assert(tool_def_is(tools@[0], 0));
        assert(tool_def_is(tools@[1], 1));
        assert(tool_def_is(tools@[2], 2));
        assert(tool_def_is(tools@[3], 3));
        assert(tool_def_is(tools@[4], 4));
    }
    tools
}

/// `items` joined with `sep` between consecutive items.
pub open spec fn join(items: Seq<Seq<char>>, sep: Seq<char>) -> Seq<char>
    decreases items.len(),
{
    if items.len() == 0 {
        Seq::empty()
    } else if items.len() == 1 {
        items[0]
    } else {
        join(items.drop_last(), sep) + sep + items.last()
    }
}

/// The character views of a list of texts.
pub open spec fn texts_view(v: Seq<String>) -> Seq<Seq<char>> {
    v.map_values(|s: String| s@)
}

/// `items` joined with `sep`.
pub fn join_texts(items: &Vec<String>, sep: &str) -> (r: String)
    ensures
        r@ == join(texts_view(items@), sep@),
{
    let mut r = String::new();
    let ghost all = texts_view(items@);
    let mut i: usize = 0;
    while i < items.len()
        invariant
            i <= items.len(),
            all == texts_view(items@),
            r@ == join(all.take(i as int), sep@),
        decreases items.len() - i,
    {
        proof {
            assert(all.take(i + 1).drop_last() =~= all.take(i as int));
            assert(all.take(i + 1).last() == items@[i as int]@);
        }
        if i > 0 {
            r.append(sep);
        } else {
            proof {
                assert(all.take(1) =~= seq![items@[0]@]);
            }
        }
        r.append(items[i].as_str());
        i = i + 1;
    }
    proof {
        assert(all.take(items@.len() as int) =~= all);
    }
    r
}

/// The `list_formats` tool's text for the engine's import and export extensions.
pub open spec fn formats_text(imports: Seq<Seq<char>>, exports: Seq<Seq<char>>) -> Seq<char> {
    "Import formats ("@ + decimal(imports.len()) + "):\n  "@ + join(imports, " "@)
        + "\n\nExport formats ("@ + decimal(exports.len()) + "):\n  "@ + join(exports, " "@)
}

/// The text of the `list_formats` tool: how many import and export formats
/// the engine supports and their extensions, space-separated.
pub fn list_formats(imports: &Vec<String>, exports: &Vec<String>) -> (r: String)
    ensures
        r@ == formats_text(texts_view(imports@), texts_view(exports@)),
{
    let mut r = String::from_str("Import formats (");
    r.append(usize_to_decimal(imports.len()).as_str());
    r.append("):\n  ");
    r.append(join_texts(imports, " ").as_str());
    r.append("\n\nExport formats (");
    r.append(usize_to_decimal(exports.len()).as_str());
    r.append("):\n  ");
    r.append(join_texts(exports, " ").as_str());
    r
}

/// What an `export_md` run hands the engine besides the Markdown and the
/// output path.
pub struct ExportMdSettings {
    /// Document title, when the call gives one (otherwise the engine's default).
    pub title: Option<String>,
    /// Document author, when the call gives one (otherwise the engine's default).
    pub author: Option<String>,
    /// Folder that relative figure paths are resolved against.
    pub figure_dir: Option<String>,
}

fn clone_opt(o: &Option<String>) -> (r: Option<String>)
    ensures
        opt_view(r) == opt_view(*o),
{
    match o {
        Some(t) => Some(t.clone()),
        None => None,
    }
}

/// The settings of an `export_md` call: its title and author, and as figure
/// folder its `base_dir` when given, otherwise `output_parent` (the folder of
/// the output file, when it has one). `None` for any other tool.
pub fn export_md_settings(call: &ToolInvocation, output_parent: Option<String>) -> (r: Option<
    ExportMdSettings,
>)
    ensures
        match call@ {
            ToolInvocationView::ExportMd { title, author, base_dir, .. } => r matches Some(st)
                && opt_view(st.title) == title && opt_view(st.author) == author && opt_view(
                st.figure_dir,
            ) == (if base_dir is Some {
                base_dir
            } else {
                opt_view(output_parent)
            }),
            _ => r is None,
        },
{
    match call {
        ToolInvocation::ExportMd { title, author, base_dir, .. } => {
            let figure_dir = match base_dir {
                Some(b) => Some(b.clone()),
                None => output_parent,
            };
            Some(ExportMdSettings { title: clone_opt(title), author: clone_opt(author), figure_dir })
        },
        _ => None,
    }
}

/// Result text of a successful `convert_file`.
pub fn converted_message(input: &str, output: &str) -> (r: String)
    ensures
        r@ == "converted: "@ + input@ + " -> "@ + output@,
{
    let mut r = String::from_str("converted: ");
    r.append(input);
    r.append(" -> ");
    r.append(output);
    r
}

/// Result text of a successful `export_md`.
pub fn exported_message(output: &str) -> (r: String)
    ensures
        r@ == "exported markdown -> "@ + output@,
{
    let mut r = String::from_str("exported markdown -> ");
    r.append(output);
    r
}

} // verus!
