//! The command materializer and invocation descriptor: rendering the
//! command line's templated fields against the context, the canonical
//! display form that serves as the default rate-limit key, and the derived
//! per-invocation log-file paths.

use vstd::prelude::*;

use crate::context::{insert_file_context, Context};
use crate::pathinfo::resolved;

verus! {

/// A fully-described invocation: the command, its arguments and where its
/// output goes, together with the triggering event.
pub struct CommandInfo {
    pub name: String,
    pub event_path: String,
    pub event_kind: String,
    pub cmd: String,
    pub arg: Vec<String>,
    pub input: String,
    pub output: String,
}

pub ghost struct CommandInfoV {
    pub name: Seq<char>,
    pub event_path: Seq<char>,
    pub event_kind: Seq<char>,
    pub cmd: Seq<char>,
    pub arg: Seq<Seq<char>>,
    pub input: Seq<char>,
    pub output: Seq<char>,
}

impl View for CommandInfo {
    type V = CommandInfoV;

    open spec fn view(&self) -> CommandInfoV {
        CommandInfoV {
            name: self.name@,
            event_path: self.event_path@,
            event_kind: self.event_kind@,
            cmd: self.cmd@,
            arg: self.arg.deep_view(),
            input: self.input@,
            output: self.output@,
        }
    }
}

/// The arguments listed with comma separators.
pub open spec fn args_list(args: Seq<Seq<char>>) -> Seq<char>
    decreases args.len(),
{
    if args.len() == 0 {
        Seq::empty()
    } else if args.len() == 1 {
        args[0]
    } else {
        args_list(args.drop_last()) + ", "@ + args.last()
    }
}

/// The canonical display form, used as the default rate-limit and mutex key.
pub open spec fn display_of(v: CommandInfoV) -> Seq<char> {
    "CommandInfo { name: "@ + v.name
        + ", event_path: "@ + v.event_path
        + ", event_kind: "@ + v.event_kind
        + ", cmd: "@ + v.cmd
        + ", arg: ["@ + args_list(v.arg)
        + "], input: "@ + v.input
        + ", output: "@ + v.output
        + " }"@
}

impl CommandInfo {
    /// The canonical display form of this invocation.
    pub fn display_string(&self) -> (r: String)
        ensures
            r@ == display_of(self@),
    {
        let mut out = String::new();
        out.append("CommandInfo { name: ");
        out.append(self.name.as_str());
        out.append(", event_path: ");
        out.append(self.event_path.as_str());
        out.append(", event_kind: ");
        out.append(self.event_kind.as_str());
        out.append(", cmd: ");
        out.append(self.cmd.as_str());
        out.append(", arg: [");
        let ghost head = out@;
        let ghost args = self.arg.deep_view();
        let n = self.arg.len();
        for i in 0..n
            invariant
                n == self.arg@.len(),
                args == self.arg.deep_view(),
                out@ == head + args_list(args.take(i as int)),
        {
            if i > 0 {
                out.append(", ");
            }
            out.append(self.arg[i].as_str());
            proof {
                let t = args.take(i + 1);
                assert(t.drop_last() =~= args.take(i as int));
                assert(t.last() == args[i as int]);
                assert(out@ =~= head + args_list(t));
            }
        }
        proof {
            assert(args.take(n as int) =~= args);
        }
        out.append("], input: ");
        out.append(self.input.as_str());
        out.append(", output: ");
        out.append(self.output.as_str());
        out.append(" }");
        proof {
            assert(out@ =~= display_of(self@));
        }
        out
    }

    /// An independent copy with the same view.
    pub fn duplicate(&self) -> (r: CommandInfo)
        ensures
            r@ == self@,
    {
        let mut arg: Vec<String> = Vec::new();
        let n = self.arg.len();
        for i in 0..n
            invariant
                n == self.arg@.len(),
                arg@.len() == i,
                forall|j: int| 0 <= j < i ==> arg@[j] == self.arg@[j],
        {
            arg.push(self.arg[i].clone());
        }
        proof {
            assert(arg@ =~= self.arg@);
        }
        CommandInfo {
            name: self.name.clone(),
            event_path: self.event_path.clone(),
            event_kind: self.event_kind.clone(),
            cmd: self.cmd.clone(),
            arg,
            input: self.input.clone(),
            output: self.output.clone(),
        }
    }
}

/// The outcome of one invocation attempt: either the exit code of the
/// executed command with its two capture files, or a skip.
pub struct CommandResult {
    pub status: i32,
    pub stdout: String,
    pub stderr: String,
    pub skipped: bool,
}

impl CommandResult {
    /// A skipped invocation: status zero and both capture paths empty.
    pub fn skipped_result() -> (r: CommandResult)
        ensures
            r.skipped,
            r.status == 0,
            r.stdout@.len() == 0,
            r.stderr@.len() == 0,
    {
        CommandResult { status: 0, stdout: String::new(), stderr: String::new(), skipped: true }
    }

    /// A completed execution: never marked skipped, and both capture paths
    /// are the non-empty paths the executor wrote to.
    pub fn completed_result(status: i32, stdout: String, stderr: String) -> (r: CommandResult)
        requires
            stdout@.len() > 0,
            stderr@.len() > 0,
        ensures
            !r.skipped,
            r.status == status,
            r.stdout@ == stdout@,
            r.stderr@ == stderr@,
            r.stdout@.len() > 0,
            r.stderr@.len() > 0,
    {
        CommandResult { status, stdout, stderr, skipped: false }
    }
}

/// A template that failed to compile or render: the event is skipped.
#[derive(Debug)]
pub struct RenderError {
    pub field: String,
}

#[verifier::external_type_specification]
#[verifier::external_body]
pub struct ExTera(tera::Tera);

/// Whether a template compiles; a function of the template text alone.
pub uninterp spec fn tera_compiles(tmpl: Seq<char>) -> bool;

/// Relies on `tera::Tera::add_raw_template`: an engine holding the one
/// template, `None` exactly when the template does not compile — which
/// depends on the template text alone.
#[verifier::external_body]
fn new_engine(tmpl: &str) -> (r: Option<tera::Tera>)
    ensures
        r is Some <==> tera_compiles(tmpl@),
{
    let mut tera = tera::Tera::default();
    if tera.add_raw_template("inline", tmpl).is_err() {
        return None;
    }
    Some(tera)
}

/// Relies on `tera::Tera::register_function`: the `enc`/`dec` template
/// helpers, as closures over this library's verified sealing functions.
/// Helpers that set the environment or spawn a shell cannot stand in the
/// library and are only offered by the engine that expands the
/// configuration file outside it.
#[verifier::external_body]
fn register_seal_helpers(tera: &mut tera::Tera)
{
    tera.register_function("enc", |a: &std::collections::HashMap<String, tera::Value>| a.get("arg").and_then(|v| v.as_str()).and_then(|s| crate::crypto::enc(s)).map(tera::Value::String).ok_or_else(|| tera::Error::msg("enc failed")));
    tera.register_function("dec", |a: &std::collections::HashMap<String, tera::Value>| a.get("arg").and_then(|v| v.as_str()).and_then(|s| crate::crypto::dec(s)).map(tera::Value::String).ok_or_else(|| tera::Error::msg("dec failed")));
}

/// Relies on `tera::Tera::render` (the bindings converted through
/// `tera::Context::insert`): renders the engine's template against the
/// bindings.  The engine's built-ins (`get_env` among them) may consult
/// the environment, the clock or a random source, so nothing is promised
/// of the value.
#[verifier::external_body]
fn render_with(tera: &tera::Tera, pairs: &Vec<(String, String)>) -> (r: Option<String>)
{
    let mut ctx = tera::Context::new();
    for (k, v) in pairs.iter() {
        ctx.insert(k, v);
    }
    tera.render("inline", &ctx).ok()
}

/// Render one template against the bindings, with the `enc`/`dec` helpers
/// available to it.  An uncompilable template never renders.
fn render_template(tmpl: &str, pairs: &Vec<(String, String)>) -> (r: Option<String>)
    ensures
        r is Some ==> tera_compiles(tmpl@),
{
    match new_engine(tmpl) {
        Some(mut tera) => {
            register_seal_helpers(&mut tera);
            render_with(&tera, pairs)
        }
        None => None,
    }
}

/// The arguments joined by single spaces, as bound under `arg` in the
/// context.
pub open spec fn joined_spaces(args: Seq<Seq<char>>) -> Seq<char>
    decreases args.len(),
{
    if args.len() == 0 {
        Seq::empty()
    } else if args.len() == 1 {
        args[0]
    } else {
        joined_spaces(args.drop_last()) + seq![' '] + args.last()
    }
}

fn join_space(v: &Vec<String>) -> (r: String)
    ensures
        r@ == joined_spaces(v.deep_view()),
{
    let mut out = String::new();
    let ghost args = v.deep_view();
    let n = v.len();
    for i in 0..n
        invariant
            n == v@.len(),
            args == v.deep_view(),
            out@ == joined_spaces(args.take(i as int)),
    {
        if i > 0 {
            out.append(" ");
        }
        out.append(v[i].as_str());
        proof {
            reveal_strlit(" ");
            let t = args.take(i + 1);
            assert(t.drop_last() =~= args.take(i as int));
            assert(t.last() == args[i as int]);
            assert(out@ =~= joined_spaces(t));
        }
    }
    proof {
        assert(args.take(n as int) =~= args);
    }
    out
}

/// Materialize an invocation: augment the context with the event path's
/// decomposition, then render the spy name, the command, each argument, the
/// input and the output in that order, each rendered value entering the
/// context before the next render.  The event fields and the name are
/// carried over unrendered; the shape of the argument list is kept, and
/// the returned context binds `cmd`, `arg` (space-joined), `input` and
/// `output` to the rendered fields it returns.
pub fn render_command(cmd_info: &CommandInfo, context: &Context, cwd: &str) -> (r: Result<(CommandInfo, Context), RenderError>)
    requires
        context.wf(),
    ensures
        r matches Ok(p) ==> {
            let abs = resolved(cwd@, cmd_info@.event_path);
            &&& p.0@.name == cmd_info@.name
            &&& p.0@.event_path == cmd_info@.event_path
            &&& p.0@.event_kind == cmd_info@.event_kind
            &&& p.0@.arg.len() == cmd_info@.arg.len()
            &&& p.1.wf()
            &&& p.1@.contains_key("event"@ + "_path"@) && p.1@["event"@ + "_path"@] == abs
            &&& p.1@.contains_key("event"@ + "_dir"@) && p.1@["event"@ + "_dir"@] == crate::pathinfo::dir_of(abs)
            &&& p.1@.contains_key("event"@ + "_dirname"@) && p.1@["event"@ + "_dirname"@] == crate::pathinfo::dirname_of(abs)
            &&& p.1@.contains_key("event"@ + "_name"@) && p.1@["event"@ + "_name"@] == crate::pathinfo::name_of(abs)
            &&& p.1@.contains_key("event"@ + "_stem"@) && p.1@["event"@ + "_stem"@] == crate::pathinfo::stem_of(abs)
            &&& p.1@.contains_key("event"@ + "_ext"@) && p.1@["event"@ + "_ext"@] == crate::pathinfo::ext_of(abs)
            &&& p.1@.contains_key("spy_name"@)
            &&& p.1@.contains_key("cmd"@) && p.1@["cmd"@] == p.0@.cmd
            &&& p.1@.contains_key("arg"@) && p.1@["arg"@] == joined_spaces(p.0@.arg)
            &&& p.1@.contains_key("input"@) && p.1@["input"@] == p.0@.input
            &&& p.1@.contains_key("output"@) && p.1@["output"@] == p.0@.output
        },
        r matches Err(e) ==> (e.field@ == "spy_name"@ || e.field@ == "cmd"@ || e.field@ == "arg"@
            || e.field@ == "input"@ || e.field@ == "output"@),
        !tera_compiles(cmd_info@.name) ==> r is Err,
{
    let mut ctx = context.duplicate();
    insert_file_context(cmd_info.event_path.as_str(), "event", &mut ctx, cwd);
    proof {
        reveal_strlit("event");
        reveal_strlit("_path");
        reveal_strlit("_dir");
        reveal_strlit("_dirname");
        reveal_strlit("_name");
        reveal_strlit("_stem");
        reveal_strlit("_ext");
        reveal_strlit("spy_name");
        reveal_strlit("cmd");
        reveal_strlit("arg");
        reveal_strlit("input");
        reveal_strlit("output");
        let ep = "event"@ + "_path"@;
        let en = "event"@ + "_name"@;
        let es = "event"@ + "_stem"@;
        let ed = "event"@ + "_dir"@;
        let ex = "event"@ + "_ext"@;
        let edn = "event"@ + "_dirname"@;
        assert(ep.len() == 10 && ed.len() == 9 && edn.len() == 13);
        assert(en.len() == 10 && es.len() == 10 && ex.len() == 9);
        assert(ep[6] == 'p' && en[6] == 'n' && es[6] == 's');
        assert(ed[6] == 'd' && ex[6] == 'e');
        assert(ep != en && ep != es && en != es && ed != ex);
        assert("cmd"@[0] == 'c' && "arg"@[0] == 'a');
        assert("cmd"@ != "arg"@);
        assert("spy_name"@.len() == 8 && "cmd"@.len() == 3 && "arg"@.len() == 3);
        assert("input"@.len() == 5 && "output"@.len() == 6);
    }

    let spy_name = match render_template(cmd_info.name.as_str(), ctx.pairs()) {
        Some(v) => v,
        None => {
            return Err(RenderError { field: "spy_name".to_owned() });
        }
    };
    ctx.insert("spy_name", spy_name.as_str());

    let cmd = match render_template(cmd_info.cmd.as_str(), ctx.pairs()) {
        Some(v) => v,
        None => {
            return Err(RenderError { field: "cmd".to_owned() });
        }
    };
    ctx.insert("cmd", cmd.as_str());

    let mut arg: Vec<String> = Vec::new();
    let n = cmd_info.arg.len();
    for i in 0..n
        invariant
            n == cmd_info.arg@.len(),
            arg@.len() == i,
            ctx.wf(),
        decreases n - i,
    {
        match render_template(cmd_info.arg[i].as_str(), ctx.pairs()) {
            Some(v) => arg.push(v),
            None => {
                return Err(RenderError { field: "arg".to_owned() });
            }
        }
    }
    let joined = join_space(&arg);
    ctx.insert("arg", joined.as_str());

    let input = match render_template(cmd_info.input.as_str(), ctx.pairs()) {
        Some(v) => v,
        None => {
            return Err(RenderError { field: "input".to_owned() });
        }
    };
    ctx.insert("input", input.as_str());

    let output = match render_template(cmd_info.output.as_str(), ctx.pairs()) {
        Some(v) => v,
        None => {
            return Err(RenderError { field: "output".to_owned() });
        }
    };
    ctx.insert("output", output.as_str());

    let info = CommandInfo {
        name: cmd_info.name.clone(),
        event_path: cmd_info.event_path.clone(),
        event_kind: cmd_info.event_kind.clone(),
        cmd,
        arg,
        input,
        output,
    };
    Ok((info, ctx))
}

/// A materialized invocation with its two effective keys, ready for the
/// scheduler, and the context the keys were rendered against.
pub struct Invocation {
    pub info: CommandInfo,
    pub limitkey: String,
    pub mutexkey: String,
    pub context: Context,
}

/// The stages of materializing one invocation, in render order.
#[derive(Debug, Clone, Copy, PartialEq, Eq, Structural)]
pub enum RenderStage {
    /// The spy name template.
    Name,
    /// The command template.
    Cmd,
    /// The argument templates, one per call.
    Args,
    /// The input template.
    Input,
    /// The output template.
    Output,
    /// The rate-limit key template (skipped when empty).
    LimitKey,
    /// The mutex key template (skipped when empty).
    MutexKey,
    /// Nothing left to render.
    Done,
}

pub open spec fn stage_rank(s: RenderStage) -> int {
    match s {
        RenderStage::Name => 0,
        RenderStage::Cmd => 1,
        RenderStage::Args => 2,
        RenderStage::Input => 3,
        RenderStage::Output => 4,
        RenderStage::LimitKey => 5,
        RenderStage::MutexKey => 6,
        RenderStage::Done => 7,
    }
}

proof fn lemma_template_keys()
    ensures
        ("event"@ + "_path"@).len() == 10,
        ("event"@ + "_dir"@).len() == 9,
        ("event"@ + "_dirname"@).len() == 13,
        ("event"@ + "_name"@).len() == 10,
        ("event"@ + "_stem"@).len() == 10,
        ("event"@ + "_ext"@).len() == 9,
        "spy_name"@.len() == 8,
        "cmd"@.len() == 3,
        "arg"@.len() == 3,
        "input"@.len() == 5,
        "output"@.len() == 6,
        "limitkey"@.len() == 8,
        "mutexkey"@.len() == 8,
        "cmd"@ != "arg"@,
        "spy_name"@ != "limitkey"@,
        "spy_name"@ != "mutexkey"@,
        "limitkey"@ != "mutexkey"@,
        "event"@ + "_path"@ != "event"@ + "_name"@,
        "event"@ + "_path"@ != "event"@ + "_stem"@,
        "event"@ + "_name"@ != "event"@ + "_stem"@,
        "event"@ + "_dir"@ != "event"@ + "_ext"@,
{
    reveal_strlit("event");
    reveal_strlit("_path");
    reveal_strlit("_dir");
    reveal_strlit("_dirname");
    reveal_strlit("_name");
    reveal_strlit("_stem");
    reveal_strlit("_ext");
    reveal_strlit("spy_name");
    reveal_strlit("cmd");
    reveal_strlit("arg");
    reveal_strlit("input");
    reveal_strlit("output");
    reveal_strlit("limitkey");
    reveal_strlit("mutexkey");
    assert(("event"@ + "_path"@)[6] == 'p');
    assert(("event"@ + "_name"@)[6] == 'n');
    assert(("event"@ + "_stem"@)[6] == 's');
    assert(("event"@ + "_dir"@)[6] == 'd');
    assert(("event"@ + "_ext"@)[6] == 'e');
    assert("cmd"@[0] == 'c' && "arg"@[0] == 'a');
    assert("spy_name"@[0] == 's' && "limitkey"@[0] == 'l' && "mutexkey"@[0] == 'm');
}

/// The materializer as a step machine: it names, in order, each template
/// the engine must render — spy name, command, every argument, input,
/// output, then the non-empty key templates — together with the bindings
/// to render it against, and absorbs the rendered strings.  An empty key
/// template is never rendered: it falls back to the canonical display form
/// of the assembled invocation.  The caller owns the engine; the order,
/// the bindings and the assembly are all fixed here.
pub struct Materializer {
    source: CommandInfo,
    limit_tmpl: String,
    mutex_tmpl: String,
    cwd: Ghost<Seq<char>>,
    ctx: Context,
    cmd: Option<String>,
    args: Vec<String>,
    input: Option<String>,
    output: Option<String>,
    limitkey: Option<String>,
    mutexkey: Option<String>,
    stage: RenderStage,
}

impl Materializer {
    pub closed spec fn cur_stage(&self) -> RenderStage {
        self.stage
    }

    pub closed spec fn source_view(&self) -> CommandInfoV {
        self.source@
    }

    pub closed spec fn limit_template(&self) -> Seq<char> {
        self.limit_tmpl@
    }

    pub closed spec fn mutex_template(&self) -> Seq<char> {
        self.mutex_tmpl@
    }

    pub closed spec fn cwd_used(&self) -> Seq<char> {
        self.cwd@
    }

    pub closed spec fn bindings(&self) -> Map<Seq<char>, Seq<char>> {
        self.ctx@
    }

    pub closed spec fn args_done(&self) -> int {
        self.args@.len() as int
    }

    pub closed spec fn rendered_args(&self) -> Seq<Seq<char>> {
        self.args.deep_view()
    }

    pub closed spec fn limit_key(&self) -> Seq<char> {
        self.limitkey->Some_0@
    }

    pub closed spec fn mutex_key(&self) -> Seq<char> {
        self.mutexkey->Some_0@
    }

    /// The invocation the supplied strings assemble into.
    pub closed spec fn assembled(&self) -> CommandInfoV {
        CommandInfoV {
            name: self.source@.name,
            event_path: self.source@.event_path,
            event_kind: self.source@.event_kind,
            cmd: self.cmd->Some_0@,
            arg: self.args.deep_view(),
            input: self.input->Some_0@,
            output: self.output->Some_0@,
        }
    }

    pub closed spec fn wf(&self) -> bool {
        let abs = resolved(self.cwd@, self.source@.event_path);
        let b = self.ctx@;
        let r = stage_rank(self.stage);
        &&& self.ctx.wf()
        &&& b.contains_key("event"@ + "_path"@) && b["event"@ + "_path"@] == abs
        &&& b.contains_key("event"@ + "_dir"@) && b["event"@ + "_dir"@] == crate::pathinfo::dir_of(abs)
        &&& b.contains_key("event"@ + "_dirname"@) && b["event"@ + "_dirname"@] == crate::pathinfo::dirname_of(abs)
        &&& b.contains_key("event"@ + "_name"@) && b["event"@ + "_name"@] == crate::pathinfo::name_of(abs)
        &&& b.contains_key("event"@ + "_stem"@) && b["event"@ + "_stem"@] == crate::pathinfo::stem_of(abs)
        &&& b.contains_key("event"@ + "_ext"@) && b["event"@ + "_ext"@] == crate::pathinfo::ext_of(abs)
        &&& r >= 1 ==> b.contains_key("spy_name"@)
        &&& r >= 2 ==> self.cmd is Some && b.contains_key("cmd"@) && b["cmd"@] == self.cmd->Some_0@
        &&& r <= 1 ==> self.args@.len() == 0
        &&& self.stage == RenderStage::Args ==> self.args@.len() < self.source.arg@.len()
        &&& r >= 3 ==> self.args@.len() == self.source.arg@.len() && b.contains_key("arg"@)
            && b["arg"@] == joined_spaces(self.args.deep_view())
        &&& r >= 4 ==> self.input is Some && b.contains_key("input"@) && b["input"@] == self.input->Some_0@
        &&& r >= 5 ==> self.output is Some && b.contains_key("output"@) && b["output"@] == self.output->Some_0@
        &&& self.stage == RenderStage::LimitKey ==> self.limit_tmpl@.len() > 0
        &&& r >= 6 ==> self.limitkey is Some && b.contains_key("limitkey"@)
            && b["limitkey"@] == self.limitkey->Some_0@
            && (self.limit_tmpl@.len() == 0 ==> self.limitkey->Some_0@ == display_of(self.assembled()))
        &&& self.stage == RenderStage::MutexKey ==> self.mutex_tmpl@.len() > 0
        &&& r >= 7 ==> self.mutexkey is Some && b.contains_key("mutexkey"@)
            && b["mutexkey"@] == self.mutexkey->Some_0@
            && (self.mutex_tmpl@.len() == 0 ==> self.mutexkey->Some_0@ == display_of(self.assembled()))
    }

    /// Open a materialization: the context gains the event path's
    /// decomposition, and the first template to render is the spy name.
    pub fn start(
        cmd_info: &CommandInfo,
        context: &Context,
        cwd: &str,
        limitkey_tmpl: &str,
        mutexkey_tmpl: &str,
    ) -> (m: Materializer)
        requires
            context.wf(),
        ensures
            m.wf(),
            m.cur_stage() == RenderStage::Name,
            m.source_view() == cmd_info@,
            m.limit_template() == limitkey_tmpl@,
            m.mutex_template() == mutexkey_tmpl@,
            m.cwd_used() == cwd@,
            ({
                let abs = resolved(cwd@, cmd_info@.event_path);
                m.bindings() == context@
                    .insert("event"@ + "_path"@, abs)
                    .insert("event"@ + "_dir"@, crate::pathinfo::dir_of(abs))
                    .insert("event"@ + "_dirname"@, crate::pathinfo::dirname_of(abs))
                    .insert("event"@ + "_name"@, crate::pathinfo::name_of(abs))
                    .insert("event"@ + "_stem"@, crate::pathinfo::stem_of(abs))
                    .insert("event"@ + "_ext"@, crate::pathinfo::ext_of(abs))
            }),
    {
        let mut ctx = context.duplicate();
        insert_file_context(cmd_info.event_path.as_str(), "event", &mut ctx, cwd);
        proof {
            lemma_template_keys();
        }
        Materializer {
            source: cmd_info.duplicate(),
            limit_tmpl: limitkey_tmpl.to_owned(),
            mutex_tmpl: mutexkey_tmpl.to_owned(),
            cwd: Ghost(cwd@),
            ctx,
            cmd: None,
            args: Vec::new(),
            input: None,
            output: None,
            limitkey: None,
            mutexkey: None,
            stage: RenderStage::Name,
        }
    }

    /// The stage the materialization is at.
    pub fn current_stage(&self) -> (r: RenderStage)
        ensures
            r == self.cur_stage(),
    {
        self.stage
    }

    /// The next template to render, or `None` when the invocation is fully
    /// assembled: the spy name, the command, the argument at the next
    /// index, the input, the output, then each non-empty key template.
    pub fn pending(&self) -> (r: Option<String>)
        requires
            self.wf(),
        ensures
            r is None <==> self.cur_stage() == RenderStage::Done,
            self.cur_stage() == RenderStage::Name ==> (r matches Some(t) && t@ == self.source_view().name),
            self.cur_stage() == RenderStage::Cmd ==> (r matches Some(t) && t@ == self.source_view().cmd),
            self.cur_stage() == RenderStage::Args ==> (r matches Some(t) && t@ == self.source_view().arg[self.args_done()]),
            self.cur_stage() == RenderStage::Input ==> (r matches Some(t) && t@ == self.source_view().input),
            self.cur_stage() == RenderStage::Output ==> (r matches Some(t) && t@ == self.source_view().output),
            self.cur_stage() == RenderStage::LimitKey ==> (r matches Some(t) && t@ == self.limit_template()),
            self.cur_stage() == RenderStage::MutexKey ==> (r matches Some(t) && t@ == self.mutex_template()),
    {
        match self.stage {
            RenderStage::Name => Some(self.source.name.clone()),
            RenderStage::Cmd => Some(self.source.cmd.clone()),
            RenderStage::Args => Some(self.source.arg[self.args.len()].clone()),
            RenderStage::Input => Some(self.source.input.clone()),
            RenderStage::Output => Some(self.source.output.clone()),
            RenderStage::LimitKey => Some(self.limit_tmpl.clone()),
            RenderStage::MutexKey => Some(self.mutex_tmpl.clone()),
            RenderStage::Done => None,
        }
    }

    /// The bindings the pending template must be rendered against.
    pub fn bindings_ref(&self) -> (r: &Context)
        requires
            self.wf(),
        ensures
            r.wf(),
            r@ == self.bindings(),
    {
        &self.ctx
    }

    fn assemble_exec(&self) -> (r: CommandInfo)
        requires
            self.cmd is Some,
            self.input is Some,
            self.output is Some,
        ensures
            r@ == self.assembled(),
    {
        CommandInfo {
            name: self.source.name.clone(),
            event_path: self.source.event_path.clone(),
            event_kind: self.source.event_kind.clone(),
            cmd: self.cmd.as_ref().unwrap().clone(),
            arg: crate::settings::clone_string_vec(&self.args),
            input: self.input.as_ref().unwrap().clone(),
            output: self.output.as_ref().unwrap().clone(),
        }
    }

    /// Absorb the rendered string for the pending template.  Each stage
    /// binds its value before the next render: the spy name under
    /// `spy_name`, the command under `cmd`, the whole argument list
    /// space-joined under `arg` once the last argument arrives, the input
    /// and output under their names, and the keys under `limitkey` and
    /// `mutexkey` — an empty key template being resolved to the display
    /// form without a render.
    pub fn supply(&mut self, rendered: String)
        requires
            old(self).wf(),
            old(self).cur_stage() != RenderStage::Done,
        ensures
            final(self).wf(),
            final(self).source_view() == old(self).source_view(),
            final(self).limit_template() == old(self).limit_template(),
            final(self).mutex_template() == old(self).mutex_template(),
            final(self).cwd_used() == old(self).cwd_used(),
            stage_rank(final(self).cur_stage()) > stage_rank(old(self).cur_stage())
                || (old(self).cur_stage() == RenderStage::Args
                    && final(self).cur_stage() == RenderStage::Args
                    && final(self).args_done() == old(self).args_done() + 1),
            old(self).cur_stage() == RenderStage::Name
                ==> final(self).bindings() == old(self).bindings().insert("spy_name"@, rendered@)
                    && final(self).cur_stage() == RenderStage::Cmd,
            old(self).cur_stage() == RenderStage::Cmd ==> {
                &&& old(self).source_view().arg.len() == 0
                    ==> final(self).bindings() == old(self).bindings().insert("cmd"@, rendered@)
                        .insert("arg"@, joined_spaces(Seq::empty()))
                        && final(self).cur_stage() == RenderStage::Input
                &&& old(self).source_view().arg.len() > 0
                    ==> final(self).bindings() == old(self).bindings().insert("cmd"@, rendered@)
                        && final(self).cur_stage() == RenderStage::Args
            },
            old(self).cur_stage() == RenderStage::Args ==> {
                &&& final(self).rendered_args() == old(self).rendered_args().push(rendered@)
                &&& old(self).args_done() + 1 < old(self).source_view().arg.len()
                    ==> final(self).bindings() == old(self).bindings()
                        && final(self).cur_stage() == RenderStage::Args
                &&& old(self).args_done() + 1 == old(self).source_view().arg.len()
                    ==> final(self).bindings() == old(self).bindings()
                        .insert("arg"@, joined_spaces(final(self).rendered_args()))
                        && final(self).cur_stage() == RenderStage::Input
            },
            old(self).cur_stage() == RenderStage::Input
                ==> final(self).bindings() == old(self).bindings().insert("input"@, rendered@)
                    && final(self).cur_stage() == RenderStage::Output,
            old(self).cur_stage() == RenderStage::Output ==> {
                &&& old(self).limit_template().len() > 0
                    ==> final(self).bindings() == old(self).bindings().insert("output"@, rendered@)
                        && final(self).cur_stage() == RenderStage::LimitKey
                &&& old(self).limit_template().len() == 0 && old(self).mutex_template().len() > 0
                    ==> final(self).bindings() == old(self).bindings().insert("output"@, rendered@)
                        .insert("limitkey"@, display_of(final(self).assembled()))
                        && final(self).cur_stage() == RenderStage::MutexKey
                &&& old(self).limit_template().len() == 0 && old(self).mutex_template().len() == 0
                    ==> final(self).bindings() == old(self).bindings().insert("output"@, rendered@)
                        .insert("limitkey"@, display_of(final(self).assembled()))
                        .insert("mutexkey"@, display_of(final(self).assembled()))
                        && final(self).cur_stage() == RenderStage::Done
            },
            old(self).cur_stage() == RenderStage::LimitKey ==> final(self).limit_key() == rendered@ && {
                &&& old(self).mutex_template().len() > 0
                    ==> final(self).bindings() == old(self).bindings().insert("limitkey"@, rendered@)
                        && final(self).cur_stage() == RenderStage::MutexKey
                &&& old(self).mutex_template().len() == 0
                    ==> final(self).bindings() == old(self).bindings().insert("limitkey"@, rendered@)
                        .insert("mutexkey"@, display_of(final(self).assembled()))
                        && final(self).cur_stage() == RenderStage::Done
            },
            old(self).cur_stage() == RenderStage::MutexKey
                ==> final(self).mutex_key() == rendered@
                    && final(self).bindings() == old(self).bindings().insert("mutexkey"@, rendered@)
                    && final(self).cur_stage() == RenderStage::Done,
    {
        proof {
            lemma_template_keys();
        }
        match self.stage {
            RenderStage::Name => {
                self.ctx.insert("spy_name", rendered.as_str());
                self.stage = RenderStage::Cmd;
            }
            RenderStage::Cmd => {
                self.ctx.insert("cmd", rendered.as_str());
                self.cmd = Some(rendered);
                if self.source.arg.len() == 0 {
                    let joined = join_space(&self.args);
                    self.ctx.insert("arg", joined.as_str());
                    self.stage = RenderStage::Input;
                } else {
                    self.stage = RenderStage::Args;
                }
            }
            RenderStage::Args => {
                self.args.push(rendered);
                if self.args.len() == self.source.arg.len() {
                    let joined = join_space(&self.args);
                    self.ctx.insert("arg", joined.as_str());
                    self.stage = RenderStage::Input;
                }
            }
            RenderStage::Input => {
                self.ctx.insert("input", rendered.as_str());
                self.input = Some(rendered);
                self.stage = RenderStage::Output;
            }
            RenderStage::Output => {
                self.ctx.insert("output", rendered.as_str());
                self.output = Some(rendered);
                if self.limit_tmpl.unicode_len() == 0 {
                    let info = self.assemble_exec();
                    let key = info.display_string();
                    self.ctx.insert("limitkey", key.as_str());
                    self.limitkey = Some(key);
                    if self.mutex_tmpl.unicode_len() == 0 {
                        let info2 = self.assemble_exec();
                        let key2 = info2.display_string();
                        self.ctx.insert("mutexkey", key2.as_str());
                        self.mutexkey = Some(key2);
                        self.stage = RenderStage::Done;
                    } else {
                        self.stage = RenderStage::MutexKey;
                    }
                } else {
                    self.stage = RenderStage::LimitKey;
                }
            }
            RenderStage::LimitKey => {
                self.ctx.insert("limitkey", rendered.as_str());
                self.limitkey = Some(rendered);
                if self.mutex_tmpl.unicode_len() == 0 {
                    let info = self.assemble_exec();
                    let key = info.display_string();
                    self.ctx.insert("mutexkey", key.as_str());
                    self.mutexkey = Some(key);
                    self.stage = RenderStage::Done;
                } else {
                    self.stage = RenderStage::MutexKey;
                }
            }
            RenderStage::MutexKey => {
                self.ctx.insert("mutexkey", rendered.as_str());
                self.mutexkey = Some(rendered);
                self.stage = RenderStage::Done;
            }
            RenderStage::Done => {
                proof {
                    assert(false);
                }
            }
        }
    }

    /// Close the materialization: the assembled invocation, its two keys
    /// (an empty template having defaulted to the display form of the
    /// assembled invocation), and the context both keys are bound in.
    pub fn finish(self) -> (inv: Invocation)
        requires
            self.wf(),
            self.cur_stage() == RenderStage::Done,
        ensures
            inv.info@ == self.assembled(),
            inv.info@.name == self.source_view().name,
            inv.info@.event_path == self.source_view().event_path,
            inv.info@.event_kind == self.source_view().event_kind,
            inv.info@.arg.len() == self.source_view().arg.len(),
            inv.limitkey@ == self.limit_key(),
            inv.mutexkey@ == self.mutex_key(),
            self.limit_template().len() == 0 ==> inv.limitkey@ == display_of(inv.info@),
            self.mutex_template().len() == 0 ==> inv.mutexkey@ == display_of(inv.info@),
            inv.context.wf(),
            inv.context@ == self.bindings(),
            inv.context@.contains_key("limitkey"@) && inv.context@["limitkey"@] == inv.limitkey@,
            inv.context@.contains_key("mutexkey"@) && inv.context@["mutexkey"@] == inv.mutexkey@,
    {
        let info = self.assemble_exec();
        let limitkey = self.limitkey.unwrap();
        let mutexkey = self.mutexkey.unwrap();
        Invocation { info, limitkey, mutexkey, context: self.ctx }
    }
}

fn stage_field(s: RenderStage) -> (r: String)
    ensures
        r@ == "spy_name"@ || r@ == "cmd"@ || r@ == "arg"@ || r@ == "input"@ || r@ == "output"@
            || r@ == "limitkey"@ || r@ == "mutexkey"@,
{
    match s {
        RenderStage::Name => "spy_name".to_owned(),
        RenderStage::Cmd => "cmd".to_owned(),
        RenderStage::Args => "arg".to_owned(),
        RenderStage::Input => "input".to_owned(),
        RenderStage::Output => "output".to_owned(),
        RenderStage::LimitKey => "limitkey".to_owned(),
        RenderStage::MutexKey => "mutexkey".to_owned(),
        RenderStage::Done => "spy_name".to_owned(),
    }
}

/// Materialize the command and render both keys, driving the step machine
/// with this library's own engine (variable substitution plus the
/// `enc`/`dec` helpers).  An empty key template falls back to the canonical
/// display form of the rendered invocation; the rendered limit key enters
/// the returned context before the mutex key is rendered against it, and
/// both keys are bound in the returned context.
pub fn prepare_invocation(
    cmd_info: &CommandInfo,
    context: &Context,
    cwd: &str,
    limitkey_tmpl: &str,
    mutexkey_tmpl: &str,
) -> (r: Result<Invocation, RenderError>)
    requires
        context.wf(),
    ensures
        r matches Ok(inv) ==> {
            &&& inv.info@.name == cmd_info@.name
            &&& inv.info@.event_path == cmd_info@.event_path
            &&& inv.info@.event_kind == cmd_info@.event_kind
            &&& inv.info@.arg.len() == cmd_info@.arg.len()
            &&& limitkey_tmpl@.len() == 0 ==> inv.limitkey@ == display_of(inv.info@)
            &&& mutexkey_tmpl@.len() == 0 ==> inv.mutexkey@ == display_of(inv.info@)
            &&& inv.context.wf()
            &&& inv.context@.contains_key("limitkey"@) && inv.context@["limitkey"@] == inv.limitkey@
            &&& inv.context@.contains_key("mutexkey"@) && inv.context@["mutexkey"@] == inv.mutexkey@
        },
        r matches Err(e) ==> (e.field@ == "spy_name"@ || e.field@ == "cmd"@ || e.field@ == "arg"@
            || e.field@ == "input"@ || e.field@ == "output"@ || e.field@ == "limitkey"@
            || e.field@ == "mutexkey"@),
        r is Ok ==> tera_compiles(cmd_info@.name),
{
    let mut m = Materializer::start(cmd_info, context, cwd, limitkey_tmpl, mutexkey_tmpl);
    loop
        invariant
            m.wf(),
            m.source_view() == cmd_info@,
            m.limit_template() == limitkey_tmpl@,
            m.mutex_template() == mutexkey_tmpl@,
            m.cur_stage() != RenderStage::Name ==> tera_compiles(cmd_info@.name),
        ensures
            m.wf(),
            m.cur_stage() == RenderStage::Done,
            m.source_view() == cmd_info@,
            m.limit_template() == limitkey_tmpl@,
            m.mutex_template() == mutexkey_tmpl@,
            tera_compiles(cmd_info@.name),
        decreases 7 - stage_rank(m.cur_stage()), m.source_view().arg.len() - m.args_done(),
    {
        let stage = m.current_stage();
        match m.pending() {
            Some(tmpl) => match render_template(tmpl.as_str(), m.bindings_ref().pairs()) {
                Some(v) => m.supply(v),
                None => {
                    return Err(RenderError { field: stage_field(stage) });
                }
            },
            None => {
                break;
            }
        }
    }
    Ok(m.finish())
}

/// The shape of an execution timestamp: `YYYYMMDD_HHMMSS` followed by three
/// millisecond digits — eight digits, an underscore, and nine digits.
pub open spec fn is_stamp(s: Seq<char>) -> bool {
    &&& s.len() == 18
    &&& s[8] == '_'
    &&& forall|i: int| 0 <= i < 18 && i != 8 ==> '0' <= #[trigger] s[i] <= '9'
}

/// Relies on `chrono::Local::now` and chrono's `format`: the local
/// wall-clock time as `YYYYMMDD_HHMMSS` plus milliseconds.  Which moment it
/// names depends on the clock and is not promised; the shape is: every
/// field in this format string is fixed-width and zero-padded (the year to
/// four digits in the current era), so the stamp is eight digits, an
/// underscore, and nine digits.
#[verifier::external_body]
fn now_stamp() -> (r: String)
    ensures
        is_stamp(r@),
{
    format!("{}", chrono::Local::now().format("%Y%m%d_%H%M%S%3f"))
}

/// The capture-file name `{name}_{stream}_{stamp}.log`.
pub open spec fn log_name_of(name: Seq<char>, stream: Seq<char>, stamp: Seq<char>) -> Seq<char> {
    name + "_"@ + stream + "_"@ + stamp + ".log"@
}

fn log_file(output: &str, name: &str, stream: &str, stamp: &str) -> (r: String)
    ensures
        r@ == resolved(output@, log_name_of(name@, stream@, stamp@)),
        r@.len() > 0,
{
    let mut file = name.to_owned();
    file.append("_");
    file.append(stream);
    file.append("_");
    file.append(stamp);
    file.append(".log");
    proof {
        reveal_strlit("_");
        reveal_strlit(".log");
        assert(file@ =~= log_name_of(name@, stream@, stamp@));
    }
    let r = crate::pathinfo::path_resolve(output, file.as_str());
    proof {
        reveal_strlit("/");
        assert(r@.len() > 0);
    }
    r
}

/// The two capture paths for one execution, derived from the invocation's
/// output directory, its name, and one `YYYYMMDD_HHMMSS` + milliseconds
/// timestamp shared by both: the stdout and stderr files the executor will
/// redirect into.  Both are non-empty.
pub fn exec_log_paths(info: &CommandInfo) -> (r: (String, String))
    ensures
        exists|stamp: Seq<char>|
            is_stamp(stamp)
                && r.0@ == resolved(info@.output, log_name_of(info@.name, "stdout"@, stamp))
                && r.1@ == resolved(info@.output, log_name_of(info@.name, "stderr"@, stamp)),
        r.0@.len() > 0,
        r.1@.len() > 0,
{
    let stamp = now_stamp();
    let out = log_file(info.output.as_str(), info.name.as_str(), "stdout", &stamp);
    let err = log_file(info.output.as_str(), info.name.as_str(), "stderr", &stamp);
    proof {
        let ghost st = stamp@;
        assert(is_stamp(st)
            && out@ == resolved(info@.output, log_name_of(info@.name, "stdout"@, st))
            && err@ == resolved(info@.output, log_name_of(info@.name, "stderr"@, st)));
    }
    (out, err)
}

} // verus!
