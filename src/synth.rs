use vstd::prelude::*;

use crate::directive::{Directive, DirectiveView, EgressMode};
use crate::error::LogcallError;
use crate::format::{
    PlainArgs, texts, text_view,
    close_pairs, format_text, gen_input_format, gen_pairs, gen_snapshots, join_pairs,
    named_check, pairs_text, placeholder, ret_pair, skip_view, snapshot_text, value_list,
    DisplayMode, LogStyle, Param, RenderConfig,
};
use crate::level::{Level, level_text};

verus! {

/// Prefix of the bindings that hold ingress snapshots.
pub open spec fn in_prefix() -> Seq<char> {
    "__logcall_in_"@
}

/// Prefix of the bindings that hold egress snapshots.
pub open spec fn out_prefix() -> Seq<char> {
    "__logcall_out_"@
}

/// The parameters can be shown under the skip-list.
pub open spec fn params_ready(params: Seq<Param>, skip: Option<Seq<String>>) -> bool {
    skip is Some ==> named_check(params) is Ok
}

pub open spec fn quoted(s: Seq<char>) -> Seq<char> {
    "\""@ + s + "\""@
}

/// `, v1, v2, ...`
pub open spec fn value_args(values: Seq<Seq<char>>) -> Seq<char>
    decreases values.len(),
{
    if values.len() == 0 {
        Seq::empty()
    } else {
        value_args(values.drop_last()) + ", "@ + values.last()
    }
}

/// `format!("<fmt>", v1, v2, ...)`
pub open spec fn format_call(fmt: Seq<char>, values: Seq<Seq<char>>) -> Seq<char> {
    "format!(\""@ + fmt + "\""@ + value_args(values) + ")"@
}

/// The opening of a logging call at a level: `log::info!(`.
pub open spec fn log_open(l: Level) -> Seq<char> {
    "log::"@ + level_text(l) + "!("@
}

pub open spec fn shown_format(params: Seq<Param>, skip: Option<Seq<String>>, mode: DisplayMode) -> Seq<char> {
    match skip {
        None => Seq::empty(),
        Some(s) => format_text(params, s, mode),
    }
}

pub open spec fn shown_values(params: Seq<Param>, skip: Option<Seq<String>>) -> Seq<Seq<char>> {
    match skip {
        None => Seq::empty(),
        Some(s) => value_list(params, s, Seq::empty()),
    }
}

pub open spec fn shown_snapshots(
    params: Seq<Param>,
    skip: Option<Seq<String>>,
    mode: DisplayMode,
    prefix: Seq<char>,
) -> Seq<char> {
    match skip {
        None => Seq::empty(),
        Some(s) => snapshot_text(params, s, mode, prefix),
    }
}

pub open spec fn shown_pairs(
    params: Seq<Param>,
    skip: Option<Seq<String>>,
    prefix: Seq<char>,
    ret: Option<Seq<char>>,
) -> Seq<char> {
    let pairs = match skip {
        None => Seq::empty(),
        Some(s) => pairs_text(params, s, prefix),
    };
    close_pairs(join_pairs(pairs, ret_pair(ret)))
}

/// What is captured of the parameters before the body runs: in the plain
/// style one rendered string bound to `var`, in the structured style one
/// rendered snapshot per shown parameter.
pub open spec fn capture_text(
    params: Seq<Param>,
    skip: Option<Seq<String>>,
    cfg: RenderConfig,
    var: Seq<char>,
    prefix: Seq<char>,
) -> Seq<char> {
    match cfg.style {
        LogStyle::Plain => "let "@ + var + " = "@ + format_call(
            shown_format(params, skip, cfg.display),
            shown_values(params, skip),
        ) + ";\n"@,
        LogStyle::Structured => shown_snapshots(params, skip, cfg.display, prefix),
    }
}

/// The ingress logging call.
pub open spec fn ingress_log(
    l: Level,
    name: Seq<char>,
    params: Seq<Param>,
    skip: Option<Seq<String>>,
    cfg: RenderConfig,
) -> Seq<char> {
    match cfg.style {
        LogStyle::Plain => log_open(l) + "\"{}({})\", "@ + quoted(name) + ", __logcall_ingress);\n"@,
        LogStyle::Structured => log_open(l) + shown_pairs(params, skip, in_prefix(), None)
            + "\"{}()\", "@ + quoted(name) + ");\n"@,
    }
}

/// The egress logging call, once the body's value is bound to `__logcall_ret`.
pub open spec fn egress_log(
    l: Level,
    name: Seq<char>,
    params: Seq<Param>,
    skip: Option<Seq<String>>,
    cfg: RenderConfig,
) -> Seq<char> {
    match cfg.style {
        LogStyle::Plain => log_open(l) + "\"{}({}) => "@ + placeholder(cfg.display) + "\", "@
            + quoted(name) + ", __logcall_egress, &__logcall_ret);\n"@,
        LogStyle::Structured => "let __logcall_ret_text = format!(\""@ + placeholder(cfg.display)
            + "\", &__logcall_ret);\n"@ + log_open(l) + shown_pairs(
            params,
            skip,
            out_prefix(),
            Some("__logcall_ret_text"@),
        ) + "\"{}()\", "@ + quoted(name) + ");\n"@,
    }
}

/// Capture and ingress call, where ingress is logged.
pub open spec fn ingress_text(d: DirectiveView, name: Seq<char>, params: Seq<Param>, cfg: RenderConfig) -> Seq<char> {
    match d.ingress_level {
        None => Seq::empty(),
        Some(l) => capture_text(params, d.skip_list, cfg, "__logcall_ingress"@, in_prefix())
            + ingress_log(l, name, params, d.skip_list, cfg),
    }
}

/// The egress capture, where egress is logged.
pub open spec fn egress_capture(d: DirectiveView, params: Seq<Param>, cfg: RenderConfig) -> Seq<char> {
    match d.egress_mode {
        None => Seq::empty(),
        Some(_) => capture_text(params, d.skip_list, cfg, "__logcall_egress"@, out_prefix()),
    }
}

/// Runs the body to its value, awaiting it where the body suspends.
pub open spec fn run_text(suspending: bool, body: Seq<char>) -> Seq<char> {
    if suspending {
        "let __logcall_ret = async move "@ + body + ".await;\n"@
    } else {
        "let __logcall_ret = (move || "@ + body + ")();\n"@
    }
}

/// The expression that hands the body's value back unchanged.
pub open spec fn resurface() -> Seq<char> {
    "__logcall_ret\n"@
}

/// One arm of the outcome match: the outcome is bound whole, logged where a
/// level is configured for it, and handed back unchanged.
pub open spec fn arm_text(
    tag: Seq<char>,
    lvl: Option<Level>,
    name: Seq<char>,
    params: Seq<Param>,
    skip: Option<Seq<String>>,
    cfg: RenderConfig,
) -> Seq<char> {
    "__logcall_ret @ "@ + tag + "(_) => {\n"@ + match lvl {
        Some(l) => egress_log(l, name, params, skip, cfg),
        None => Seq::empty(),
    } + resurface() + "}\n"@
}

/// What follows the body: the egress logging and the value handed back.
pub open spec fn result_text(d: DirectiveView, name: Seq<char>, params: Seq<Param>, cfg: RenderConfig) -> Seq<char> {
    match d.egress_mode {
        None => resurface(),
        Some(EgressMode::Simple(l)) => egress_log(l, name, params, d.skip_list, cfg) + resurface(),
        Some(EgressMode::DualOutcome { ok, err }) => "match __logcall_ret {\n"@
            + arm_text("Ok"@, ok, name, params, d.skip_list, cfg)
            + arm_text("Err"@, err, name, params, d.skip_list, cfg) + "}\n"@,
    }
}

/// The instrumented block.
pub open spec fn block_text(
    d: DirectiveView,
    name: Seq<char>,
    params: Seq<Param>,
    suspending: bool,
    body: Seq<char>,
    cfg: RenderConfig,
) -> Seq<char> {
    "{\n"@ + ingress_text(d, name, params, cfg) + egress_capture(d, params, cfg) + run_text(
        suspending,
        body,
    ) + result_text(d, name, params, cfg) + "}"@
}

/// The instrumented block, or why the parameters cannot be shown.
pub open spec fn synthesize(
    d: DirectiveView,
    name: Seq<char>,
    params: Seq<Param>,
    suspending: bool,
    body: Seq<char>,
    cfg: RenderConfig,
) -> Result<Seq<char>, LogcallError> {
    if params_ready(params, d.skip_list) {
        Ok(block_text(d, name, params, suspending, body, cfg))
    } else {
        Err(named_check(params)->Err_0)
    }
}

fn quote_name(name: &str) -> (r: String)
    ensures
        r@ == quoted(name@),
{
    let mut r = String::from_str("\"");
    r.append(name);
    r.append("\"");
    r
}

fn format_call_text(a: &PlainArgs) -> (r: String)
    ensures
        r@ == format_call(a.format@, texts(a.values@)),
{
    let mut args = String::new();
    let mut i: usize = 0;
    while i < a.values.len()
        invariant
            i <= a.values@.len(),
            args@ == value_args(texts(a.values@).subrange(0, i as int)),
        decreases a.values@.len() - i,
    {
        proof {
            let pre = texts(a.values@).subrange(0, i + 1);
            assert(pre.drop_last() == texts(a.values@).subrange(0, i as int));
        }
        args.append(", ");
        args.append(a.values[i].as_str());
        i = i + 1;
    }
    assert(texts(a.values@).subrange(0, a.values@.len() as int) == texts(a.values@));
    let mut r = String::from_str("format!(\"");
    r.append(a.format.as_str());
    r.append("\"");
    r.append(args.as_str());
    r.append(")");
    r
}

fn log_open_text(l: Level) -> (r: String)
    ensures
        r@ == log_open(l),
{
    let mut r = String::from_str("log::");
    r.append(l.name());
    r.append("!(");
    r
}

/// The capture of the parameters ahead of the body, bound to `var` in the
/// plain style and to snapshots named after `prefix` in the structured one.
fn gen_capture(
    params: &Vec<Param>,
    skip: &Option<Vec<String>>,
    cfg: RenderConfig,
    var: &str,
    prefix: &str,
) -> (r: String)
    requires
        params_ready(params@, skip_view(*skip)),
    ensures
        r@ == capture_text(params@, skip_view(*skip), cfg, var@, prefix@),
{
    proof {
        reveal_strlit("");
        assert(""@ =~= Seq::<char>::empty());
    }
    match cfg.style {
        LogStyle::Plain => {
            match gen_input_format(params, skip, cfg.display, "") {
                Ok(a) => {
                    let mut r = String::from_str("let ");
                    r.append(var);
                    r.append(" = ");
                    r.append(format_call_text(&a).as_str());
                    r.append(";\n");
                    r
                },
                // cannot happen: the parameters were checked
                Err(_) => String::new(),
            }
        },
        LogStyle::Structured => {
            match gen_snapshots(params, skip, cfg.display, prefix) {
                Ok(t) => t,
                Err(_) => String::new(),
            }
        },
    }
}

/// The ingress logging call: the function's name and the captured parameters.
pub fn gen_ingress_log(
    l: Level,
    name: &str,
    params: &Vec<Param>,
    skip: &Option<Vec<String>>,
    cfg: RenderConfig,
) -> (r: String)
    requires
        params_ready(params@, skip_view(*skip)),
    ensures
        r@ == ingress_log(l, name@, params@, skip_view(*skip), cfg),
{
    let mut r = log_open_text(l);
    match cfg.style {
        LogStyle::Plain => {
            r.append("\"{}({})\", ");
            r.append(quote_name(name).as_str());
            r.append(", __logcall_ingress);\n");
        },
        LogStyle::Structured => {
            match gen_pairs(params, skip, "__logcall_in_", None) {
                Ok(kv) => r.append(kv.as_str()),
                Err(_) => {},
            }
            r.append("\"{}()\", ");
            r.append(quote_name(name).as_str());
            r.append(");\n");
        },
    }
    r
}

/// The egress logging call: the function's name, the parameters captured
/// before the body ran, and the value in `__logcall_ret`.
pub fn gen_log(
    l: Level,
    name: &str,
    params: &Vec<Param>,
    skip: &Option<Vec<String>>,
    cfg: RenderConfig,
) -> (r: String)
    requires
        params_ready(params@, skip_view(*skip)),
    ensures
        r@ == egress_log(l, name@, params@, skip_view(*skip), cfg),
{
    let ph = match cfg.display {
        DisplayMode::Debug => "{:?}",
        DisplayMode::Display => "{}",
    };
    assert(ph@ == placeholder(cfg.display));
    match cfg.style {
        LogStyle::Plain => {
            let mut r = log_open_text(l);
            r.append("\"{}({}) => ");
            r.append(ph);
            r.append("\", ");
            r.append(quote_name(name).as_str());
            r.append(", __logcall_egress, &__logcall_ret);\n");
            r
        },
        LogStyle::Structured => {
            let mut r = String::from_str("let __logcall_ret_text = format!(\"");
            r.append(ph);
            r.append("\", &__logcall_ret);\n");
            r.append(log_open_text(l).as_str());
            match gen_pairs(params, skip, "__logcall_out_", Some("__logcall_ret_text")) {
                Ok(kv) => r.append(kv.as_str()),
                Err(_) => {},
            }
            r.append("\"{}()\", ");
            r.append(quote_name(name).as_str());
            r.append(");\n");
            r
        },
    }
}

fn gen_arm(
    tag: &str,
    lvl: Option<Level>,
    name: &str,
    params: &Vec<Param>,
    skip: &Option<Vec<String>>,
    cfg: RenderConfig,
) -> (r: String)
    requires
        params_ready(params@, skip_view(*skip)),
    ensures
        r@ == arm_text(tag@, lvl, name@, params@, skip_view(*skip), cfg),
{
    let mut r = String::from_str("__logcall_ret @ ");
    r.append(tag);
    r.append("(_) => {\n");
    if let Some(l) = lvl {
        r.append(gen_log(l, name, params, skip, cfg).as_str());
    }
    r.append("__logcall_ret\n");
    r.append("}\n");
    r
}

/// Wraps a body in the instrumentation a directive asks for: the ingress
/// capture and call, the egress capture, the body run to a value (awaited
/// where it suspends), then the egress call, or one arm per outcome, and the
/// value handed back unchanged.
pub fn gen_block(
    d: &Directive,
    name: &str,
    params: &Vec<Param>,
    suspending: bool,
    body: &str,
    cfg: RenderConfig,
) -> (r: Result<String, LogcallError>)
    ensures
        text_view(r) == synthesize(d@, name@, params@, suspending, body@, cfg),
{
    if d.skip_list.is_some() {
        crate::format::check_named(params)?;
    }
    assert(params_ready(params@, d@.skip_list));
    let skip = &d.skip_list;
    let mut ingress = String::new();
    if let Some(l) = d.ingress_level {
        ingress.append(gen_capture(params, skip, cfg, "__logcall_ingress", "__logcall_in_").as_str());
        ingress.append(gen_ingress_log(l, name, params, skip, cfg).as_str());
    }
    let mut capture = String::new();
    if d.egress_mode.is_some() {
        capture.append(gen_capture(params, skip, cfg, "__logcall_egress", "__logcall_out_").as_str());
    }
    let mut run = String::new();
    if suspending {
        run.append("let __logcall_ret = async move ");
        run.append(body);
        run.append(".await;\n");
    } else {
        run.append("let __logcall_ret = (move || ");
        run.append(body);
        run.append(")();\n");
    }
    let mut tail = String::new();
    match d.egress_mode {
        None => tail.append("__logcall_ret\n"),
        Some(EgressMode::Simple(l)) => {
            tail.append(gen_log(l, name, params, skip, cfg).as_str());
            tail.append("__logcall_ret\n");
        },
        Some(EgressMode::DualOutcome { ok, err }) => {
            tail.append("match __logcall_ret {\n");
            tail.append(gen_arm("Ok", ok, name, params, skip, cfg).as_str());
            tail.append(gen_arm("Err", err, name, params, skip, cfg).as_str());
            tail.append("}\n");
        },
    }
    proof {
        assert(ingress@ =~= ingress_text(d@, name@, params@, cfg));
        assert(capture@ =~= egress_capture(d@, params@, cfg));
        assert(run@ =~= run_text(suspending, body@));
        assert(tail@ =~= result_text(d@, name@, params@, cfg));
    }
    let mut r = String::from_str("{\n");
    r.append(ingress.as_str());
    r.append(capture.as_str());
    r.append(run.as_str());
    r.append(tail.as_str());
    r.append("}");
    Ok(r)
}

} // verus!
