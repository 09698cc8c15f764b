use vstd::prelude::*;

use crate::error::LogcallError;
use crate::text::str_eq;

verus! {

/// A formal parameter of the annotated function.
#[derive(Debug)]
pub enum Param {
    /// The receiver of a method, shown as `self`.
    Receiver,
    /// A parameter bound to a plain name.
    Named(String),
    /// A parameter bound by a pattern, which has no single name to show.
    Pattern,
}

/// How a value is rendered.
#[derive(Clone, Copy, Debug, PartialEq, Eq, Structural)]
pub enum DisplayMode {
    /// `{:?}`
    Debug,
    /// `{}`
    Display,
}

/// The shape of the generated logging calls.
#[derive(Clone, Copy, Debug, PartialEq, Eq, Structural)]
pub enum LogStyle {
    /// One formatted message.
    Plain,
    /// Key/value pairs ahead of the message.
    Structured,
}

/// Rendering choices for the generated code.
#[derive(Clone, Copy, Debug, PartialEq, Eq, Structural)]
pub struct RenderConfig {
    pub style: LogStyle,
    pub display: DisplayMode,
}

/// A format string and the expressions that fill its placeholders, in order.
#[derive(Debug)]
pub struct PlainArgs {
    pub format: String,
    pub values: Vec<String>,
}

/// The characters of each string of a sequence.
pub open spec fn texts(v: Seq<String>) -> Seq<Seq<char>> {
    v.map_values(|s: String| s@)
}

/// The name a parameter is shown and skipped by.
pub open spec fn name_of(p: Param) -> Seq<char> {
    match p {
        Param::Receiver => "self"@,
        Param::Named(n) => n@,
        Param::Pattern => Seq::empty(),
    }
}

/// Whether `name` is on the skip-list.
pub open spec fn is_skipped(skip: Seq<String>, name: Seq<char>) -> bool {
    exists|k: int| 0 <= k < skip.len() && (#[trigger] skip[k])@ == name
}

/// The index of the first parameter that has no plain name.
pub open spec fn first_pattern(params: Seq<Param>) -> Option<int>
    decreases params.len(),
{
    if params.len() == 0 {
        None
    } else {
        match first_pattern(params.drop_last()) {
            Some(i) => Some(i),
            None => if params.last() is Pattern {
                Some(params.len() - 1)
            } else {
                None
            },
        }
    }
}

/// Every parameter must have a plain name before it can be shown.
pub open spec fn named_check(params: Seq<Param>) -> Result<(), LogcallError> {
    match first_pattern(params) {
        Some(i) => Err(LogcallError::UnnamedParameter { position: i as usize }),
        None => Ok(()),
    }
}

pub open spec fn placeholder(mode: DisplayMode) -> Seq<char> {
    match mode {
        DisplayMode::Debug => "{:?}"@,
        DisplayMode::Display => "{}"@,
    }
}

/// `name: {:?}`, or `name: <skipped>`.
pub open spec fn format_entry(p: Param, skip: Seq<String>, mode: DisplayMode) -> Seq<char> {
    if is_skipped(skip, name_of(p)) {
        name_of(p) + ": <skipped>"@
    } else {
        name_of(p) + ": "@ + placeholder(mode)
    }
}

/// The entries of every parameter joined by `, `.
pub open spec fn format_text(params: Seq<Param>, skip: Seq<String>, mode: DisplayMode) -> Seq<char>
    decreases params.len(),
{
    if params.len() == 0 {
        Seq::empty()
    } else if params.len() == 1 {
        format_entry(params[0], skip, mode)
    } else {
        format_text(params.drop_last(), skip, mode) + ", "@ + format_entry(params.last(), skip, mode)
    }
}

/// The expression for each shown parameter, in order: its name after `prefix`.
pub open spec fn value_list(params: Seq<Param>, skip: Seq<String>, prefix: Seq<char>) -> Seq<Seq<char>>
    decreases params.len(),
{
    if params.len() == 0 {
        Seq::empty()
    } else {
        let rest = value_list(params.drop_last(), skip, prefix);
        if is_skipped(skip, name_of(params.last())) {
            rest
        } else {
            rest.push(prefix + name_of(params.last()))
        }
    }
}

/// The plain format string and its values; nothing where no parameter is shown.
pub open spec fn plain_args(
    params: Seq<Param>,
    skip: Option<Seq<String>>,
    mode: DisplayMode,
    prefix: Seq<char>,
) -> Result<(Seq<char>, Seq<Seq<char>>), LogcallError> {
    match skip {
        None => Ok((Seq::empty(), Seq::empty())),
        Some(s) => match named_check(params) {
            Err(x) => Err(x),
            Ok(_) => Ok((format_text(params, s, mode), value_list(params, s, prefix))),
        },
    }
}

pub open spec fn plain_view(r: Result<PlainArgs, LogcallError>) -> Result<(Seq<char>, Seq<Seq<char>>), LogcallError> {
    match r {
        Ok(a) => Ok((a.format@, texts(a.values@))),
        Err(x) => Err(x),
    }
}

/// Finds the first parameter without a plain name.
pub fn check_named(params: &Vec<Param>) -> (r: Result<(), LogcallError>)
    ensures
        r == named_check(params@),
{
    let mut i: usize = 0;
    while i < params.len()
        invariant
            i <= params@.len(),
            first_pattern(params@.subrange(0, i as int)) is None,
        decreases params@.len() - i,
    {
        let ghost pre = params@.subrange(0, i + 1);
        assert(pre.drop_last() == params@.subrange(0, i as int));
        if let Param::Pattern = &params[i] {
            proof {
                lemma_first_pattern_stays(params@, i + 1);
            }
            return Err(LogcallError::UnnamedParameter { position: i });
        }
        i = i + 1;
    }
    assert(params@.subrange(0, params@.len() as int) == params@);
    Ok(())
}

/// Once a prefix holds a parameter without a name, the first such one stays first.
proof fn lemma_first_pattern_stays(params: Seq<Param>, k: int)
    requires
        0 <= k <= params.len(),
        first_pattern(params.subrange(0, k)) is Some,
    ensures
        first_pattern(params) == first_pattern(params.subrange(0, k)),
    decreases params.len() - k,
{
    if k < params.len() {
        assert(params.subrange(0, k + 1).drop_last() == params.subrange(0, k));
        lemma_first_pattern_stays(params, k + 1);
    } else {
        assert(params.subrange(0, k) == params);
    }
}

/// The name a parameter is shown by; the parameter has one.
fn param_name(p: &Param) -> (r: String)
    requires
        !(*p is Pattern),
    ensures
        r@ == name_of(*p),
{
    match p {
        Param::Receiver => String::from_str("self"),
        Param::Named(n) => n.clone(),
        Param::Pattern => String::new(),
    }
}

/// Whether `name` is on the skip-list.
pub fn skipped(skip: &Vec<String>, name: &str) -> (r: bool)
    ensures
        r == is_skipped(skip@, name@),
{
    let mut k: usize = 0;
    while k < skip.len()
        invariant
            k <= skip@.len(),
            forall|j: int| 0 <= j < k ==> (#[trigger] skip@[j])@ != name@,
        decreases skip@.len() - k,
    {
        if str_eq(skip[k].as_str(), name) {
            return true;
        }
        k = k + 1;
    }
    false
}

fn placeholder_text(mode: DisplayMode) -> (r: &'static str)
    ensures
        r@ == placeholder(mode),
{
    match mode {
        DisplayMode::Debug => "{:?}",
        DisplayMode::Display => "{}",
    }
}

pub open spec fn skip_view(skip: Option<Vec<String>>) -> Option<Seq<String>> {
    match skip {
        Some(v) => Some(v@),
        None => None,
    }
}

/// Builds the format string `name1: {:?}, name2: <skipped>, ...` over the
/// parameters in order, and the list of expressions for its placeholders:
/// each shown parameter's name after `prefix`. Where the skip-list is `None`
/// no parameter is shown and both are empty.
pub fn gen_input_format(
    params: &Vec<Param>,
    skip: &Option<Vec<String>>,
    mode: DisplayMode,
    prefix: &str,
) -> (r: Result<PlainArgs, LogcallError>)
    ensures
        plain_view(r) == plain_args(params@, skip_view(*skip), mode, prefix@),
{
    let list = match skip {
        None => {
            let r = PlainArgs { format: String::new(), values: Vec::new() };
            assert(texts(r.values@) == Seq::<Seq<char>>::empty());
            return Ok(r);
        },
        Some(list) => list,
    };
    check_named(params)?;
    let mut format = String::new();
    let mut values: Vec<String> = Vec::new();
    let mut i: usize = 0;
    while i < params.len()
        invariant
            i <= params@.len(),
            first_pattern(params@) is None,
            format@ == format_text(params@.subrange(0, i as int), list@, mode),
            texts(values@) == value_list(params@.subrange(0, i as int), list@, prefix@),
        decreases params@.len() - i,
    {
        let ghost pre = params@.subrange(0, i + 1);
        proof {
            assert(pre.drop_last() == params@.subrange(0, i as int));
            assert(pre.last() == params@[i as int]);
            lemma_no_pattern_at(params@, i as int);
        }
        let name = param_name(&params[i]);
        if i > 0 {
            format.append(", ");
        }
        format.append(name.as_str());
        if skipped(list, name.as_str()) {
            format.append(": <skipped>");
        } else {
            format.append(": ");
            format.append(placeholder_text(mode));
            let mut v = String::from_str(prefix);
            v.append(name.as_str());
            let ghost old_values = values@;
            values.push(v);
            assert(texts(values@) == texts(old_values).push(v@));
        }
        assert(format@ == format_text(pre, list@, mode));
        i = i + 1;
    }
    assert(params@.subrange(0, params@.len() as int) == params@);
    Ok(PlainArgs { format, values })
}

/// Where no parameter lacks a name, none at `i` does.
proof fn lemma_no_pattern_at(params: Seq<Param>, i: int)
    requires
        0 <= i < params.len(),
        first_pattern(params) is None,
    ensures
        !(params[i] is Pattern),
    decreases params.len(),
{
    if i < params.len() - 1 {
        assert(params.drop_last()[i] == params[i]);
        lemma_no_pattern_at(params.drop_last(), i);
    }
}

/// `name = <prefix>name.as_str()`, or `name = "<skipped>"`.
pub open spec fn pair_entry(p: Param, skip: Seq<String>, prefix: Seq<char>) -> Seq<char> {
    if is_skipped(skip, name_of(p)) {
        name_of(p) + " = \"<skipped>\""@
    } else {
        name_of(p) + " = "@ + prefix + name_of(p) + ".as_str()"@
    }
}

/// The pairs of every parameter joined by `, `.
pub open spec fn pairs_text(params: Seq<Param>, skip: Seq<String>, prefix: Seq<char>) -> Seq<char>
    decreases params.len(),
{
    if params.len() == 0 {
        Seq::empty()
    } else if params.len() == 1 {
        pair_entry(params[0], skip, prefix)
    } else {
        pairs_text(params.drop_last(), skip, prefix) + ", "@ + pair_entry(params.last(), skip, prefix)
    }
}

/// `ret = <text>.as_str()` for a return value already rendered as text.
pub open spec fn ret_pair(ret: Option<Seq<char>>) -> Seq<char> {
    match ret {
        Some(t) => "ret = "@ + t + ".as_str()"@,
        None => Seq::empty(),
    }
}

/// Two lists of pairs as one, with a `, ` between where both have some.
pub open spec fn join_pairs(a: Seq<char>, b: Seq<char>) -> Seq<char> {
    if a.len() == 0 {
        b
    } else if b.len() == 0 {
        a
    } else {
        a + ", "@ + b
    }
}

/// The pairs closed by `; `, or nothing at all where there are none.
pub open spec fn close_pairs(a: Seq<char>) -> Seq<char> {
    if a.len() == 0 {
        a
    } else {
        a + "; "@
    }
}

/// The key/value part of a structured logging call.
pub open spec fn kv_args(
    params: Seq<Param>,
    skip: Option<Seq<String>>,
    prefix: Seq<char>,
    ret: Option<Seq<char>>,
) -> Result<Seq<char>, LogcallError> {
    match skip {
        None => Ok(close_pairs(ret_pair(ret))),
        Some(s) => match named_check(params) {
            Err(x) => Err(x),
            Ok(_) => Ok(close_pairs(join_pairs(pairs_text(params, s, prefix), ret_pair(ret)))),
        },
    }
}

pub open spec fn text_view(r: Result<String, LogcallError>) -> Result<Seq<char>, LogcallError> {
    match r {
        Ok(t) => Ok(t@),
        Err(x) => Err(x),
    }
}

pub open spec fn opt_text(r: Option<&str>) -> Option<Seq<char>> {
    match r {
        Some(t) => Some(t@),
        None => None,
    }
}

/// Builds the key/value pairs of a structured logging call:
/// `name = <prefix>name.as_str()` for each shown parameter and
/// `name = "<skipped>"` for each skipped one, in parameter order, then
/// `ret = <ret>.as_str()` where a rendered return value is given; the list
/// ends with `; `, and is empty where there is no pair.
pub fn gen_pairs(
    params: &Vec<Param>,
    skip: &Option<Vec<String>>,
    prefix: &str,
    ret: Option<&str>,
) -> (r: Result<String, LogcallError>)
    ensures
        text_view(r) == kv_args(params@, skip_view(*skip), prefix@, opt_text(ret)),
{
    let mut ret_text = String::new();
    if let Some(t) = ret {
        ret_text.append("ret = ");
        ret_text.append(t);
        ret_text.append(".as_str()");
    }
    let mut pairs = String::new();
    if let Some(list) = skip {
        check_named(params)?;
        let mut i: usize = 0;
        while i < params.len()
            invariant
                i <= params@.len(),
                first_pattern(params@) is None,
                pairs@ == pairs_text(params@.subrange(0, i as int), list@, prefix@),
            decreases params@.len() - i,
        {
            let ghost pre = params@.subrange(0, i + 1);
            proof {
                assert(pre.drop_last() == params@.subrange(0, i as int));
                assert(pre.last() == params@[i as int]);
                lemma_no_pattern_at(params@, i as int);
            }
            let name = param_name(&params[i]);
            if i > 0 {
                pairs.append(", ");
            }
            pairs.append(name.as_str());
            if skipped(list, name.as_str()) {
                pairs.append(" = \"<skipped>\"");
            } else {
                pairs.append(" = ");
                pairs.append(prefix);
                pairs.append(name.as_str());
                pairs.append(".as_str()");
            }
            assert(pairs@ == pairs_text(pre, list@, prefix@));
            i = i + 1;
        }
        assert(params@.subrange(0, params@.len() as int) == params@);
    }
    let mut all = String::new();
    let has_pairs = pairs.unicode_len() > 0;
    let has_ret = ret_text.unicode_len() > 0;
    all.append(pairs.as_str());
    if has_pairs && has_ret {
        all.append(", ");
    }
    all.append(ret_text.as_str());
    if has_pairs || has_ret {
        all.append("; ");
    }
    proof {
        assert(pairs@.len() == 0 ==> pairs@ == Seq::<char>::empty());
        assert(ret_text@.len() == 0 ==> ret_text@ == Seq::<char>::empty());
    }
    Ok(all)
}

/// `let <prefix>name = format!("{:?}", name);` and a line break.
pub open spec fn snapshot_line(p: Param, mode: DisplayMode, prefix: Seq<char>) -> Seq<char> {
    "let "@ + prefix + name_of(p) + " = format!(\""@ + placeholder(mode) + "\", "@ + name_of(p)
        + ");\n"@
}

/// A snapshot line for each shown parameter, in order.
pub open spec fn snapshot_text(
    params: Seq<Param>,
    skip: Seq<String>,
    mode: DisplayMode,
    prefix: Seq<char>,
) -> Seq<char>
    decreases params.len(),
{
    if params.len() == 0 {
        Seq::empty()
    } else {
        let rest = snapshot_text(params.drop_last(), skip, mode, prefix);
        if is_skipped(skip, name_of(params.last())) {
            rest
        } else {
            rest + snapshot_line(params.last(), mode, prefix)
        }
    }
}

pub open spec fn snapshots(
    params: Seq<Param>,
    skip: Option<Seq<String>>,
    mode: DisplayMode,
    prefix: Seq<char>,
) -> Result<Seq<char>, LogcallError> {
    match skip {
        None => Ok(Seq::empty()),
        Some(s) => match named_check(params) {
            Err(x) => Err(x),
            Ok(_) => Ok(snapshot_text(params, s, mode, prefix)),
        },
    }
}

/// Renders, before the body runs, each shown parameter into a binding of its
/// own named by `prefix` and the parameter's name, so that later logging
/// reads the snapshot and not what the body left behind.
pub fn gen_snapshots(
    params: &Vec<Param>,
    skip: &Option<Vec<String>>,
    mode: DisplayMode,
    prefix: &str,
) -> (r: Result<String, LogcallError>)
    ensures
        text_view(r) == snapshots(params@, skip_view(*skip), mode, prefix@),
{
    let list = match skip {
        None => return Ok(String::new()),
        Some(list) => list,
    };
    check_named(params)?;
    let mut out = String::new();
    let mut i: usize = 0;
    while i < params.len()
        invariant
            i <= params@.len(),
            first_pattern(params@) is None,
            out@ == snapshot_text(params@.subrange(0, i as int), list@, mode, prefix@),
        decreases params@.len() - i,
    {
        let ghost pre = params@.subrange(0, i + 1);
        proof {
            assert(pre.drop_last() == params@.subrange(0, i as int));
            assert(pre.last() == params@[i as int]);
            lemma_no_pattern_at(params@, i as int);
        }
        let name = param_name(&params[i]);
        if !skipped(list, name.as_str()) {
            out.append("let ");
            out.append(prefix);
            out.append(name.as_str());
            out.append(" = format!(\"");
            out.append(placeholder_text(mode));
            out.append("\", ");
            out.append(name.as_str());
            out.append(");\n");
        }
        assert(out@ == snapshot_text(pre, list@, mode, prefix@));
        i = i + 1;
    }
    assert(params@.subrange(0, params@.len() as int) == params@);
    Ok(out)
}

} // verus!
