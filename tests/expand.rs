use logcall::detect::{
    get_async_trait_info, path_to_string, pin_path, AsyncBlockNode, BodyNode, CallArg, ExprNode, StmtNode,
    WrapperShape,
};
use logcall::directive::{ArgValue, Directive, DirectiveArg, EgressMode};
use logcall::error::LogcallError;
use logcall::format::{gen_input_format, gen_pairs, gen_snapshots, DisplayMode, LogStyle, Param, RenderConfig};
use logcall::level::Level;
use logcall::synth::gen_block;
use logcall::text::str_eq;
use logcall::{logcall, Expansion, FnNode};

fn lit(s: &str) -> DirectiveArg {
    DirectiveArg::Literal(s.to_string())
}

fn kv(name: &str, value: &str) -> DirectiveArg {
    DirectiveArg::NameValue(name.to_string(), ArgValue::Str(value.to_string()))
}

fn skip(names: &[&str]) -> DirectiveArg {
    DirectiveArg::NameValue(
        "skip".to_string(),
        ArgValue::Idents(names.iter().map(|n| n.to_string()).collect()),
    )
}

fn named(n: &str) -> Param {
    Param::Named(n.to_string())
}

fn plain() -> RenderConfig {
    RenderConfig { style: LogStyle::Plain, display: DisplayMode::Debug }
}

fn body(text: &str) -> BodyNode {
    BodyNode { stmts: vec![StmtNode::Other], text: text.to_string() }
}

fn func(header: &str, name: &str, is_async: bool, params: Vec<Param>, text: &str) -> FnNode {
    FnNode {
        header: header.to_string(),
        name: name.to_string(),
        is_async,
        params,
        body: body(text),
    }
}

fn rewritten(r: Result<Expansion, LogcallError>) -> String {
    match r {
        Ok(Expansion::Rewritten(t)) => t,
        Ok(Expansion::Inspect(_)) => panic!("asked to inspect"),
        Err(e) => panic!("failed: {:?}", e),
    }
}

fn parse_err(args: Vec<DirectiveArg>) -> LogcallError {
    match Directive::parse(&args) {
        Ok(d) => panic!("parsed: {:?}", d),
        Err(e) => e,
    }
}

fn pin_call(arg: CallArg) -> StmtNode {
    StmtNode::Expr(ExprNode::Call {
        callee: Some(vec!["Box".to_string(), "pin".to_string()]),
        first_arg: Some(arg),
    })
}

fn async_block(by_move: bool) -> CallArg {
    CallArg::AsyncBlock(AsyncBlockNode {
        captures_by_move: by_move,
        attrs: String::new(),
        block: "{ self.x }".to_string(),
    })
}

#[test]
fn plain_level_logs_return_value_only() {
    let item = func("fn f(a: i32) -> i32", "f", false, vec![named("a")], "{ a + 1 }");
    let t = rewritten(logcall(&vec![lit("info")], &item, plain()));
    assert_eq!(
        t,
        "fn f(a: i32) -> i32 {\n\
         let __logcall_egress = format!(\"\");\n\
         let __logcall_ret = (move || { a + 1 })();\n\
         log::info!(\"{}({}) => {:?}\", \"f\", __logcall_egress, &__logcall_ret);\n\
         __logcall_ret\n\
         }"
    );
    assert_eq!(t.matches("log::").count(), 1);
    assert!(!t.contains("__logcall_ingress"));
}

#[test]
fn ok_level_logs_success_arm_only() {
    let item = func(
        "fn g(a: u32) -> Result<u32, u32>",
        "g",
        false,
        vec![named("a")],
        "{ Ok(5) }",
    );
    let t = rewritten(logcall(&vec![kv("ok", "info")], &item, plain()));
    assert_eq!(
        t,
        "fn g(a: u32) -> Result<u32, u32> {\n\
         let __logcall_egress = format!(\"\");\n\
         let __logcall_ret = (move || { Ok(5) })();\n\
         match __logcall_ret {\n\
         __logcall_ret @ Ok(_) => {\n\
         log::info!(\"{}({}) => {:?}\", \"g\", __logcall_egress, &__logcall_ret);\n\
         __logcall_ret\n\
         }\n\
         __logcall_ret @ Err(_) => {\n\
         __logcall_ret\n\
         }\n\
         }\n\
         }"
    );
    assert_eq!(t.matches("log::").count(), 1);
}

#[test]
fn ingress_only_logs_before_body() {
    let item = func("fn g(a: u8, b: u8) -> u8", "g", false, vec![named("a"), named("b")], "{ a * b }");
    let t = rewritten(logcall(&vec![kv("ingress", "info")], &item, plain()));
    assert_eq!(
        t,
        "fn g(a: u8, b: u8) -> u8 {\n\
         let __logcall_ingress = format!(\"a: {:?}, b: {:?}\", a, b);\n\
         log::info!(\"{}({})\", \"g\", __logcall_ingress);\n\
         let __logcall_ret = (move || { a * b })();\n\
         __logcall_ret\n\
         }"
    );
    assert_eq!(t.matches("log::").count(), 1);
    assert!(t.find("log::").unwrap() < t.find("move ||").unwrap());
}

#[test]
fn skipped_parameter_shows_marker() {
    let item = func("fn g(a: u8, b: u8) -> u8", "g", false, vec![named("a"), named("b")], "{ a * b }");
    let t = rewritten(logcall(&vec![kv("ingress", "info"), skip(&["b"])], &item, plain()));
    assert!(t.contains("let __logcall_ingress = format!(\"a: {:?}, b: <skipped>\", a);\n"));
    assert!(!t.contains(", b)"));
}

#[test]
fn conflicting_and_empty_directives_fail() {
    assert_eq!(parse_err(vec![lit("info"), kv("egress", "warn")]), LogcallError::EgressTwice);
    assert_eq!(parse_err(vec![skip(&["a"])]), LogcallError::NoOp);
    assert_eq!(parse_err(vec![kv("bogus", "info")]), LogcallError::UnknownArgument { position: 0 });
    assert_eq!(parse_err(vec![]), LogcallError::NoOp);
    assert_eq!(parse_err(vec![lit("info"), kv("ok", "warn")]), LogcallError::PlainWithOutcome);
}

#[test]
fn malformed_entries_fail_at_their_position() {
    assert_eq!(
        parse_err(vec![kv("ingress", "info"), lit("warn")]),
        LogcallError::UnexpectedArgument { position: 1 }
    );
    assert_eq!(
        parse_err(vec![kv("ok", "info"), DirectiveArg::Other]),
        LogcallError::UnexpectedArgument { position: 1 }
    );
    let skip_strings = DirectiveArg::NameValue("skip".to_string(), ArgValue::Other);
    assert_eq!(
        parse_err(vec![kv("ingress", "info"), skip_strings]),
        LogcallError::InvalidValue { position: 1 }
    );
    let ingress_list = DirectiveArg::NameValue("ingress".to_string(), ArgValue::Idents(vec![]));
    assert_eq!(parse_err(vec![ingress_list]), LogcallError::InvalidValue { position: 0 });
    assert_eq!(
        parse_err(vec![kv("ingress", "info"), kv("err", "loud")]),
        LogcallError::UnknownLevel { position: 1 }
    );
}

#[test]
fn directive_forms_resolve() {
    let d = Directive::parse(&vec![lit("info")]).unwrap();
    assert_eq!(d.ingress_level, None);
    assert_eq!(d.egress_mode, Some(EgressMode::Simple(Level::Info)));
    assert!(d.skip_list.is_none());
    assert!(!d.debug_dump);

    let d = Directive::parse(&vec![kv("ingress", "debug"), kv("egress", "warn")]).unwrap();
    assert_eq!(d.ingress_level, Some(Level::Debug));
    assert_eq!(d.egress_mode, Some(EgressMode::Simple(Level::Warn)));
    assert_eq!(d.skip_list, Some(vec![]));

    let d = Directive::parse(&vec![kv("err", "error")]).unwrap();
    assert_eq!(d.egress_mode, Some(EgressMode::DualOutcome { ok: None, err: Some(Level::Error) }));

    let d = Directive::parse(&vec![kv("ingress", "trace"), kv("ok", "info"), kv("err", "error"), skip(&["a", "b"]), kv("debug", "true")])
        .unwrap();
    assert_eq!(d.ingress_level, Some(Level::Trace));
    assert_eq!(
        d.egress_mode,
        Some(EgressMode::DualOutcome { ok: Some(Level::Info), err: Some(Level::Error) })
    );
    assert_eq!(d.skip_list, Some(vec!["a".to_string(), "b".to_string()]));
    assert!(d.debug_dump);
}

#[test]
fn level_names_ignore_letter_case() {
    let d = Directive::parse(&vec![lit("WARN")]).unwrap();
    assert_eq!(d.egress_mode, Some(EgressMode::Simple(Level::Warn)));
    assert_eq!(Level::from_name("Info"), Some(Level::Info));
    assert_eq!(Level::from_name("verbose"), None);
    assert_eq!(Level::from_lowered("INFO"), None);
}

#[test]
fn detection_is_repeatable() {
    let b = BodyNode {
        stmts: vec![StmtNode::Other, pin_call(async_block(true))],
        text: "{ Box::pin(async move { self.x }) }".to_string(),
    };
    let first = get_async_trait_info(&b, false);
    let second = get_async_trait_info(&b, false);
    match (first, second) {
        (WrapperShape::InlineWrapper(x), WrapperShape::InlineWrapper(y)) => {
            assert_eq!(x.block, "{ self.x }");
            assert_eq!(x.block, y.block);
            assert_eq!(x.captures_by_move, y.captures_by_move);
        },
        other => panic!("unexpected {:?}", other),
    }
}

#[test]
fn detection_shapes() {
    let not_move = BodyNode { stmts: vec![pin_call(async_block(false))], text: String::new() };
    assert!(matches!(get_async_trait_info(&not_move, false), WrapperShape::NotAWrapper));

    let wrapped = BodyNode { stmts: vec![pin_call(async_block(true))], text: String::new() };
    assert!(matches!(get_async_trait_info(&wrapped, true), WrapperShape::NotAWrapper));

    let legacy = BodyNode {
        stmts: vec![
            StmtNode::FnItem { name: "inner".to_string(), is_async: true },
            pin_call(CallArg::Call(Some(vec!["inner".to_string()]))),
        ],
        text: String::new(),
    };
    assert!(matches!(get_async_trait_info(&legacy, false), WrapperShape::UnsupportedLegacyWrapper));

    let sync_inner = BodyNode {
        stmts: vec![
            StmtNode::FnItem { name: "inner".to_string(), is_async: false },
            pin_call(CallArg::Call(Some(vec!["inner".to_string()]))),
        ],
        text: String::new(),
    };
    assert!(matches!(get_async_trait_info(&sync_inner, false), WrapperShape::NotAWrapper));

    let other_callee = BodyNode {
        stmts: vec![StmtNode::Expr(ExprNode::Call {
            callee: Some(vec!["Arc".to_string(), "new".to_string()]),
            first_arg: Some(async_block(true)),
        })],
        text: String::new(),
    };
    assert!(matches!(get_async_trait_info(&other_callee, false), WrapperShape::NotAWrapper));

    let empty = BodyNode { stmts: vec![], text: "{}".to_string() };
    assert!(matches!(get_async_trait_info(&empty, false), WrapperShape::NotAWrapper));
}

fn segs(path: &[&str]) -> Vec<String> {
    path.iter().map(|s| s.to_string()).collect()
}

#[test]
fn only_box_pin_paths_count() {
    assert!(pin_path(&segs(&["Box", "pin"])));
    assert!(pin_path(&segs(&["std", "boxed", "Box", "pin"])));
    assert!(!pin_path(&segs(&["MyBox", "pin"])));
    assert!(!pin_path(&segs(&["pin"])));
    assert!(!pin_path(&segs(&["Box", "pinned"])));
    assert!(!pin_path(&segs(&["Arc", "pin"])));
    assert!(!pin_path(&vec![]));
}

#[test]
fn lookalike_constructor_is_not_a_wrapper() {
    for path in [&["MyBox", "pin"][..], &["pin"][..], &["Arc", "pin"][..]] {
        let b = BodyNode {
            stmts: vec![StmtNode::Expr(ExprNode::Call {
                callee: Some(segs(path)),
                first_arg: Some(async_block(true)),
            })],
            text: "{ MyBox::pin(async move { self.x }) }".to_string(),
        };
        assert!(matches!(get_async_trait_info(&b, false), WrapperShape::NotAWrapper));
    }
    let qualified = BodyNode {
        stmts: vec![StmtNode::Expr(ExprNode::Call {
            callee: Some(segs(&["std", "boxed", "Box", "pin"])),
            first_arg: Some(async_block(true)),
        })],
        text: String::new(),
    };
    assert!(matches!(get_async_trait_info(&qualified, false), WrapperShape::InlineWrapper(_)));
}

#[test]
fn legacy_wrapper_is_refused() {
    let item = FnNode {
        header: "fn work(&self) -> Pin<Box<dyn Future<Output = usize>>>".to_string(),
        name: "work".to_string(),
        is_async: false,
        params: vec![Param::Receiver],
        body: BodyNode {
            stmts: vec![
                StmtNode::FnItem { name: "__work".to_string(), is_async: true },
                pin_call(CallArg::Call(Some(vec!["__work".to_string()]))),
            ],
            text: String::new(),
        },
    };
    assert!(matches!(
        logcall(&vec![lit("debug")], &item, plain()),
        Err(LogcallError::UnsupportedLegacyWrapper)
    ));
}

#[test]
fn inline_wrapper_instruments_inner_block() {
    let item = FnNode {
        header: "fn work(&self) -> Pin<Box<dyn Future<Output = usize>>>".to_string(),
        name: "work".to_string(),
        is_async: false,
        params: vec![Param::Receiver],
        body: BodyNode {
            stmts: vec![pin_call(async_block(true))],
            text: "{ Box::pin(async move { self.x }) }".to_string(),
        },
    };
    let t = rewritten(logcall(&vec![lit("debug")], &item, plain()));
    assert_eq!(
        t,
        "fn work(&self) -> Pin<Box<dyn Future<Output = usize>>> {\n\
         Box::pin( async move {\n\
         let __logcall_egress = format!(\"\");\n\
         let __logcall_ret = async move { self.x }.await;\n\
         log::debug!(\"{}({}) => {:?}\", \"work\", __logcall_egress, &__logcall_ret);\n\
         __logcall_ret\n\
         })\n\
         }"
    );
}

#[test]
fn async_failure_is_handed_back_with_or_without_logging() {
    let quiet = func("async fn h(a: u32) -> Result<u32, u32>", "h", true, vec![named("a")], "{ Err(a) }");
    let loud = func("async fn h(a: u32) -> Result<u32, u32>", "h", true, vec![named("a")], "{ Err(a) }");
    let q = rewritten(logcall(&vec![kv("ok", "info")], &quiet, plain()));
    let l = rewritten(logcall(&vec![kv("ok", "info"), kv("err", "warn")], &loud, plain()));
    assert!(q.contains("let __logcall_ret = async move { Err(a) }.await;\n"));
    assert!(q.ends_with("__logcall_ret @ Err(_) => {\n__logcall_ret\n}\n}\n}"));
    let log = "log::warn!(\"{}({}) => {:?}\", \"h\", __logcall_egress, &__logcall_ret);\n";
    let tail = "__logcall_ret\n}\n}\n}";
    let cut = q.len() - tail.len();
    assert_eq!(l, format!("{}{}{}", &q[..cut], log, tail));
}

#[test]
fn debug_flag_asks_for_inspection() {
    let item = func("fn f()", "f", false, vec![], "{}");
    match logcall(&vec![lit("info"), kv("debug", "true")], &item, plain()) {
        Ok(Expansion::Inspect(t)) => assert!(t.starts_with("fn f() {\n")),
        other => panic!("unexpected {:?}", other),
    }
}

#[test]
fn header_is_kept_verbatim() {
    let header = "pub(crate) async fn k<'a, T: Clone>(x: &'a T, n: usize) -> Option<T> where T: Send";
    let item = func(header, "k", true, vec![named("x"), named("n")], "{ None }");
    let t = rewritten(logcall(&vec![kv("ingress", "trace"), kv("egress", "debug")], &item, plain()));
    assert!(t.starts_with(header));
    assert_eq!(&t[header.len()..header.len() + 3], " {\n");
}

#[test]
fn pattern_parameter_fails_when_shown() {
    let item = func("fn p((a, b): (u8, u8))", "p", false, vec![named("z"), Param::Pattern], "{}");
    assert!(matches!(
        logcall(&vec![kv("ingress", "info")], &item, plain()),
        Err(LogcallError::UnnamedParameter { position: 1 })
    ));
    let item = func("fn p((a, b): (u8, u8))", "p", false, vec![named("z"), Param::Pattern], "{}");
    assert!(logcall(&vec![lit("info")], &item, plain()).is_ok());
}

#[test]
fn structured_style_uses_snapshots_and_pairs() {
    let cfg = RenderConfig { style: LogStyle::Structured, display: DisplayMode::Display };
    let item = func("fn m(&self, a: u8, b: u8) -> u8", "m", false, vec![Param::Receiver, named("a"), named("b")], "{ a }");
    let t = rewritten(logcall(&vec![kv("ingress", "info"), kv("egress", "warn"), skip(&["self"])], &item, cfg));
    assert_eq!(
        t,
        "fn m(&self, a: u8, b: u8) -> u8 {\n\
         let __logcall_in_a = format!(\"{}\", a);\n\
         let __logcall_in_b = format!(\"{}\", b);\n\
         log::info!(self = \"<skipped>\", a = __logcall_in_a.as_str(), b = __logcall_in_b.as_str(); \"{}()\", \"m\");\n\
         let __logcall_out_a = format!(\"{}\", a);\n\
         let __logcall_out_b = format!(\"{}\", b);\n\
         let __logcall_ret = (move || { a })();\n\
         let __logcall_ret_text = format!(\"{}\", &__logcall_ret);\n\
         log::warn!(self = \"<skipped>\", a = __logcall_out_a.as_str(), b = __logcall_out_b.as_str(), ret = __logcall_ret_text.as_str(); \"{}()\", \"m\");\n\
         __logcall_ret\n\
         }"
    );
}

#[test]
fn format_builder_edges() {
    let params = vec![Param::Receiver, named("a"), named("b")];
    let f = gen_input_format(&params, &Some(vec!["a".to_string()]), DisplayMode::Display, "").unwrap();
    assert_eq!(f.format, "self: {}, a: <skipped>, b: {}");
    assert_eq!(f.values, vec!["self".to_string(), "b".to_string()]);

    let f = gen_input_format(&params, &None, DisplayMode::Debug, "").unwrap();
    assert_eq!(f.format, "");
    assert!(f.values.is_empty());

    let f = gen_input_format(&vec![], &Some(vec![]), DisplayMode::Debug, "s_").unwrap();
    assert_eq!(f.format, "");
    assert!(f.values.is_empty());

    let f = gen_input_format(&vec![named("x")], &Some(vec![]), DisplayMode::Debug, "s_").unwrap();
    assert_eq!(f.format, "x: {:?}");
    assert_eq!(f.values, vec!["s_x".to_string()]);

    assert_eq!(gen_pairs(&vec![], &Some(vec![]), "p_", None).unwrap(), "");
    assert_eq!(gen_pairs(&vec![], &None, "p_", Some("r")).unwrap(), "ret = r.as_str(); ");
    assert_eq!(
        gen_pairs(&vec![named("x"), named("y")], &Some(vec!["y".to_string()]), "p_", None).unwrap(),
        "x = p_x.as_str(), y = \"<skipped>\"; "
    );
    assert_eq!(
        gen_snapshots(&vec![named("x"), named("y")], &Some(vec!["x".to_string()]), DisplayMode::Debug, "p_").unwrap(),
        "let p_y = format!(\"{:?}\", y);\n"
    );
    assert_eq!(gen_snapshots(&vec![named("x")], &None, DisplayMode::Debug, "p_").unwrap(), "");
    assert!(matches!(
        gen_pairs(&vec![Param::Pattern], &Some(vec![]), "p_", None),
        Err(LogcallError::UnnamedParameter { position: 0 })
    ));
}

#[test]
fn block_for_async_fn_awaits_body() {
    let d = Directive::parse(&vec![kv("ingress", "info"), lit("x")]);
    assert!(d.is_err());
    let d = Directive {
        ingress_level: None,
        egress_mode: Some(EgressMode::Simple(Level::Error)),
        skip_list: Some(vec![]),
        debug_dump: false,
    };
    let b = gen_block(&d, "f", &vec![named("a")], true, "{ a }", plain()).unwrap();
    assert_eq!(
        b,
        "{\n\
         let __logcall_egress = format!(\"a: {:?}\", a);\n\
         let __logcall_ret = async move { a }.await;\n\
         log::error!(\"{}({}) => {:?}\", \"f\", __logcall_egress, &__logcall_ret);\n\
         __logcall_ret\n\
         }"
    );
}

#[test]
fn text_helpers() {
    assert!(str_eq("abc", "abc"));
    assert!(!str_eq("abc", "abd"));
    assert!(!str_eq("ab", "abc"));
    assert_eq!(path_to_string(&vec!["std".to_string(), "boxed".to_string(), "Box".to_string()]), "std::boxed::Box");
    assert_eq!(path_to_string(&vec![]), "");
}
