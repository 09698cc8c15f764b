use vstd::prelude::*;

use crate::error::LogcallError;
use crate::level::{Level, level_named, lower_of};
use crate::text::str_eq;

verus! {

/// The value of a `name = value` entry of a directive.
#[derive(Debug)]
pub enum ArgValue {
    /// A quoted string, already unescaped.
    Str(String),
    /// A bracketed list of bare identifiers.
    Idents(Vec<String>),
    /// Any other value.
    Other,
}

/// One comma-separated entry of a directive.
#[derive(Debug)]
pub enum DirectiveArg {
    /// A bare string literal: the level of the plain egress form.
    Literal(String),
    /// `name = value`.
    NameValue(String, ArgValue),
    /// Any other entry.
    Other,
}

/// How the value a function returns is logged.
#[derive(Clone, Copy, Debug, PartialEq, Eq, Structural)]
pub enum EgressMode {
    /// The returned value, whatever it is, at one level.
    Simple(Level),
    /// Success and failure each at its own level, or not at all.
    DualOutcome { ok: Option<Level>, err: Option<Level> },
}

/// The resolved configuration of one annotated function.
#[derive(Debug)]
pub struct Directive {
    pub ingress_level: Option<Level>,
    pub egress_mode: Option<EgressMode>,
    /// `None`: no parameter is shown; otherwise every parameter is, and those
    /// named here as skipped.
    pub skip_list: Option<Vec<String>>,
    pub debug_dump: bool,
}

pub struct DirectiveView {
    pub ingress_level: Option<Level>,
    pub egress_mode: Option<EgressMode>,
    pub skip_list: Option<Seq<String>>,
    pub debug_dump: bool,
}

impl View for Directive {
    type V = DirectiveView;

    open spec fn view(&self) -> DirectiveView {
        DirectiveView {
            ingress_level: self.ingress_level,
            egress_mode: self.egress_mode,
            skip_list: match self.skip_list {
                Some(v) => Some(v@),
                None => None,
            },
            debug_dump: self.debug_dump,
        }
    }
}

/// A level name as written, with the entry it came from.
pub struct LevelArg {
    pub position: usize,
    pub name: String,
}

/// What the entries of a directive say, before the entries are weighed
/// against each other.
pub struct Entries {
    pub plain: Option<LevelArg>,
    pub ingress: Option<LevelArg>,
    pub egress: Option<LevelArg>,
    pub ok: Option<LevelArg>,
    pub err: Option<LevelArg>,
    pub skip: Option<Vec<String>>,
    pub debug: bool,
}

pub struct EntriesView {
    pub plain: Option<LevelArg>,
    pub ingress: Option<LevelArg>,
    pub egress: Option<LevelArg>,
    pub ok: Option<LevelArg>,
    pub err: Option<LevelArg>,
    pub skip: Option<Seq<String>>,
    pub debug: bool,
}

impl View for Entries {
    type V = EntriesView;

    open spec fn view(&self) -> EntriesView {
        EntriesView {
            plain: self.plain,
            ingress: self.ingress,
            egress: self.egress,
            ok: self.ok,
            err: self.err,
            skip: match self.skip {
                Some(v) => Some(v@),
                None => None,
            },
            debug: self.debug,
        }
    }
}

pub open spec fn no_entries() -> EntriesView {
    EntriesView {
        plain: None,
        ingress: None,
        egress: None,
        ok: None,
        err: None,
        skip: None,
        debug: false,
    }
}

/// A level-valued entry: a quoted string, or else an error at `i`.
pub open spec fn level_value(v: ArgValue, i: int) -> Result<LevelArg, LogcallError> {
    match v {
        ArgValue::Str(s) => Ok(LevelArg { position: i as usize, name: s }),
        _ => Err(LogcallError::InvalidValue { position: i as usize }),
    }
}

/// What entry `a`, standing at `i`, adds to what the earlier ones said.
pub open spec fn add_entry(e: EntriesView, a: DirectiveArg, i: int) -> Result<EntriesView, LogcallError> {
    match a {
        DirectiveArg::Literal(s) => if i == 0 {
            Ok(EntriesView { plain: Some(LevelArg { position: 0, name: s }), ..e })
        } else {
            Err(LogcallError::UnexpectedArgument { position: i as usize })
        },
        DirectiveArg::NameValue(n, v) => if n@ == "ingress"@ {
            match level_value(v, i) {
                Ok(l) => Ok(EntriesView { ingress: Some(l), ..e }),
                Err(x) => Err(x),
            }
        } else if n@ == "egress"@ {
            match level_value(v, i) {
                Ok(l) => Ok(EntriesView { egress: Some(l), ..e }),
                Err(x) => Err(x),
            }
        } else if n@ == "ok"@ {
            match level_value(v, i) {
                Ok(l) => Ok(EntriesView { ok: Some(l), ..e }),
                Err(x) => Err(x),
            }
        } else if n@ == "err"@ {
            match level_value(v, i) {
                Ok(l) => Ok(EntriesView { err: Some(l), ..e }),
                Err(x) => Err(x),
            }
        } else if n@ == "skip"@ {
            match v {
                ArgValue::Idents(ids) => Ok(EntriesView { skip: Some(ids@), ..e }),
                _ => Err(LogcallError::InvalidValue { position: i as usize }),
            }
        } else if n@ == "debug"@ {
            match v {
                ArgValue::Str(s) => Ok(EntriesView { debug: s@ == "true"@, ..e }),
                _ => Err(LogcallError::InvalidValue { position: i as usize }),
            }
        } else {
            Err(LogcallError::UnknownArgument { position: i as usize })
        },
        DirectiveArg::Other => Err(LogcallError::UnexpectedArgument { position: i as usize }),
    }
}

/// The entries read from left to right; the first faulty one ends the reading,
/// and of two entries with one name the later one counts.
pub open spec fn read_entries(args: Seq<DirectiveArg>) -> Result<EntriesView, LogcallError>
    decreases args.len(),
{
    if args.len() == 0 {
        Ok(no_entries())
    } else {
        match read_entries(args.drop_last()) {
            Ok(e) => add_entry(e, args.last(), args.len() - 1),
            Err(x) => Err(x),
        }
    }
}

/// The level that a level entry names, letter case aside.
pub open spec fn level_of(l: LevelArg) -> Result<Level, LogcallError> {
    match level_named(lower_of(l.name@)) {
        Some(v) => Ok(v),
        None => Err(LogcallError::UnknownLevel { position: l.position }),
    }
}

pub open spec fn opt_level_of(l: Option<LevelArg>) -> Result<Option<Level>, LogcallError> {
    match l {
        Some(a) => match level_of(a) {
            Ok(v) => Ok(Some(v)),
            Err(x) => Err(x),
        },
        None => Ok(None),
    }
}

/// The egress mode that the entries ask for: the two-outcome form where `ok`
/// or `err` is given, else the plain form where `egress` or the leading
/// literal is.
pub open spec fn egress_of(e: EntriesView) -> Result<Option<EgressMode>, LogcallError> {
    if e.ok is Some || e.err is Some {
        match opt_level_of(e.ok) {
            Err(x) => Err(x),
            Ok(ok) => match opt_level_of(e.err) {
                Err(x) => Err(x),
                Ok(err) => Ok(Some(EgressMode::DualOutcome { ok, err })),
            },
        }
    } else {
        let simple = if e.egress is Some { e.egress } else { e.plain };
        match opt_level_of(simple) {
            Err(x) => Err(x),
            Ok(Some(l)) => Ok(Some(EgressMode::Simple(l))),
            Ok(None) => Ok(None),
        }
    }
}

/// The directive that consistent entries make.
pub open spec fn resolve(e: EntriesView) -> Result<DirectiveView, LogcallError> {
    if e.plain is Some && e.egress is Some {
        Err(LogcallError::EgressTwice)
    } else if e.plain is Some && (e.ok is Some || e.err is Some) {
        Err(LogcallError::PlainWithOutcome)
    } else if e.ingress is None && e.egress is None && e.plain is None && e.ok is None
        && e.err is None {
        Err(LogcallError::NoOp)
    } else {
        match opt_level_of(e.ingress) {
            Err(x) => Err(x),
            Ok(ingress) => match egress_of(e) {
                Err(x) => Err(x),
                Ok(egress) => Ok(
                    DirectiveView {
                        ingress_level: ingress,
                        egress_mode: egress,
                        skip_list: if e.skip is None && ingress is Some {
                            Some(Seq::empty())
                        } else {
                            e.skip
                        },
                        debug_dump: e.debug,
                    },
                ),
            },
        }
    }
}

/// The directive that a list of entries makes, or the first fault in it.
pub open spec fn directive_of(args: Seq<DirectiveArg>) -> Result<DirectiveView, LogcallError> {
    match read_entries(args) {
        Ok(e) => resolve(e),
        Err(x) => Err(x),
    }
}

pub open spec fn result_view(r: Result<Directive, LogcallError>) -> Result<DirectiveView, LogcallError> {
    match r {
        Ok(d) => Ok(d@),
        Err(x) => Err(x),
    }
}

/// A copy of a list of names.
pub fn copy_names(v: &Vec<String>) -> (r: Vec<String>)
    ensures
        r@ == v@,
{
    let mut r: Vec<String> = Vec::new();
    let mut i: usize = 0;
    while i < v.len()
        invariant
            i <= v@.len(),
            r@ == v@.subrange(0, i as int),
        decreases v@.len() - i,
    {
        r.push(v[i].clone());
        i = i + 1;
    }
    assert(r@ == v@);
    r
}

fn level_entry(v: &ArgValue, i: usize) -> (r: Result<LevelArg, LogcallError>)
    ensures
        r == level_value(*v, i as int),
{
    match v {
        ArgValue::Str(s) => Ok(LevelArg { position: i, name: s.clone() }),
        _ => Err(LogcallError::InvalidValue { position: i }),
    }
}

pub open spec fn entries_view(r: Result<Entries, LogcallError>) -> Result<EntriesView, LogcallError> {
    match r {
        Ok(e) => Ok(e@),
        Err(x) => Err(x),
    }
}

/// Adds the entry `a`, standing at `i`, to what the earlier ones said.
fn take_entry(e: Entries, a: &DirectiveArg, i: usize) -> (r: Result<Entries, LogcallError>)
    ensures
        entries_view(r) == add_entry(e@, *a, i as int),
{
    match a {
        DirectiveArg::Literal(s) => {
            if i == 0 {
                Ok(Entries { plain: Some(LevelArg { position: 0, name: s.clone() }), ..e })
            } else {
                Err(LogcallError::UnexpectedArgument { position: i })
            }
        },
        DirectiveArg::NameValue(n, v) => {
            if str_eq(n.as_str(), "ingress") {
                match level_entry(v, i) {
                    Ok(l) => Ok(Entries { ingress: Some(l), ..e }),
                    Err(x) => Err(x),
                }
            } else if str_eq(n.as_str(), "egress") {
                match level_entry(v, i) {
                    Ok(l) => Ok(Entries { egress: Some(l), ..e }),
                    Err(x) => Err(x),
                }
            } else if str_eq(n.as_str(), "ok") {
                match level_entry(v, i) {
                    Ok(l) => Ok(Entries { ok: Some(l), ..e }),
                    Err(x) => Err(x),
                }
            } else if str_eq(n.as_str(), "err") {
                match level_entry(v, i) {
                    Ok(l) => Ok(Entries { err: Some(l), ..e }),
                    Err(x) => Err(x),
                }
            } else if str_eq(n.as_str(), "skip") {
                match v {
                    ArgValue::Idents(ids) => Ok(Entries { skip: Some(copy_names(ids)), ..e }),
                    _ => Err(LogcallError::InvalidValue { position: i }),
                }
            } else if str_eq(n.as_str(), "debug") {
                match v {
                    ArgValue::Str(s) => Ok(Entries { debug: str_eq(s.as_str(), "true"), ..e }),
                    _ => Err(LogcallError::InvalidValue { position: i }),
                }
            } else {
                Err(LogcallError::UnknownArgument { position: i })
            }
        },
        DirectiveArg::Other => Err(LogcallError::UnexpectedArgument { position: i }),
    }
}

fn resolve_level(l: &LevelArg) -> (r: Result<Level, LogcallError>)
    ensures
        r == level_of(*l),
{
    match Level::from_name(l.name.as_str()) {
        Some(v) => Ok(v),
        None => Err(LogcallError::UnknownLevel { position: l.position }),
    }
}

fn resolve_opt_level(l: &Option<LevelArg>) -> (r: Result<Option<Level>, LogcallError>)
    ensures
        r == opt_level_of(*l),
{
    match l {
        Some(a) => match resolve_level(a) {
            Ok(v) => Ok(Some(v)),
            Err(x) => Err(x),
        },
        None => Ok(None),
    }
}

fn resolve_egress(e: &Entries) -> (r: Result<Option<EgressMode>, LogcallError>)
    ensures
        r == egress_of(e@),
{
    if e.ok.is_some() || e.err.is_some() {
        let ok = resolve_opt_level(&e.ok)?;
        let err = resolve_opt_level(&e.err)?;
        Ok(Some(EgressMode::DualOutcome { ok, err }))
    } else {
        let simple = if e.egress.is_some() {
            &e.egress
        } else {
            &e.plain
        };
        match resolve_opt_level(simple)? {
            Some(l) => Ok(Some(EgressMode::Simple(l))),
            None => Ok(None),
        }
    }
}

fn resolve_entries(e: Entries) -> (r: Result<Directive, LogcallError>)
    ensures
        result_view(r) == resolve(e@),
{
    if e.plain.is_some() && e.egress.is_some() {
        return Err(LogcallError::EgressTwice);
    }
    if e.plain.is_some() && (e.ok.is_some() || e.err.is_some()) {
        return Err(LogcallError::PlainWithOutcome);
    }
    if e.ingress.is_none() && e.egress.is_none() && e.plain.is_none() && e.ok.is_none()
        && e.err.is_none() {
        return Err(LogcallError::NoOp);
    }
    let ingress_level = resolve_opt_level(&e.ingress)?;
    let egress_mode = resolve_egress(&e)?;
    let skip_list = match e.skip {
        Some(v) => Some(v),
        None => if ingress_level.is_some() {
            Some(Vec::new())
        } else {
            None
        },
    };
    let d = Directive { ingress_level, egress_mode, skip_list, debug_dump: e.debug };
    assert(d@.skip_list == resolve(e@)->Ok_0.skip_list);
    Ok(d)
}

/// Once a prefix of the entries holds a fault, the whole list reports it.
proof fn lemma_fault_stays(args: Seq<DirectiveArg>, k: int)
    requires
        0 <= k <= args.len(),
        read_entries(args.subrange(0, k)) is Err,
    ensures
        read_entries(args) == read_entries(args.subrange(0, k)),
    decreases args.len() - k,
{
    if k < args.len() {
        let next = args.subrange(0, k + 1);
        assert(next.drop_last() == args.subrange(0, k));
        lemma_fault_stays(args, k + 1);
    } else {
        assert(args.subrange(0, k) == args);
    }
}

impl Directive {
    /// Reads a directive from its entries: a leading string literal is the
    /// plain egress level; the other entries are `name = value` with the names
    /// `ingress`, `egress`, `ok`, `err`, `skip` and `debug`.
    pub fn parse(args: &Vec<DirectiveArg>) -> (r: Result<Directive, LogcallError>)
        ensures
            result_view(r) == directive_of(args@),
    {
        let mut e = Entries {
            plain: None,
            ingress: None,
            egress: None,
            ok: None,
            err: None,
            skip: None,
            debug: false,
        };
        let mut i: usize = 0;
        while i < args.len()
            invariant
                i <= args@.len(),
                read_entries(args@.subrange(0, i as int)) == Ok::<EntriesView, LogcallError>(e@),
            decreases args@.len() - i,
        {
            proof {
                let pre = args@.subrange(0, i + 1);
                assert(pre.drop_last() == args@.subrange(0, i as int));
                assert(pre.last() == args@[i as int]);
            }
            match take_entry(e, &args[i], i) {
                Ok(next) => e = next,
                Err(x) => {
                    proof {
                        lemma_fault_stays(args@, i + 1);
                    }
                    return Err(x);
                },
            }
            i = i + 1;
        }
        assert(args@.subrange(0, args@.len() as int) == args@);
        resolve_entries(e)
    }
}

} // verus!
