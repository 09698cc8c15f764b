//! Call logging for function declarations: a directive grammar, a detector
//! for boxed-future wrapper bodies, a format builder and a body synthesizer,
//! all working on a plain model of the annotated function.

pub mod detect;
pub mod directive;
pub mod error;
pub mod format;
pub mod laws;
pub mod level;
pub mod synth;
pub mod text;

use vstd::prelude::*;

use crate::detect::{BodyNode, WrapperShape, classify, get_async_trait_info};
use crate::directive::{Directive, DirectiveArg, DirectiveView, directive_of};
use crate::error::LogcallError;
use crate::format::{Param, RenderConfig, text_view};
use crate::synth::{gen_block, synthesize};

verus! {

/// An annotated function: its declaration up to the body (attributes,
/// visibility and signature) as text, its name, whether it is `async`, its
/// parameters and its body.
#[derive(Debug)]
pub struct FnNode {
    pub header: String,
    pub name: String,
    pub is_async: bool,
    pub params: Vec<Param>,
    pub body: BodyNode,
}

/// The rewritten declaration, to be compiled, or, where the directive asks
/// for it, to be shown instead of compiled.
#[derive(Debug)]
pub enum Expansion {
    Rewritten(String),
    Inspect(String),
}

/// The body that replaces the function's own: the instrumented body, or, for
/// a boxed-future wrapper, the wrapper around its instrumented inner block.
pub open spec fn instrumented_body(d: DirectiveView, item: FnNode, cfg: RenderConfig) -> Result<Seq<char>, LogcallError> {
    match classify(item.body, item.is_async) {
        WrapperShape::NotAWrapper => synthesize(
            d,
            item.name@,
            item.params@,
            item.is_async,
            item.body.text@,
            cfg,
        ),
        WrapperShape::InlineWrapper(b) => match synthesize(d, item.name@, item.params@, true, b.block@, cfg) {
            Ok(t) => Ok("{\nBox::pin("@ + b.attrs@ + " async move "@ + t + ")\n}"@),
            Err(x) => Err(x),
        },
        WrapperShape::UnsupportedLegacyWrapper => Err(LogcallError::UnsupportedLegacyWrapper),
    }
}

/// Whether the declaration is to be shown instead of compiled, and its text.
pub open spec fn expansion_of(args: Seq<DirectiveArg>, item: FnNode, cfg: RenderConfig) -> Result<(bool, Seq<char>), LogcallError> {
    match directive_of(args) {
        Err(x) => Err(x),
        Ok(d) => match instrumented_body(d, item, cfg) {
            Err(x) => Err(x),
            Ok(b) => Ok((d.debug_dump, item.header@ + " "@ + b)),
        },
    }
}

pub open spec fn expansion_view(r: Result<Expansion, LogcallError>) -> Result<(bool, Seq<char>), LogcallError> {
    match r {
        Ok(Expansion::Rewritten(t)) => Ok((false, t@)),
        Ok(Expansion::Inspect(t)) => Ok((true, t@)),
        Err(x) => Err(x),
    }
}

fn gen_body(d: &Directive, item: &FnNode, cfg: RenderConfig) -> (r: Result<String, LogcallError>)
    ensures
        text_view(r) == instrumented_body(d@, *item, cfg),
{
    match get_async_trait_info(&item.body, item.is_async) {
        WrapperShape::NotAWrapper => gen_block(
            d,
            item.name.as_str(),
            &item.params,
            item.is_async,
            item.body.text.as_str(),
            cfg,
        ),
        WrapperShape::InlineWrapper(b) => {
            let t = gen_block(d, item.name.as_str(), &item.params, true, b.block.as_str(), cfg)?;
            let mut r = String::from_str("{\nBox::pin(");
            r.append(b.attrs.as_str());
            r.append(" async move ");
            r.append(t.as_str());
            r.append(")\n}");
            Ok(r)
        },
        WrapperShape::UnsupportedLegacyWrapper => Err(LogcallError::UnsupportedLegacyWrapper),
    }
}

/// Rewrites an annotated function so that it logs its calls as the directive
/// says: the declaration keeps its header, and only the body is replaced.
pub fn logcall(args: &Vec<DirectiveArg>, item: &FnNode, cfg: RenderConfig) -> (r: Result<Expansion, LogcallError>)
    ensures
        expansion_view(r) == expansion_of(args@, *item, cfg),
{
    let d = Directive::parse(args)?;
    let body = gen_body(&d, item, cfg)?;
    let mut text = item.header.clone();
    text.append(" ");
    text.append(body.as_str());
    if d.debug_dump {
        Ok(Expansion::Inspect(text))
    } else {
        Ok(Expansion::Rewritten(text))
    }
}

} // verus!
