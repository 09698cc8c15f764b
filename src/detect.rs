use vstd::prelude::*;

use crate::text::str_eq;

verus! {

/// An `async` block: whether it captures by `move`, its attributes and its
/// block, each rendered as text.
#[derive(Debug)]
pub struct AsyncBlockNode {
    pub captures_by_move: bool,
    pub attrs: String,
    pub block: String,
}

/// The first argument of a call.
#[derive(Debug)]
pub enum CallArg {
    /// An `async` block.
    AsyncBlock(AsyncBlockNode),
    /// A call; the segments of its callee where the callee is a path.
    Call(Option<Vec<String>>),
    /// Anything else.
    Other,
}

/// An expression that ends a body.
#[derive(Debug)]
pub enum ExprNode {
    /// A call: the segments of its callee where the callee is a path, and its
    /// first argument where it has one.
    Call { callee: Option<Vec<String>>, first_arg: Option<CallArg> },
    /// Anything else.
    Other,
}

/// A statement of a body.
#[derive(Debug)]
pub enum StmtNode {
    /// A nested function declaration: its name and whether it is `async`.
    FnItem { name: String, is_async: bool },
    /// An expression with no semicolon after it.
    Expr(ExprNode),
    /// Anything else.
    Other,
}

/// A function body: its statements, and the whole block rendered as text.
#[derive(Debug)]
pub struct BodyNode {
    pub stmts: Vec<StmtNode>,
    pub text: String,
}

/// What the detector found at the end of a body.
#[derive(Debug)]
pub enum WrapperShape {
    /// No wrapper: the body itself is instrumented.
    NotAWrapper,
    /// `Box::pin(async move { ... })`: the block inside is instrumented.
    InlineWrapper(AsyncBlockNode),
    /// `Box::pin(f(...))` with `async fn f` declared in the body.
    UnsupportedLegacyWrapper,
}

/// The segments of a path joined by `::`.
pub open spec fn join_path(segs: Seq<String>) -> Seq<char>
    decreases segs.len(),
{
    if segs.len() == 0 {
        Seq::empty()
    } else if segs.len() == 1 {
        segs[0]@
    } else {
        join_path(segs.drop_last()) + "::"@ + segs.last()@
    }
}

/// Whether a path names the call that boxes and pins a future: its last two
/// segments are `Box` and `pin` (`Box::pin`, `std::boxed::Box::pin`, but not
/// `MyBox::pin`).
pub open spec fn is_pin_path(segs: Seq<String>) -> bool {
    segs.len() >= 2 && segs[segs.len() - 2]@ == "Box"@ && segs[segs.len() - 1]@ == "pin"@
}

/// Whether statement `s` declares an `async fn` named `name`.
pub open spec fn declares_async_fn(s: StmtNode, name: Seq<char>) -> bool {
    match s {
        StmtNode::FnItem { name: n, is_async } => is_async && n@ == name,
        _ => false,
    }
}

/// How the argument of a final `Box::pin(...)` call shapes the body.
pub open spec fn classify_pinned(stmts: Seq<StmtNode>, arg: CallArg) -> WrapperShape {
    match arg {
        CallArg::AsyncBlock(b) => if b.captures_by_move {
            WrapperShape::InlineWrapper(b)
        } else {
            WrapperShape::NotAWrapper
        },
        CallArg::Call(Some(segs)) => if exists|k: int|
            0 <= k < stmts.len() - 1 && declares_async_fn(#[trigger] stmts[k], join_path(segs@)) {
            WrapperShape::UnsupportedLegacyWrapper
        } else {
            WrapperShape::NotAWrapper
        },
        _ => WrapperShape::NotAWrapper,
    }
}

/// The shape of a body: only a body that is not itself `async` and whose last
/// statement is an expression calling a path whose last segments are
/// `Box::pin` can be a wrapper.
pub open spec fn classify(body: BodyNode, is_async: bool) -> WrapperShape {
    if is_async || body.stmts.len() == 0 {
        WrapperShape::NotAWrapper
    } else {
        match body.stmts@.last() {
            StmtNode::Expr(ExprNode::Call { callee: Some(segs), first_arg: Some(arg) }) => {
                if is_pin_path(segs@) {
                    classify_pinned(body.stmts@, arg)
                } else {
                    WrapperShape::NotAWrapper
                }
            },
            _ => WrapperShape::NotAWrapper,
        }
    }
}

/// A path rendered as its segments joined by `::`.
pub fn path_to_string(segs: &Vec<String>) -> (r: String)
    ensures
        r@ == join_path(segs@),
{
    let mut r = String::new();
    let mut i: usize = 0;
    while i < segs.len()
        invariant
            i <= segs@.len(),
            r@ == join_path(segs@.subrange(0, i as int)),
        decreases segs@.len() - i,
    {
        proof {
            let pre = segs@.subrange(0, i + 1);
            assert(pre.drop_last() == segs@.subrange(0, i as int));
            assert(pre.last() == segs@[i as int]);
            if i == 0 {
                assert(segs@.subrange(0, 0).len() == 0);
            }
        }
        if i > 0 {
            r.append("::");
        }
        r.append(segs[i].as_str());
        i = i + 1;
    }
    assert(segs@.subrange(0, segs@.len() as int) == segs@);
    r
}

/// Whether a path's last two segments are `Box` and `pin`.
pub fn pin_path(segs: &Vec<String>) -> (r: bool)
    ensures
        r == is_pin_path(segs@),
{
    let n = segs.len();
    n >= 2 && str_eq(segs[n - 2].as_str(), "Box") && str_eq(segs[n - 1].as_str(), "pin")
}

fn copy_async_block(b: &AsyncBlockNode) -> (r: AsyncBlockNode)
    ensures
        r == *b,
{
    AsyncBlockNode {
        captures_by_move: b.captures_by_move,
        attrs: b.attrs.clone(),
        block: b.block.clone(),
    }
}

/// Finds the shape of a body that is not `async`, whose last statement is an
/// expression `Box::pin(arg)`.
fn classify_pinned_exec(stmts: &Vec<StmtNode>, arg: &CallArg) -> (r: WrapperShape)
    requires
        stmts@.len() > 0,
    ensures
        r == classify_pinned(stmts@, *arg),
{
    match arg {
        CallArg::AsyncBlock(b) => {
            if b.captures_by_move {
                WrapperShape::InlineWrapper(copy_async_block(b))
            } else {
                WrapperShape::NotAWrapper
            }
        },
        CallArg::Call(Some(segs)) => {
            let name = path_to_string(segs);
            let last = stmts.len() - 1;
            let mut k: usize = 0;
            while k < last
                invariant
                    last == stmts@.len() - 1,
                    k <= last,
                    name@ == join_path(segs@),
                    *arg == CallArg::Call(Some(*segs)),
                    forall|j: int| 0 <= j < k ==> !declares_async_fn(#[trigger] stmts@[j], name@),
                decreases last - k,
            {
                match &stmts[k] {
                    StmtNode::FnItem { name: n, is_async } => {
                        if *is_async && str_eq(n.as_str(), name.as_str()) {
                            assert(0 <= k < stmts@.len() - 1 && declares_async_fn(
                                stmts@[k as int],
                                join_path(segs@),
                            ));
                            return WrapperShape::UnsupportedLegacyWrapper;
                        }
                    },
                    _ => {},
                }
                k = k + 1;
            }
            WrapperShape::NotAWrapper
        },
        _ => WrapperShape::NotAWrapper,
    }
}

/// Looks for the wrapper that suspension-retrofitting transformations leave:
/// a body, not itself `async`, that ends by returning
/// `Box::pin(async move { ... })`, whose block is then the one to instrument.
pub fn get_async_trait_info(body: &BodyNode, is_async: bool) -> (r: WrapperShape)
    ensures
        r == classify(*body, is_async),
{
    if is_async || body.stmts.len() == 0 {
        return WrapperShape::NotAWrapper;
    }
    let last = body.stmts.len() - 1;
    match &body.stmts[last] {
        StmtNode::Expr(ExprNode::Call { callee: Some(segs), first_arg: Some(arg) }) => {
            if pin_path(segs) {
                classify_pinned_exec(&body.stmts, arg)
            } else {
                WrapperShape::NotAWrapper
            }
        },
        _ => WrapperShape::NotAWrapper,
    }
}

} // verus!
