use vstd::prelude::*;

use crate::detect::{BodyNode, classify};
use crate::directive::{DirectiveArg, DirectiveView, EgressMode};
use crate::format::{Param, RenderConfig, is_skipped, name_of, value_list};
use crate::level::Level;
use crate::synth::{
    arm_text, block_text, egress_capture, egress_log, ingress_text, resurface, run_text,
};
use crate::{FnNode, expansion_of};

verus! {

/// A rewritten declaration starts with the original header, character for
/// character: name, visibility, generics, parameters, `async` and return
/// type are all kept, and only the body after it is new.
pub proof fn lemma_header_kept(args: Seq<DirectiveArg>, item: FnNode, cfg: RenderConfig)
    ensures
        expansion_of(args, item, cfg) is Ok ==> ({
            let text = expansion_of(args, item, cfg)->Ok_0.1;
            item.header@.len() <= text.len() && text.subrange(0, item.header@.len() as int)
                == item.header@
        }),
{
    if expansion_of(args, item, cfg) is Ok {
        let text = expansion_of(args, item, cfg)->Ok_0.1;
        assert(text.subrange(0, item.header@.len() as int) =~= item.header@);
    }
}

/// Detection depends on the body and on `async` alone: running it twice on
/// one body gives the same shape and the same redirected block.
pub proof fn lemma_detection_repeatable(first: BodyNode, second: BodyNode, is_async: bool)
    requires
        first == second,
    ensures
        classify(first, is_async) == classify(second, is_async),
{
}

/// The closing text of a two-outcome block: the failure arm hands back the
/// bound outcome, then the arm, the match and the block end.
pub open spec fn failure_tail() -> Seq<char> {
    resurface() + "}\n"@ + "}\n"@ + "}"@
}

/// In a suspending two-outcome block the failure arm hands the outcome back
/// unchanged whether or not failures are logged: the block that logs them is
/// the one that does not, with the logging call put in ahead of the
/// resurfacing `__logcall_ret`, and nothing else changed.
pub proof fn lemma_failure_resurfaced(
    d: DirectiveView,
    ok: Option<Level>,
    err: Level,
    name: Seq<char>,
    params: Seq<Param>,
    body: Seq<char>,
    cfg: RenderConfig,
)
    requires
        d.egress_mode == Some(EgressMode::DualOutcome { ok, err: Some(err) }),
    ensures
        ({
            let quiet = DirectiveView {
                egress_mode: Some(EgressMode::DualOutcome { ok, err: None }),
                ..d
            };
            let q = block_text(quiet, name, params, true, body, cfg);
            let k = q.len() - failure_tail().len();
            &&& 0 <= k
            &&& q.subrange(k, q.len() as int) == failure_tail()
            &&& block_text(d, name, params, true, body, cfg) == q.subrange(0, k) + egress_log(
                err,
                name,
                params,
                d.skip_list,
                cfg,
            ) + failure_tail()
        }),
{
    let quiet = DirectiveView { egress_mode: Some(EgressMode::DualOutcome { ok, err: None }), ..d };
    let ing = ingress_text(d, name, params, cfg);
    let cap = egress_capture(d, params, cfg);
    let run = run_text(true, body);
    let ok_arm = arm_text("Ok"@, ok, name, params, d.skip_list, cfg);
    let open = "__logcall_ret @ "@ + "Err"@ + "(_) => {\n"@;
    let log = egress_log(err, name, params, d.skip_list, cfg);
    assert(ingress_text(quiet, name, params, cfg) == ing);
    assert(egress_capture(quiet, params, cfg) == cap);
    let head = "{\n"@ + ing + cap + run + "match __logcall_ret {\n"@ + ok_arm + open;
    lemma_regroup("{\n"@, ing, cap, run, "match __logcall_ret {\n"@, ok_arm, open, Seq::empty());
    lemma_regroup("{\n"@, ing, cap, run, "match __logcall_ret {\n"@, ok_arm, open, log);
    let q = block_text(quiet, name, params, true, body, cfg);
    assert(head + Seq::<char>::empty() == head);
    assert(q == head + failure_tail());
    let k = q.len() - failure_tail().len();
    assert(q.subrange(0, k) =~= head);
    assert(q.subrange(k, q.len() as int) =~= failure_tail());
}

/// Regrouping of the pieces of a two-outcome block around the failure arm's
/// logging call.
proof fn lemma_regroup(
    s: Seq<char>,
    i: Seq<char>,
    e: Seq<char>,
    r: Seq<char>,
    m: Seq<char>,
    o: Seq<char>,
    h: Seq<char>,
    l: Seq<char>,
)
    ensures
        s + i + e + r + (m + o + (h + l + resurface() + "}\n"@) + "}\n"@) + "}"@ == (s + i + e
            + r + m + o + h) + l + failure_tail(),
{
    assert(s + i + e + r + (m + o + (h + l + resurface() + "}\n"@) + "}\n"@) + "}"@ =~= (s + i
        + e + r + m + o + h) + l + failure_tail());
}

/// A skipped parameter's value is never rendered: every expression that
/// fills a placeholder of the format names a parameter that is not on the
/// skip-list, while a skipped one stands in the format as `name: <skipped>`.
pub proof fn lemma_skipped_never_rendered(params: Seq<Param>, skip: Seq<String>, prefix: Seq<char>)
    ensures
        forall|v: Seq<char>| #[trigger]
            value_list(params, skip, prefix).contains(v) ==> exists|i: int|
                0 <= i < params.len() && !is_skipped(skip, name_of(#[trigger] params[i])) && v
                    == prefix + name_of(params[i]),
    decreases params.len(),
{
    if params.len() > 0 {
        let init = params.drop_last();
        lemma_skipped_never_rendered(init, skip, prefix);
        assert forall|v: Seq<char>| #[trigger]
            value_list(params, skip, prefix).contains(v) implies exists|i: int|
                0 <= i < params.len() && !is_skipped(skip, name_of(#[trigger] params[i])) && v
                    == prefix + name_of(params[i]) by {
            let rest = value_list(init, skip, prefix);
            if rest.contains(v) {
                let i = choose|i: int|
                    0 <= i < init.len() && !is_skipped(skip, name_of(#[trigger] init[i])) && v
                        == prefix + name_of(init[i]);
                assert(params[i] == init[i]);
            } else {
                let last = params.len() - 1;
                assert(params[last] == params.last());
                if !is_skipped(skip, name_of(params.last())) {
                    let k = choose|k: int| 0 <= k < rest.push(prefix + name_of(params.last())).len()
                        && rest.push(prefix + name_of(params.last()))[k] == v;
                    if k < rest.len() {
                        assert(rest.contains(v));
                    }
                }
            }
        }
    }
}

} // verus!
