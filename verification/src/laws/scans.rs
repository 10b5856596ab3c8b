//! What a look at the document takes up, and what it asks for.

use vstd::prelude::*;

use crate::doc::DocModel;
use crate::doc::OpModel;
use crate::doc::WebViewModel;
use crate::doc::WebViewStatus;
use crate::host::EventModel;
use crate::host::HostModel;
use crate::host::World;

verus! {

broadcast use vstd::seq_lib::group_filter_ensures;

/// Whether the web view at `index` is to be launched now: it is wanted, its id is not being
/// launched, and no earlier view with its id is wanted.
pub open spec fn view_due(
    webviews: Seq<WebViewModel>,
    launching: Seq<Seq<char>>,
    index: int,
) -> bool {
    &&& 0 <= index < webviews.len()
    &&& webviews[index].status == WebViewStatus::Pending
    &&& !launching.contains(webviews[index].id)
    &&& forall|i: int|
        0 <= i < index ==> !((#[trigger] webviews[i]).status == WebViewStatus::Pending
            && webviews[i].id == webviews[index].id)
}

/// Whether a web view stands at an index that is due.
pub open spec fn stands_due(
    webviews: Seq<WebViewModel>,
    launching: Seq<Seq<char>>,
    view: WebViewModel,
) -> bool {
    exists|i: int| #[trigger] view_due(webviews, launching, i) && webviews[i] == view
}

/// Whether two web views stand at indices that are due, the left before the right.
pub open spec fn stand_due_in_order(
    webviews: Seq<WebViewModel>,
    launching: Seq<Seq<char>>,
    left: WebViewModel,
    right: WebViewModel,
) -> bool {
    exists|i: int, j: int|
        i < j && #[trigger] view_due(webviews, launching, i) && #[trigger] view_due(
            webviews,
            launching,
            j,
        ) && webviews[i] == left && webviews[j] == right
}

/// Whether `views` are the web views at the indices that are due, all of them, in their order.
pub open spec fn views_that_are_due(
    webviews: Seq<WebViewModel>,
    launching: Seq<Seq<char>>,
    views: Seq<WebViewModel>,
) -> bool {
    &&& forall|i: int| #[trigger] view_due(webviews, launching, i) ==> views.contains(webviews[i])
    &&& forall|p: int| 0 <= p < views.len() ==> stands_due(webviews, launching, #[trigger] views[p])
    &&& forall|p: int, q: int|
        0 <= p < q < views.len() ==> stand_due_in_order(
            webviews,
            launching,
            #[trigger] views[p],
            #[trigger] views[q],
        )
}

/// Tells the operations whose id is not pending.
pub open spec fn ops_not_waiting(host: HostModel) -> spec_fn(OpModel) -> bool {
    |op: OpModel| super::operations::none_waits(host, op.op_id)
}

/// Tells the operations whose id is pending.
pub open spec fn ops_waiting(host: HostModel) -> spec_fn(OpModel) -> bool {
    |op: OpModel| !super::operations::none_waits(host, op.op_id)
}

/// Whether the operation at `index` is the last with its id.
pub open spec fn last_of_its_id(ops: Seq<OpModel>, index: int) -> bool {
    &&& 0 <= index < ops.len()
    &&& forall|i: int| index < i < ops.len() ==> (#[trigger] ops[i]).op_id != ops[index].op_id
}

/// Whether an operation stands as the last with its id.
pub open spec fn stands_last(ops: Seq<OpModel>, op: OpModel) -> bool {
    exists|k: int| #[trigger] last_of_its_id(ops, k) && ops[k] == op
}

/// Whether two operations each stand as the last with their id, the left before the right.
pub open spec fn stand_last_in_order(ops: Seq<OpModel>, left: OpModel, right: OpModel) -> bool {
    exists|k: int, l: int|
        k < l && #[trigger] last_of_its_id(ops, k) && #[trigger] last_of_its_id(ops, l) && ops[k]
            == left && ops[l] == right
}

/// Whether `taken` are the operations that are the last with their id, all of them, in their
/// order.
pub open spec fn last_of_each_id(ops: Seq<OpModel>, taken: Seq<OpModel>) -> bool {
    &&& forall|k: int| #[trigger] last_of_its_id(ops, k) ==> taken.contains(ops[k])
    &&& forall|p: int| 0 <= p < taken.len() ==> stands_last(ops, #[trigger] taken[p])
    &&& forall|p: int, q: int|
        0 <= p < q < taken.len() ==> stand_last_in_order(
            ops,
            #[trigger] taken[p],
            #[trigger] taken[q],
        )
}

/// The tests by which a scan sorts the queue.
proof fn lemma_waiting(host: HostModel)
    ensures
        crate::host::not_yet_pending(host.pending) == ops_not_waiting(host),
        crate::host::already_pending(host.pending) == ops_waiting(host),
{
    assert forall|op: OpModel| #[trigger]
        crate::host::not_yet_pending(host.pending)(op) == ops_not_waiting(host)(op) by {
        lemma_is_pending(host, op.op_id);
    }
    assert forall|op: OpModel| #[trigger]
        crate::host::already_pending(host.pending)(op) == ops_waiting(host)(op) by {
        lemma_is_pending(host, op.op_id);
    }
    assert(crate::host::not_yet_pending(host.pending) =~= ops_not_waiting(host));
    assert(crate::host::already_pending(host.pending) =~= ops_waiting(host));
}

/// An operation is pending if and only if some pending one has its id.
proof fn lemma_is_pending(host: HostModel, op_id: Seq<char>)
    ensures
        crate::host::is_pending(host.pending, op_id) <==> !super::operations::none_waits(
            host,
            op_id,
        ),
{
    let test = crate::host::op_called(op_id);
    if crate::host::is_pending(host.pending, op_id) {
        let i = choose|i: int| 0 <= i < host.pending.len() && test(#[trigger] host.pending[i]);
        assert(host.pending[i].op_id == op_id);
    }
    if !super::operations::none_waits(host, op_id) {
        let i = choose|i: int|
            0 <= i < host.pending.len() && (#[trigger] host.pending[i]).op_id == op_id;
        assert(test(host.pending[i]));
    }
}

/// The web views due are those at the indices that are due, in their order.
proof fn lemma_due(webviews: Seq<WebViewModel>, launching: Seq<Seq<char>>)
    ensures
        views_that_are_due(webviews, launching, crate::host::views_due(webviews, launching)),
    decreases webviews.len(),
{
    if webviews.len() > 0 {
        let before = webviews.drop_last();
        let last = webviews.len() - 1;
        let view = webviews[last];
        let earlier = crate::host::views_due(before, launching);
        let ids = crate::host::view_ids(earlier);
        let due = crate::host::views_due(webviews, launching);
        lemma_due(before, launching);
        super::lemma_views_due(before, launching);
        assert forall|i: int| 0 <= i < last implies (#[trigger] view_due(webviews, launching, i)
            <==> view_due(before, launching, i)) by {
            assert(before[i] == webviews[i]);
            assert(forall|j: int| 0 <= j < i ==> before[j] == webviews[j]);
            if view_due(before, launching, i) {
                assert forall|j: int| 0 <= j < i implies !((#[trigger] webviews[j]).status
                    == WebViewStatus::Pending && webviews[j].id == webviews[i].id) by {
                    assert(before[j] == webviews[j]);
                }
            }
        }
        assert(view == webviews.last());
        assert((launching + ids).contains(view.id) <==> launching.contains(view.id)
            || ids.contains(view.id)) by {
            if launching.contains(view.id) {
                let k = choose|k: int| 0 <= k < launching.len() && launching[k] == view.id;
                assert((launching + ids)[k] == view.id);
            }
            if ids.contains(view.id) {
                let k = choose|k: int| 0 <= k < ids.len() && ids[k] == view.id;
                assert((launching + ids)[launching.len() + k] == view.id);
            }
            if (launching + ids).contains(view.id) {
                let k = choose|k: int|
                    0 <= k < (launching + ids).len() && (launching + ids)[k] == view.id;
                if k < launching.len() {
                    assert(launching[k] == view.id);
                } else {
                    assert(ids[k - launching.len()] == view.id);
                }
            }
        }
        if ids.contains(view.id) {
            let k = choose|k: int| 0 <= k < ids.len() && ids[k] == view.id;
            assert(earlier[k].id == view.id);
            let i = choose|i: int|
                #[trigger] view_due(before, launching, i) && before[i] == earlier[k];
            assert(webviews[i] == before[i]);
            assert(!view_due(webviews, launching, last));
        }
        if view.status == WebViewStatus::Pending && !(launching + ids).contains(view.id) {
            assert(due == earlier.push(view));
            assert forall|i: int| 0 <= i < last implies !((#[trigger] webviews[i]).status
                == WebViewStatus::Pending && webviews[i].id == webviews[last].id) by {
                assert(before[i] == webviews[i]);
                if before[i].status == WebViewStatus::Pending {
                    assert((launching + ids).contains(before[i].id));
                }
            }
            assert(view_due(webviews, launching, last));
            assert(due[due.len() - 1] == view);
        }
        assert forall|i: int| #[trigger] view_due(webviews, launching, i) implies due.contains(
            webviews[i],
        ) by {
            if i < last {
                assert(view_due(before, launching, i));
                assert(before[i] == webviews[i]);
                let p = choose|p: int| 0 <= p < earlier.len() && earlier[p] == before[i];
                assert(due[p] == webviews[i]);
            }
        }
        assert forall|p: int| 0 <= p < due.len() implies stands_due(
            webviews,
            launching,
            #[trigger] due[p],
        ) by {
            if p < earlier.len() {
                assert(stands_due(before, launching, earlier[p]));
                let i = choose|i: int|
                    #[trigger] view_due(before, launching, i) && before[i] == earlier[p];
                assert(view_due(webviews, launching, i) && webviews[i] == due[p]);
            } else {
                assert(view_due(webviews, launching, last) && webviews[last] == due[p]);
            }
        }
        assert forall|p: int, q: int| 0 <= p < q < due.len() implies stand_due_in_order(
            webviews,
            launching,
            #[trigger] due[p],
            #[trigger] due[q],
        ) by {
            if q < earlier.len() {
                assert(stand_due_in_order(before, launching, earlier[p], earlier[q]));
                let (i, j) = choose|i: int, j: int|
                    i < j && #[trigger] view_due(before, launching, i) && #[trigger] view_due(
                        before,
                        launching,
                        j,
                    ) && before[i] == earlier[p] && before[j] == earlier[q];
                assert(view_due(webviews, launching, i) && view_due(webviews, launching, j));
            } else {
                assert(stands_due(before, launching, earlier[p]));
                let i = choose|i: int|
                    #[trigger] view_due(before, launching, i) && before[i] == earlier[p];
                assert(view_due(webviews, launching, i) && view_due(webviews, launching, last));
            }
        }
    }
}

/// Whether a scan asks for just these web views and dispatches just these operations, and has then
/// taken up the ids of the views as being launched.
pub open spec fn scan_takes_up(world: World, views: Seq<WebViewModel>, ops: Seq<OpModel>) -> bool {
    let events = world.scan_events();
    let launching = world.scanned().host.launching;
    &&& events.len() == views.len() + ops.len()
    &&& launching.len() == world.host.launching.len() + views.len()
    &&& forall|p: int|
        0 <= p < views.len() ==> events[p] == (EventModel::WebAppLaunch {
            id: (#[trigger] views[p]).id,
            html: views[p].html,
        })
    &&& forall|k: int|
        0 <= k < ops.len() ==> events[views.len() + k] == (EventModel::IntentOp {
            op: #[trigger] ops[k],
        })
    &&& forall|i: int|
        0 <= i < world.host.launching.len() ==> (#[trigger] launching[i])
            == world.host.launching[i]
    &&& forall|p: int|
        0 <= p < views.len() ==> launching[world.host.launching.len() + p] == (
        #[trigger] views[p]).id
}

/// A scan asks for the web views that are wanted and not being launched, each id once, for the
/// first wanted view of that id, in the order of the document; then it dispatches the queued
/// operations that are not pending, in the order of the queue. It gives nothing else to do. The
/// ids that it asked for are being launched from then on, behind those before.
pub proof fn law_scan_asks_for_what_is_wanted(world: World)
    ensures
        exists|views: Seq<WebViewModel>|
            views_that_are_due(world.doc.webviews, world.host.launching, views)
                && #[trigger] scan_takes_up(
                world,
                views,
                world.doc.intent_ops.filter(ops_not_waiting(world.host)),
            ),
{
    let due = crate::host::views_due(world.doc.webviews, world.host.launching);
    let ops = world.doc.intent_ops.filter(ops_not_waiting(world.host));
    lemma_waiting(world.host);
    lemma_due(world.doc.webviews, world.host.launching);
    assert(world.ops_due() == ops);
    assert(scan_takes_up(world, due, ops));
}

/// What a scan leaves: the operations that it dispatched have left the queue, and those whose id
/// was pending stay there in their order. Nothing else of the document changes, and no window
/// comes or goes.
pub proof fn law_scan_leaves_the_rest(world: World)
    ensures
        world.scanned().doc == (DocModel {
            intent_ops: world.doc.intent_ops.filter(ops_waiting(world.host)),
            ..world.doc
        }),
        world.scanned().host.windows == world.host.windows,
{
    lemma_waiting(world.host);
}

/// What becomes pending of operations that are taken up in order: the last of each id, in order.
proof fn lemma_taken_up(ops: Seq<OpModel>)
    ensures
        last_of_each_id(ops, crate::host::pending_with_all(Seq::empty(), ops)),
    decreases ops.len(),
{
    if ops.len() > 0 {
        let before = ops.drop_last();
        let end = ops.len() - 1;
        let op = ops[end];
        let earlier = crate::host::pending_with_all(Seq::empty(), before);
        let test = crate::host::op_not_called(op.op_id);
        let kept = earlier.filter(test);
        let taken = crate::host::pending_with_all(Seq::empty(), ops);
        lemma_taken_up(before);
        assert(op == ops.last());
        assert(taken == kept.push(op));
        assert(last_of_its_id(ops, end));
        assert forall|k: int| 0 <= k < end implies (#[trigger] last_of_its_id(ops, k) <==>
            last_of_its_id(before, k) && ops[k].op_id != op.op_id) by {
            assert(before[k] == ops[k]);
            if last_of_its_id(before, k) && ops[k].op_id != op.op_id {
                assert forall|i: int| k < i < ops.len() implies (#[trigger] ops[i]).op_id
                    != ops[k].op_id by {
                    if i < end {
                        assert(before[i] == ops[i]);
                    }
                }
            }
            if last_of_its_id(ops, k) {
                assert(ops[end].op_id != ops[k].op_id);
                assert forall|i: int| k < i < before.len() implies (#[trigger] before[i]).op_id
                    != before[k].op_id by {
                    assert(before[i] == ops[i]);
                }
            }
        }
        assert forall|k: int| #[trigger] last_of_its_id(ops, k) implies taken.contains(ops[k]) by {
            if k < end {
                assert(last_of_its_id(before, k));
                assert(before[k] == ops[k]);
                super::lemma_filter_keeps(earlier, test, ops[k]);
                let p = choose|p: int| 0 <= p < kept.len() && kept[p] == ops[k];
                assert(taken[p] == ops[k]);
            } else {
                assert(taken[kept.len() as int] == op);
            }
        }
        assert forall|p: int| 0 <= p < kept.len() implies (exists|a: int|
            0 <= a < earlier.len() && #[trigger] earlier[a] == kept[p]) && kept[p].op_id
            != op.op_id by {
            super::lemma_filter_item(earlier, test, p);
        }
        assert forall|p: int| 0 <= p < taken.len() implies stands_last(ops, #[trigger] taken[p]) by {
            if p < kept.len() {
                let a = choose|a: int| 0 <= a < earlier.len() && #[trigger] earlier[a] == kept[p];
                assert(stands_last(before, earlier[a]));
                let k = choose|k: int|
                    #[trigger] last_of_its_id(before, k) && before[k] == earlier[a];
                assert(before[k] == ops[k]);
                assert(last_of_its_id(ops, k) && ops[k] == taken[p]);
            } else {
                assert(last_of_its_id(ops, end) && ops[end] == taken[p]);
            }
        }
        assert forall|p: int, q: int| 0 <= p < q < taken.len() implies stand_last_in_order(
            ops,
            #[trigger] taken[p],
            #[trigger] taken[q],
        ) by {
            assert(taken[p] == kept[p]);
            if q < kept.len() {
                assert(taken[q] == kept[q]);
                let from = super::lemma_filter_pair(earlier, test, p, q);
                assert(stand_last_in_order(before, earlier[from.0], earlier[from.1]));
                let (k, l) = choose|k: int, l: int|
                    k < l && #[trigger] last_of_its_id(before, k) && #[trigger] last_of_its_id(
                        before,
                        l,
                    ) && before[k] == earlier[from.0] && before[l] == earlier[from.1];
                assert(before[k] == ops[k] && before[l] == ops[l]);
                assert(last_of_its_id(ops, k) && last_of_its_id(ops, l));
            } else {
                assert(stands_last(ops, taken[p]));
                let k = choose|k: int| #[trigger] last_of_its_id(ops, k) && ops[k] == taken[p];
                assert(k != end);
                assert(last_of_its_id(ops, k) && last_of_its_id(ops, end));
            }
        }
    }
}

/// Operations that are taken up and were not pending come behind the pending ones.
proof fn lemma_taken_up_behind(pending: Seq<OpModel>, ops: Seq<OpModel>)
    requires
        forall|i: int, k: int|
            0 <= i < pending.len() && 0 <= k < ops.len() ==> (#[trigger] pending[i]).op_id != (
            #[trigger] ops[k]).op_id,
    ensures
        crate::host::pending_with_all(pending, ops) == pending + crate::host::pending_with_all(
            Seq::empty(),
            ops,
        ),
    decreases ops.len(),
{
    if ops.len() == 0 {
        assert(pending + Seq::<OpModel>::empty() =~= pending);
    } else {
        let before = ops.drop_last();
        let op = ops.last();
        let test = crate::host::op_not_called(op.op_id);
        let earlier = crate::host::pending_with_all(Seq::empty(), before);
        assert forall|i: int, k: int|
            0 <= i < pending.len() && 0 <= k < before.len() implies (#[trigger] pending[i]).op_id
            != (#[trigger] before[k]).op_id by {
            assert(before[k] == ops[k]);
        }
        lemma_taken_up_behind(pending, before);
        lemma_filter_parts(pending, earlier, test);
        assert forall|i: int| 0 <= i < pending.len() implies test(#[trigger] pending[i]) by {
            assert(ops[ops.len() - 1] == op);
        }
        super::lemma_filter_all(pending, test);
        assert((pending + earlier.filter(test)).push(op) =~= pending + earlier.filter(test).push(
            op,
        ));
    }
}

/// Filtering two sequences, one behind the other.
proof fn lemma_filter_parts<A>(left: Seq<A>, right: Seq<A>, test: spec_fn(A) -> bool)
    ensures
        (left + right).filter(test) == left.filter(test) + right.filter(test),
    decreases right.len(),
{
    reveal_with_fuel(Seq::filter, 2);
    if right.len() == 0 {
        assert(left + right =~= left);
        assert(left.filter(test) + right.filter(test) =~= left.filter(test));
    } else {
        assert((left + right).drop_last() =~= left + right.drop_last());
        lemma_filter_parts(left, right.drop_last(), test);
        assert((left + right).filter(test) =~= left.filter(test) + right.filter(test));
    }
}

/// After a scan the operations that were pending are so still, first and in their order; behind
/// them come the operations that were dispatched, in the order of the queue, and of several with
/// one id the last.
pub proof fn law_scanned_operations_wait_behind_the_earlier(world: World)
    ensures
        world.host.pending.len() <= world.scanned().host.pending.len(),
        world.scanned().host.pending.take(world.host.pending.len() as int) == world.host.pending,
        last_of_each_id(
            world.doc.intent_ops.filter(ops_not_waiting(world.host)),
            world.scanned().host.pending.skip(world.host.pending.len() as int),
        ),
{
    let before = world.host.pending;
    let after = world.scanned().host.pending;
    let test = ops_not_waiting(world.host);
    let ops = world.doc.intent_ops.filter(test);
    let taken = crate::host::pending_with_all(Seq::empty(), ops);
    lemma_waiting(world.host);
    assert forall|i: int, k: int|
        0 <= i < before.len() && 0 <= k < ops.len() implies (#[trigger] before[i]).op_id != (
    #[trigger] ops[k]).op_id by {
        super::lemma_filter_item(world.doc.intent_ops, test, k);
        assert(super::operations::none_waits(world.host, ops[k].op_id));
    }
    lemma_taken_up_behind(before, ops);
    lemma_taken_up(ops);
    assert(after == before + taken);
    assert(after.take(before.len() as int) =~= before);
    assert(after.skip(before.len() as int) =~= taken);
}

} // verus!
