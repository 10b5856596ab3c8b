//! What holds of the library as a whole, whatever the order of events.
//!
//! The laws here speak of every step that a window host and its document take. The modules below
//! say of each operation what it does to every input: what it returns, what it changes and what it
//! leaves alone.

pub mod agent;
pub mod calls;
pub mod content;
pub mod models;
pub mod operations;
pub mod registry;
pub mod scans;
pub mod system;
pub mod texts;
pub mod windows;

use vstd::prelude::*;

use crate::bridge::RequestModel;
use crate::doc::DocModel;
use crate::doc::IntentModel;
use crate::doc::OpModel;
use crate::doc::ResponseModel;
use crate::doc::WebViewModel;
use crate::doc::WebViewStatus;
use crate::host::EventModel;
use crate::host::HostModel;
use crate::host::WindowModel;
use crate::host::World;
use crate::json::JsonView;
use crate::message::MessageModel;

verus! {

broadcast use vstd::seq_lib::group_filter_ensures;

/// One thing that happens to a window host and its document.
pub enum Step {
    /// The agent asked for something.
    Asked { request: RequestModel },
    /// The host looked at the document.
    Scanned,
    /// A web view came on screen.
    Launched { key: u64, id: Seq<char> },
    /// An operation was dispatched, with this content to set.
    Dispatched { op: OpModel, content: Option<Seq<char>> },
    /// An app sent a message.
    Told { message: MessageModel },
    /// The content of a transfer arrived.
    Delivered {
        op_id: Seq<char>,
        intent_type: Seq<char>,
        intent_id: Seq<char>,
        data: Seq<char>,
    },
    /// A window was closed.
    Closed { key: u64 },
}

impl World {
    /// The world after one step.
    pub open spec fn after(self, step: Step) -> World {
        match step {
            Step::Asked { request } => World { doc: self.doc.requested(request), ..self },
            Step::Scanned => self.scanned(),
            Step::Launched { key, id } => self.launched(key, id),
            Step::Dispatched { op, content } => self.dispatched(op, content).0,
            Step::Told { message } => self.told(message).0,
            Step::Delivered { op_id, intent_type, intent_id, data } => self.delivered(
                op_id,
                intent_type,
                intent_id,
                data,
            ).0,
            Step::Closed { key } => self.closed(key),
        }
    }
}

/// Whether two operations have different ids.
spec fn other_op() -> spec_fn(OpModel, OpModel) -> bool {
    |left: OpModel, right: OpModel| left.op_id != right.op_id
}

/// Whether two windows have different keys.
spec fn other_window() -> spec_fn(WindowModel, WindowModel) -> bool {
    |left: WindowModel, right: WindowModel| left.key != right.key
}

/// Whether no two pending operations share an id.
pub open spec fn distinct_ops(pending: Seq<OpModel>) -> bool {
    forall|i: int, j: int|
        0 <= i < j < pending.len() ==> (#[trigger] pending[i]).op_id != (#[trigger] pending[j]).op_id
}

/// Whether no two windows share a key.
pub open spec fn distinct_windows(windows: Seq<WindowModel>) -> bool {
    forall|i: int, j: int|
        0 <= i < j < windows.len() ==> (#[trigger] windows[i]).key != (#[trigger] windows[j]).key
}

impl HostModel {
    /// Whether the host's lists hold nothing twice.
    pub open spec fn well_formed(self) -> bool {
        &&& self.launching.no_duplicates()
        &&& distinct_ops(self.pending)
        &&& distinct_windows(self.windows)
    }
}

/// Tells the responses to an operation.
pub open spec fn response_to(op_id: Seq<char>) -> spec_fn(ResponseModel) -> bool {
    |response: ResponseModel| response.op_id == op_id
}

/// How many responses answer the operation called `op_id`.
pub open spec fn answers_to(responses: Seq<ResponseModel>, op_id: Seq<char>) -> nat {
    responses.filter(response_to(op_id)).len()
}

/// Whether content stands only in the responses to "get" operations that succeeded.
pub open spec fn content_only_for_get(responses: Seq<ResponseModel>) -> bool {
    forall|i: int|
        0 <= i < responses.len() && (#[trigger] responses[i]).data is Some ==> responses[i].kind
            == "get"@ && !responses[i].is_error
}

/// Whether every intent of the registry is of a supported type and has an acceptable id.
pub open spec fn acceptable_intents(intents: Seq<IntentModel>) -> bool {
    forall|i: int|
        0 <= i < intents.len() ==> crate::intent::supported_type(
            (#[trigger] intents[i]).intent_type,
        ) && crate::intent::acceptable_id(intents[i].intent_id)
}

/// Each item of a filtered sequence is an item of the sequence that passes.
proof fn lemma_filter_item<A>(items: Seq<A>, test: spec_fn(A) -> bool, i: int)
    requires
        0 <= i < items.filter(test).len(),
    ensures
        test(items.filter(test)[i]),
        items.contains(items.filter(test)[i]),
    decreases items.len(),
{
    reveal_with_fuel(Seq::filter, 2);
    if items.len() > 0 {
        let rest = items.drop_last().filter(test);
        if i < rest.len() {
            lemma_filter_item(items.drop_last(), test, i);
            let j = choose|j: int| 0 <= j < items.drop_last().len() && items.drop_last()[j] == rest[i];
            assert(items[j] == rest[i]);
        } else {
            assert(items[items.len() - 1] == items.last());
        }
    }
}

/// Two items of a filtered sequence are two items of the sequence, in the same order.
proof fn lemma_filter_pair<A>(items: Seq<A>, test: spec_fn(A) -> bool, i: int, j: int) -> (from: (
    int,
    int,
))
    requires
        0 <= i < j < items.filter(test).len(),
    ensures
        0 <= from.0 < from.1 < items.len(),
        items[from.0] == items.filter(test)[i],
        items[from.1] == items.filter(test)[j],
    decreases items.len(),
{
    reveal_with_fuel(Seq::filter, 2);
    let rest = items.drop_last().filter(test);
    if j < rest.len() {
        lemma_filter_pair(items.drop_last(), test, i, j)
    } else {
        lemma_filter_item(items.drop_last(), test, i);
        let k = choose|k: int| 0 <= k < items.drop_last().len() && items.drop_last()[k] == rest[i];
        (k, items.len() - 1)
    }
}

/// Filtering leaves a sequence without duplicates without duplicates.
proof fn lemma_filter_no_duplicates<A>(items: Seq<A>, test: spec_fn(A) -> bool)
    requires
        items.no_duplicates(),
    ensures
        items.filter(test).no_duplicates(),
{
    lemma_filter_pairwise(items, test, |left: A, right: A| left != right);
}

/// Filtering keeps what holds of every two items.
proof fn lemma_filter_pairwise<A>(
    items: Seq<A>,
    test: spec_fn(A) -> bool,
    relation: spec_fn(A, A) -> bool,
)
    requires
        forall|i: int, j: int|
            0 <= i < j < items.len() ==> relation(#[trigger] items[i], #[trigger] items[j]),
    ensures
        forall|i: int, j: int|
            0 <= i < j < items.filter(test).len() ==> relation(
                #[trigger] items.filter(test)[i],
                #[trigger] items.filter(test)[j],
            ),
{
    let kept = items.filter(test);
    assert forall|i: int, j: int| 0 <= i < j < kept.len() implies relation(
        #[trigger] kept[i],
        #[trigger] kept[j],
    ) by {
        let from = lemma_filter_pair(items, test, i, j);
    }
}

/// An item that passes is in the filtered sequence.
proof fn lemma_filter_keeps<A>(items: Seq<A>, test: spec_fn(A) -> bool, item: A)
    requires
        items.contains(item),
        test(item),
    ensures
        items.filter(test).contains(item),
{
    let i = choose|i: int| 0 <= i < items.len() && items[i] == item;
    items.lemma_filter_contains(test, i);
}

/// The registry never holds an intent twice: no step enters one that is there.
pub proof fn law_registry_has_no_duplicates(world: World, step: Step)
    requires
        world.doc.intents.no_duplicates(),
    ensures
        world.after(step).doc.intents.no_duplicates(),
{
    let intents = world.doc.intents;
    match step {
        Step::Asked { request } => match request {
            RequestModel::CloseWebView { app_id } => {
                lemma_filter_no_duplicates(intents, crate::registry::intent_of_other_app(app_id));
            },
            _ => {},
        },
        Step::Told { message } => match message {
            MessageModel::Unregister { app_id, intent_type, intent_id } => {
                lemma_filter_no_duplicates(
                    intents,
                    crate::registry::other_than(
                        crate::registry::intent(app_id, intent_type, intent_id),
                    ),
                );
            },
            _ => {},
        },
        Step::Closed { key } => {
            match crate::list::first(world.host.windows, crate::host::window_under(key)) {
                Some(window) => {
                    lemma_filter_no_duplicates(
                        intents,
                        crate::registry::intent_of_other_app(window.app_id),
                    );
                },
                None => {},
            }
        },
        _ => {},
    }
}

/// The logs of the document are never cleared: every step leaves what stands in them, and at most
/// adds to them.
pub proof fn law_logs_only_grow(world: World, step: Step)
    ensures
        world.doc.intent_responses.is_prefix_of(world.after(step).doc.intent_responses),
        world.doc.intent_registrations.is_prefix_of(world.after(step).doc.intent_registrations),
        world.doc.intent_unregistrations.is_prefix_of(world.after(step).doc.intent_unregistrations),
        world.doc.entity_responses.is_prefix_of(world.after(step).doc.entity_responses),
        world.doc.announcements.is_prefix_of(world.after(step).doc.announcements),
{
}

/// Content stands only in answers to "get" operations that succeeded: no step writes it anywhere
/// else.
pub proof fn law_content_only_answers_get(world: World, step: Step)
    requires
        content_only_for_get(world.doc.intent_responses),
    ensures
        content_only_for_get(world.after(step).doc.intent_responses),
{
}

/// A request to end stays: no step takes it back.
pub proof fn law_exit_request_stays(world: World, step: Step)
    requires
        world.doc.should_exit,
    ensures
        world.after(step).doc.should_exit,
{
}

/// The registry holds only intents of supported types with acceptable ids, as long as transfers
/// deliver only such intents: what an app registers itself is checked.
pub proof fn law_registry_stays_acceptable(world: World, step: Step)
    requires
        acceptable_intents(world.doc.intents),
        step matches Step::Delivered { intent_type, intent_id, .. }
            ==> crate::intent::supported_type(intent_type) && crate::intent::acceptable_id(
            intent_id,
        ),
    ensures
        acceptable_intents(world.after(step).doc.intents),
{
    let intents = world.doc.intents;
    let after = world.after(step).doc.intents;
    assert forall|i: int| 0 <= i < after.len() implies crate::intent::supported_type(
        (#[trigger] after[i]).intent_type,
    ) && crate::intent::acceptable_id(after[i].intent_id) by {
        match step {
            Step::Asked { request } => match request {
                RequestModel::CloseWebView { app_id } => {
                    lemma_filter_item(intents, crate::registry::intent_of_other_app(app_id), i);
                },
                _ => {},
            },
            Step::Told { message } => match message {
                MessageModel::Unregister { app_id, intent_type, intent_id } => {
                    lemma_filter_item(
                        intents,
                        crate::registry::other_than(
                            crate::registry::intent(app_id, intent_type, intent_id),
                        ),
                        i,
                    );
                },
                _ => {},
            },
            Step::Closed { key } => {
                match crate::list::first(world.host.windows, crate::host::window_under(key)) {
                    Some(window) => {
                        lemma_filter_item(
                            intents,
                            crate::registry::intent_of_other_app(window.app_id),
                            i,
                        );
                    },
                    None => {},
                }
            },
            _ => {},
        }
    }
}

/// Adding an operation leaves the pending ones distinct.
proof fn lemma_pending_with_distinct(pending: Seq<OpModel>, op: OpModel)
    requires
        distinct_ops(pending),
    ensures
        distinct_ops(crate::host::pending_with(pending, op)),
{
    let test = crate::host::op_not_called(op.op_id);
    let kept = pending.filter(test);
    lemma_filter_pairwise(pending, test, other_op());
    assert forall|i: int, j: int| 0 <= i < j < kept.push(op).len() implies (#[trigger] kept.push(
        op,
    )[i]).op_id != (#[trigger] kept.push(op)[j]).op_id by {
        lemma_filter_item(pending, test, i);
    }
}

/// Adding operations leaves the pending ones distinct.
proof fn lemma_pending_with_all_distinct(pending: Seq<OpModel>, ops: Seq<OpModel>)
    requires
        distinct_ops(pending),
    ensures
        distinct_ops(crate::host::pending_with_all(pending, ops)),
    decreases ops.len(),
{
    if ops.len() > 0 {
        lemma_pending_with_all_distinct(pending, ops.drop_last());
        lemma_pending_with_distinct(
            crate::host::pending_with_all(pending, ops.drop_last()),
            ops.last(),
        );
    }
}

/// The ids of the web views due are distinct, not being launched, and those of wanted web views;
/// every wanted web view is due or being launched by its id.
proof fn lemma_views_due(webviews: Seq<WebViewModel>, launching: Seq<Seq<char>>)
    ensures
        crate::host::view_ids(crate::host::views_due(webviews, launching)).no_duplicates(),
        forall|i: int|
            0 <= i < crate::host::views_due(webviews, launching).len() ==> !launching.contains(
                (#[trigger] crate::host::views_due(webviews, launching)[i]).id,
            ) && webviews.contains(crate::host::views_due(webviews, launching)[i])
                && crate::host::views_due(webviews, launching)[i].status == WebViewStatus::Pending,
        forall|i: int|
            0 <= i < webviews.len() && (#[trigger] webviews[i]).status == WebViewStatus::Pending
                ==> (launching + crate::host::view_ids(
                crate::host::views_due(webviews, launching),
            )).contains(webviews[i].id),
    decreases webviews.len(),
{
    if webviews.len() > 0 {
        let before = webviews.drop_last();
        let view = webviews.last();
        let earlier = crate::host::views_due(before, launching);
        let ids = crate::host::view_ids(earlier);
        let due = crate::host::views_due(webviews, launching);
        lemma_views_due(before, launching);
        assert(webviews[webviews.len() - 1] == view);
        assert forall|i: int| 0 <= i < due.len() implies !launching.contains(
            (#[trigger] due[i]).id,
        ) && webviews.contains(due[i]) && due[i].status == WebViewStatus::Pending by {
            if i < earlier.len() {
                assert(due[i] == earlier[i]);
                let j = choose|j: int| 0 <= j < before.len() && before[j] == earlier[i];
                assert(webviews[j] == earlier[i]);
            } else {
                if launching.contains(view.id) {
                    let k = choose|k: int| 0 <= k < launching.len() && launching[k] == view.id;
                    assert((launching + ids)[k] == view.id);
                }
            }
        }
        if due.len() > earlier.len() {
            assert(crate::host::view_ids(due) =~= ids.push(view.id));
            if ids.contains(view.id) {
                let k = choose|k: int| 0 <= k < ids.len() && ids[k] == view.id;
                assert((launching + ids)[launching.len() + k] == view.id);
            }
        }
        let all = launching + crate::host::view_ids(due);
        assert forall|i: int|
            0 <= i < webviews.len() && (#[trigger] webviews[i]).status
                == WebViewStatus::Pending implies all.contains(webviews[i].id) by {
            if i < before.len() {
                assert(before[i] == webviews[i]);
                let k = choose|k: int| 0 <= k < (launching + ids).len() && (launching + ids)[k] == webviews[i].id;
                assert(all[k] == webviews[i].id);
            } else if due.len() > earlier.len() {
                assert(all[all.len() - 1] == view.id);
            } else {
                assert(crate::host::view_ids(due) =~= ids);
            }
        }
    }
}

/// The host's lists hold nothing twice: no operation is pending twice, no web view is being
/// launched twice, no key stands for two windows. Every step keeps it so.
pub proof fn law_host_stays_well_formed(world: World, step: Step)
    requires
        world.host.well_formed(),
    ensures
        world.after(step).host.well_formed(),
{
    let host = world.host;
    match step {
        Step::Asked { request } => {},
        Step::Scanned => {
            lemma_pending_with_all_distinct(host.pending, world.ops_due());
            lemma_views_due(world.doc.webviews, host.launching);
            let due = crate::host::views_due(world.doc.webviews, host.launching);
            let ids = crate::host::view_ids(due);
            let all = host.launching + ids;
            assert forall|i: int, j: int|
                0 <= i < all.len() && 0 <= j < all.len() && i != j implies all[i] != all[j] by {
                let n = host.launching.len();
                if i < n && j >= n {
                    assert(ids[j - n] == due[j - n].id);
                    assert(!host.launching.contains(due[j - n].id));
                } else if j < n && i >= n {
                    assert(ids[i - n] == due[i - n].id);
                    assert(!host.launching.contains(due[i - n].id));
                } else if i >= n && j >= n {
                    assert(ids[i - n] != ids[j - n]);
                }
            }
        },
        Step::Launched { key, id } => {
            let test = crate::host::window_not_under(key);
            let kept = host.windows.filter(test);
            lemma_filter_no_duplicates(host.launching, crate::host::text_other_than(id));
            lemma_filter_pairwise(host.windows, test, other_window());
            let after = world.after(step).host.windows;
            assert forall|i: int, j: int| 0 <= i < j < after.len() implies (#[trigger] after[i]).key
                != (#[trigger] after[j]).key by {
                lemma_filter_item(host.windows, test, i);
            }
        },
        Step::Dispatched { op, content } => {
            lemma_filter_pairwise(host.pending, crate::host::op_not_called(op.op_id), other_op());
        },
        Step::Told { message } => match message {
            MessageModel::Content { op_id, .. } => {
                crate::list::lemma_first(host.pending, crate::host::op_called(op_id));
                lemma_filter_pairwise(host.pending, crate::host::op_not_called(op_id), other_op());
            },
            _ => {},
        },
        Step::Delivered { op_id, .. } => {
            crate::list::lemma_first(host.pending, crate::host::op_called(op_id));
            lemma_filter_pairwise(host.pending, crate::host::op_not_called(op_id), other_op());
        },
        Step::Closed { key } => {
            match crate::list::first(host.windows, crate::host::window_under(key)) {
                Some(window) => {
                    lemma_filter_pairwise(
                        host.windows,
                        crate::host::window_not_under(key),
                        other_window(),
                    );
                    lemma_filter_pairwise(
                        host.pending,
                        crate::host::ops_not_involving(window.app_id),
                        other_op(),
                    );
                },
                None => {},
            }
        },
    }
}

/// A host that has just started is well formed.
pub proof fn law_new_host_is_well_formed(host: HostModel)
    requires
        host.launching == Seq::<Seq<char>>::empty(),
        host.pending == Seq::<OpModel>::empty(),
        host.windows == Seq::<WindowModel>::empty(),
    ensures
        host.well_formed(),
{
}

/// A web view is launched once: a scan asks for no web view that is being launched, for none
/// twice, and only for web views that the document wants.
pub proof fn law_no_view_is_launched_twice(world: World)
    ensures
        ({
            let due = crate::host::views_due(world.doc.webviews, world.host.launching);
            &&& crate::host::view_ids(due).no_duplicates()
            &&& forall|i: int|
                0 <= i < due.len() ==> !world.host.launching.contains((#[trigger] due[i]).id)
                    && world.doc.webviews.contains(due[i]) && due[i].status
                    == WebViewStatus::Pending
        }),
{
    lemma_views_due(world.doc.webviews, world.host.launching);
}

/// A web view that came on screen is not asked for again.
pub proof fn law_launched_view_is_not_due(world: World, key: u64, id: Seq<char>)
    ensures
        ({
            let after = world.launched(key, id);
            forall|i: int|
                0 <= i < crate::host::views_due(after.doc.webviews, after.host.launching).len()
                    ==> (#[trigger] crate::host::views_due(
                    after.doc.webviews,
                    after.host.launching,
                )[i]).id != id
        }),
{
    let after = world.launched(key, id);
    lemma_views_due(after.doc.webviews, after.host.launching);
    let due = crate::host::views_due(after.doc.webviews, after.host.launching);
    assert forall|i: int| 0 <= i < due.len() implies (#[trigger] due[i]).id != id by {
        assert(after.doc.webviews.contains(due[i]));
        let j = choose|j: int| 0 <= j < after.doc.webviews.len() && after.doc.webviews[j] == due[i];
        assert(world.doc.webviews[j].id == after.doc.webviews[j].id);
    }
}

/// An operation stays pending when others are added.
proof fn lemma_pending_with_all_keeps(pending: Seq<OpModel>, ops: Seq<OpModel>, op_id: Seq<char>)
    requires
        crate::host::is_pending(pending, op_id) || crate::list::some_item(
            ops,
            crate::host::op_called(op_id),
        ),
    ensures
        crate::host::is_pending(crate::host::pending_with_all(pending, ops), op_id),
    decreases ops.len(),
{
    if ops.len() > 0 {
        let earlier = crate::host::pending_with_all(pending, ops.drop_last());
        let last = ops.last();
        let test = crate::host::op_not_called(last.op_id);
        let all = crate::host::pending_with(earlier, last);
        if last.op_id == op_id {
            assert(all[all.len() - 1] == last);
            assert(crate::host::op_called(op_id)(all[all.len() - 1]));
        } else {
            if crate::list::some_item(ops, crate::host::op_called(op_id)) {
                let i = choose|i: int|
                    0 <= i < ops.len() && crate::host::op_called(op_id)(#[trigger] ops[i]);
                assert(ops.drop_last()[i] == ops[i]);
            }
            lemma_pending_with_all_keeps(pending, ops.drop_last(), op_id);
            let i = choose|i: int|
                0 <= i < earlier.len() && crate::host::op_called(op_id)(#[trigger] earlier[i]);
            lemma_filter_keeps(earlier, test, earlier[i]);
            let kept = earlier.filter(test);
            let k = choose|k: int| 0 <= k < kept.len() && kept[k] == earlier[i];
            assert(all[k] == earlier[i]);
            assert(crate::host::op_called(op_id)(all[k]));
        }
    }
}

/// Every operation in the queue is pending once the host has looked at the document, and each that
/// was not pending before is handed out to be dispatched: none is lost.
pub proof fn law_scan_takes_up_every_operation(world: World, op: OpModel)
    requires
        world.doc.intent_ops.contains(op),
    ensures
        crate::host::is_pending(world.scanned().host.pending, op.op_id),
        !crate::host::is_pending(world.host.pending, op.op_id) ==> world.scan_events().contains(
            EventModel::IntentOp { op },
        ) && !world.scanned().doc.intent_ops.contains(op),
{
    let test = crate::host::not_yet_pending(world.host.pending);
    let stay = crate::host::already_pending(world.host.pending);
    if !crate::host::is_pending(world.host.pending, op.op_id) {
        lemma_filter_keeps(world.doc.intent_ops, test, op);
        let due = world.ops_due();
        let i = choose|i: int| 0 <= i < due.len() && due[i] == op;
        assert(crate::host::op_called(op.op_id)(due[i]));
        let launches = crate::host::launch_events(
            crate::host::views_due(world.doc.webviews, world.host.launching),
        );
        assert(world.scan_events()[launches.len() + i] == (EventModel::IntentOp { op }));
        let queue = world.scanned().doc.intent_ops;
        if queue.contains(op) {
            let k = choose|k: int| 0 <= k < queue.len() && queue[k] == op;
            lemma_filter_item(world.doc.intent_ops, stay, k);
        }
    }
    lemma_pending_with_all_keeps(world.host.pending, world.ops_due(), op.op_id);
}

/// A second look at an unchanged document finds nothing to do, and changes nothing: no web view is
/// asked for and no operation is dispatched again.
pub proof fn law_scanning_again_finds_nothing(world: World)
    ensures
        world.scanned().scan_events() == Seq::<EventModel>::empty(),
        world.scanned().scanned() == world.scanned(),
{
    let after = world.scanned();
    let views = world.doc.webviews;
    lemma_views_due(views, world.host.launching);
    lemma_views_due(views, after.host.launching);
    let due = crate::host::views_due(views, after.host.launching);
    if due.len() > 0 {
        assert(views.contains(due[0]));
        let j = choose|j: int| 0 <= j < views.len() && views[j] == due[0];
        assert(after.host.launching.contains(views[j].id));
        assert(false);
    }
    let queue = after.doc.intent_ops;
    let go = crate::host::not_yet_pending(after.host.pending);
    let stay = crate::host::already_pending(after.host.pending);
    assert forall|i: int| 0 <= i < queue.len() implies stay(#[trigger] queue[i]) by {
        lemma_filter_item(
            world.doc.intent_ops,
            crate::host::already_pending(world.host.pending),
            i,
        );
        lemma_pending_with_all_keeps(world.host.pending, world.ops_due(), queue[i].op_id);
    }
    lemma_filter_all(queue, stay);
    if queue.filter(go).len() > 0 {
        lemma_filter_item(queue, go, 0);
        let k = choose|k: int| 0 <= k < queue.len() && queue[k] == queue.filter(go)[0];
        assert(stay(queue[k]));
        assert(false);
    }
    assert(due =~= Seq::empty());
    assert(crate::host::view_ids(due) =~= Seq::empty());
    assert(crate::host::launch_events(due) =~= Seq::empty());
    assert(after.ops_due() =~= Seq::empty());
    assert(crate::host::op_events(after.ops_due()) =~= Seq::empty());
    assert(after.scan_events() =~= Seq::empty());
    assert(after.host.launching + crate::host::view_ids(due) =~= after.host.launching);
    assert(after.scanned() =~= after);
}

/// Filtering by what every item passes keeps all.
proof fn lemma_filter_all<A>(items: Seq<A>, test: spec_fn(A) -> bool)
    requires
        forall|i: int| 0 <= i < items.len() ==> test(#[trigger] items[i]),
    ensures
        items.filter(test) == items,
    decreases items.len(),
{
    reveal_with_fuel(Seq::filter, 2);
    if items.len() > 0 {
        let before = items.drop_last();
        assert forall|i: int| 0 <= i < before.len() implies test(#[trigger] before[i]) by {
            assert(before[i] == items[i]);
        }
        lemma_filter_all(before, test);
        assert(test(items[items.len() - 1]));
        assert(items =~= before.push(items.last()));
    } else {
        assert(items.filter(test) =~= items);
    }
}

/// Writing one more response changes the number of answers to its operation, and to no other.
proof fn lemma_answers_push(responses: Seq<ResponseModel>, response: ResponseModel, op_id: Seq<char>)
    ensures
        answers_to(responses.push(response), op_id) == answers_to(responses, op_id) + if response.op_id
            == op_id {
            1nat
        } else {
            0nat
        },
{
    responses.lemma_filter_push(response, response_to(op_id));
}

/// The failures of distinct operations answer each of them once.
proof fn lemma_answers_closed(
    responses: Seq<ResponseModel>,
    ops: Seq<OpModel>,
    error: Seq<char>,
    op_id: Seq<char>,
)
    requires
        distinct_ops(ops),
    ensures
        answers_to(
            responses + ops.map_values(|op: OpModel| crate::registry::failure(op, error)),
            op_id,
        ) == answers_to(responses, op_id) + if crate::host::is_pending(ops, op_id) {
            1nat
        } else {
            0nat
        },
    decreases ops.len(),
{
    let failures = ops.map_values(|op: OpModel| crate::registry::failure(op, error));
    if ops.len() == 0 {
        assert(responses + failures =~= responses);
    } else {
        let before = ops.drop_last();
        let earlier = before.map_values(|op: OpModel| crate::registry::failure(op, error));
        let last = ops.last();
        assert(distinct_ops(before)) by {
            assert forall|i: int, j: int| 0 <= i < j < before.len() implies (
            #[trigger] before[i]).op_id != (#[trigger] before[j]).op_id by {
                assert(ops[i].op_id != ops[j].op_id);
            }
        }
        lemma_answers_closed(responses, before, error, op_id);
        assert(responses + failures =~= (responses + earlier).push(
            crate::registry::failure(last, error),
        ));
        lemma_answers_push(responses + earlier, crate::registry::failure(last, error), op_id);
        if last.op_id == op_id {
            assert(crate::host::op_called(op_id)(ops[ops.len() - 1]));
            if crate::host::is_pending(before, op_id) {
                let i = choose|i: int|
                    0 <= i < before.len() && crate::host::op_called(op_id)(#[trigger] before[i]);
                assert(ops[i].op_id != ops[ops.len() - 1].op_id);
            }
        } else {
            if crate::host::is_pending(ops, op_id) {
                let i = choose|i: int|
                    0 <= i < ops.len() && crate::host::op_called(op_id)(#[trigger] ops[i]);
                assert(before[i] == ops[i]);
            }
            if crate::host::is_pending(before, op_id) {
                let i = choose|i: int|
                    0 <= i < before.len() && crate::host::op_called(op_id)(#[trigger] before[i]);
                assert(ops[i] == before[i]);
            }
        }
    }
}

/// What taking an operation from the pending ones leaves.
proof fn lemma_settled(host: HostModel, settled: Seq<char>, op_id: Seq<char>)
    ensures
        crate::host::is_pending(host.settled(settled).pending, op_id) <==> crate::host::is_pending(
            host.pending,
            op_id,
        ) && op_id != settled,
{
    let test = crate::host::op_not_called(settled);
    let kept = host.pending.filter(test);
    if crate::host::is_pending(kept, op_id) {
        let i = choose|i: int| 0 <= i < kept.len() && crate::host::op_called(op_id)(#[trigger] kept[i]);
        lemma_filter_item(host.pending, test, i);
        let j = choose|j: int| 0 <= j < host.pending.len() && host.pending[j] == kept[i];
        assert(crate::host::op_called(op_id)(host.pending[j]));
    }
    if crate::host::is_pending(host.pending, op_id) && op_id != settled {
        let i = choose|i: int|
            0 <= i < host.pending.len() && crate::host::op_called(op_id)(#[trigger] host.pending[i]);
        lemma_filter_keeps(host.pending, test, host.pending[i]);
        let k = choose|k: int| 0 <= k < kept.len() && kept[k] == host.pending[i];
        assert(crate::host::op_called(op_id)(kept[k]));
    }
}

/// Every pending operation is answered once, when it stops being pending, and not before: a step
/// writes one response to it where it leaves the pending ones, and none where it stays.
pub proof fn law_an_operation_is_answered_once(world: World, step: Step, op_id: Seq<char>)
    requires
        world.host.well_formed(),
        crate::host::is_pending(world.host.pending, op_id),
    ensures
        answers_to(world.after(step).doc.intent_responses, op_id) == answers_to(
            world.doc.intent_responses,
            op_id,
        ) + if crate::host::is_pending(world.after(step).host.pending, op_id) {
            0nat
        } else {
            1nat
        },
{
    let host = world.host;
    let responses = world.doc.intent_responses;
    match step {
        Step::Asked { request } => {},
        Step::Scanned => {
            lemma_pending_with_all_keeps(host.pending, world.ops_due(), op_id);
        },
        Step::Launched { key, id } => {},
        Step::Dispatched { op, content } => {
            lemma_settled(host, op.op_id, op_id);
            let after = world.after(step).doc.intent_responses;
            if after.len() > responses.len() {
                assert(after =~= responses.push(after.last()));
                lemma_answers_push(responses, after.last(), op_id);
            }
        },
        Step::Told { message } => match message {
            MessageModel::Content { op_id: told_id, .. } => {
                crate::list::lemma_first(host.pending, crate::host::op_called(told_id));
                lemma_settled(host, told_id, op_id);
                let after = world.after(step).doc.intent_responses;
                if after.len() > responses.len() {
                    assert(after =~= responses.push(after.last()));
                    lemma_answers_push(responses, after.last(), op_id);
                }
            },
            _ => {},
        },
        Step::Delivered { op_id: delivered_id, .. } => {
            crate::list::lemma_first(host.pending, crate::host::op_called(delivered_id));
            lemma_settled(host, delivered_id, op_id);
            let after = world.after(step).doc.intent_responses;
            if after.len() > responses.len() {
                assert(after =~= responses.push(after.last()));
                lemma_answers_push(responses, after.last(), op_id);
            }
        },
        Step::Closed { key } => {
            match crate::list::first(host.windows, crate::host::window_under(key)) {
                Some(window) => {
                    let involved = crate::host::ops_involving(window.app_id);
                    let others = crate::host::ops_not_involving(window.app_id);
                    let failed = host.pending.filter(involved);
                    let kept = host.pending.filter(others);
                    lemma_filter_pairwise(host.pending, involved, other_op());
                    lemma_answers_closed(responses, failed, "app closed"@, op_id);
                    let i = choose|i: int|
                        0 <= i < host.pending.len() && crate::host::op_called(op_id)(
                            #[trigger] host.pending[i],
                        );
                    let op = host.pending[i];
                    if involved(op) {
                        lemma_filter_keeps(host.pending, involved, op);
                        let k = choose|k: int| 0 <= k < failed.len() && failed[k] == op;
                        assert(crate::host::op_called(op_id)(failed[k]));
                        if crate::host::is_pending(kept, op_id) {
                            let j = choose|j: int|
                                0 <= j < kept.len() && crate::host::op_called(op_id)(
                                    #[trigger] kept[j],
                                );
                            lemma_filter_item(host.pending, others, j);
                            let m = choose|m: int|
                                0 <= m < host.pending.len() && host.pending[m] == kept[j];
                            assert(host.pending[m].op_id == host.pending[i].op_id);
                            assert(m == i);
                        }
                    } else {
                        lemma_filter_keeps(host.pending, others, op);
                        let k = choose|k: int| 0 <= k < kept.len() && kept[k] == op;
                        assert(crate::host::op_called(op_id)(kept[k]));
                        if crate::host::is_pending(failed, op_id) {
                            let j = choose|j: int|
                                0 <= j < failed.len() && crate::host::op_called(op_id)(
                                    #[trigger] failed[j],
                                );
                            lemma_filter_item(host.pending, involved, j);
                            let m = choose|m: int|
                                0 <= m < host.pending.len() && host.pending[m] == failed[j];
                            assert(host.pending[m].op_id == host.pending[i].op_id);
                            assert(m == i);
                        }
                    }
                },
                None => {},
            }
        },
    }
}

/// An app that closed is gone: no web view and no intent of it is left in the document, and no
/// operation that involves it is left pending, so that the agent is not left hanging.
pub proof fn law_closed_app_leaves_nothing(world: World, key: u64, window: WindowModel)
    requires
        crate::list::first(world.host.windows, crate::host::window_under(key)) == Some(window),
    ensures
        ({
            let after = world.closed(key);
            &&& forall|i: int|
                0 <= i < after.doc.webviews.len() ==> (#[trigger] after.doc.webviews[i]).id
                    != window.app_id
            &&& forall|i: int|
                0 <= i < after.doc.intents.len() ==> (#[trigger] after.doc.intents[i]).app_id
                    != window.app_id
            &&& forall|i: int|
                0 <= i < after.host.pending.len() ==> !crate::host::op_involves(
                    #[trigger] after.host.pending[i],
                    window.app_id,
                )
            &&& forall|i: int|
                0 <= i < after.host.windows.len() ==> (#[trigger] after.host.windows[i]).key != key
        }),
{
    let after = world.closed(key);
    assert forall|i: int| 0 <= i < after.doc.webviews.len() implies (
    #[trigger] after.doc.webviews[i]).id != window.app_id by {
        lemma_filter_item(world.doc.webviews, crate::registry::view_of_other_app(window.app_id), i);
    }
    assert forall|i: int| 0 <= i < after.doc.intents.len() implies (
    #[trigger] after.doc.intents[i]).app_id != window.app_id by {
        lemma_filter_item(world.doc.intents, crate::registry::intent_of_other_app(window.app_id), i);
    }
    assert forall|i: int| 0 <= i < after.host.pending.len() implies !crate::host::op_involves(
        #[trigger] after.host.pending[i],
        window.app_id,
    ) by {
        lemma_filter_item(
            world.host.pending,
            crate::host::ops_not_involving(window.app_id),
            i,
        );
    }
    assert forall|i: int| 0 <= i < after.host.windows.len() implies (
    #[trigger] after.host.windows[i]).key != key by {
        lemma_filter_item(world.host.windows, crate::host::window_not_under(key), i);
    }
}

/// The content of a transfer stays out of the document: what is delivered makes no difference to
/// it, to the host, or to which window the delivery goes to.
pub proof fn law_transferred_content_stays_out(
    world: World,
    op_id: Seq<char>,
    intent_type: Seq<char>,
    intent_id: Seq<char>,
    data: Seq<char>,
    other: Seq<char>,
)
    ensures
        world.delivered(op_id, intent_type, intent_id, data).0 == world.delivered(
            op_id,
            intent_type,
            intent_id,
            other,
        ).0,
        world.delivered(op_id, intent_type, intent_id, data).1 is Some <==> world.delivered(
            op_id,
            intent_type,
            intent_id,
            other,
        ).1 is Some,
        world.delivered(op_id, intent_type, intent_id, data).1 matches Some(call) ==> world.delivered(
            op_id,
            intent_type,
            intent_id,
            other,
        ).1->Some_0.window == call.window,
{
}

/// What the source app of a transfer sends that satisfies the scheme stays out of the document
/// too: it only goes on to the delivery.
pub proof fn law_content_on_its_way_stays_out(
    world: World,
    op: OpModel,
    op_id: Seq<char>,
    intent_type: Seq<char>,
    intent_id: Seq<char>,
    data: Seq<char>,
)
    requires
        world.host.pending_op(op_id) == Some(op),
        op.kind == "transfer"@,
    ensures
        world.told(
            MessageModel::Content { op_id, intent_type, intent_id, content: Some(data) },
        ) == (
            world,
            Some(EventModel::IntentContentReady { op_id, intent_type, intent_id, data }),
        ),
{
    reveal_strlit("get");
    reveal_strlit("transfer");
    assert("get"@.len() != "transfer"@.len());
}

/// A transfer that is delivered leaves the intent registered in the target app.
pub proof fn law_delivered_intent_is_registered(
    world: World,
    op: OpModel,
    intent_type: Seq<char>,
    intent_id: Seq<char>,
    data: Seq<char>,
)
    requires
        world.host.pending_op(op.op_id) == Some(op),
        world.host.window(crate::host::target_of(op)) is Some,
    ensures
        world.delivered(op.op_id, intent_type, intent_id, data).0.doc.intents.contains(
            crate::registry::intent(crate::host::target_of(op), intent_type, intent_id),
        ),
{
    let key = crate::registry::intent(crate::host::target_of(op), intent_type, intent_id);
    let after = world.delivered(op.op_id, intent_type, intent_id, data).0.doc.intents;
    if !world.doc.intents.contains(key) {
        assert(after[after.len() - 1] == key);
    }
}

/// An app is asked for content only for an intent that it has registered, and for a transfer only
/// where the target app has an intent of the same type; content to set goes to an app only for an
/// intent that it has registered. Either goes to a window of that app.
pub proof fn law_scripts_go_only_to_registered_intents(
    world: World,
    op: OpModel,
    content: Option<Seq<char>>,
)
    requires
        world.dispatched(op, content).1 is Some,
    ensures
        exists|i: int|
            0 <= i < world.doc.intents.len() && (#[trigger] world.doc.intents[i]).app_id
                == op.app_id && world.doc.intents[i].intent_id == op.intent_id && (op.kind
                == "transfer"@ ==> world.doc.app_supports(
                crate::host::target_of(op),
                world.doc.intents[i].intent_type,
            )),
        exists|i: int|
            0 <= i < world.host.windows.len() && (#[trigger] world.host.windows[i]).app_id
                == op.app_id && world.host.windows[i].key == world.dispatched(
                op,
                content,
            ).1->Some_0.window,
{
    let test = crate::registry::intent_called(op.app_id, op.intent_id);
    crate::list::lemma_first(world.doc.intents, test);
    let found = crate::list::first(world.doc.intents, test)->Some_0;
    let i = choose|i: int| 0 <= i < world.doc.intents.len() && world.doc.intents[i] == found;
    assert(world.doc.intents[i].app_id == op.app_id);
    crate::list::lemma_first(world.host.windows, crate::host::window_of_app(op.app_id));
    let window = world.host.window(op.app_id)->Some_0;
    let k = choose|k: int| 0 <= k < world.host.windows.len() && world.host.windows[k] == window;
    assert(world.host.windows[k].app_id == op.app_id);
}

/// An operation for which no script goes out is refused: it fails in the last response, and is no
/// longer pending.
pub proof fn law_refused_operation_is_answered(
    world: World,
    op: OpModel,
    content: Option<Seq<char>>,
)
    requires
        world.dispatched(op, content).1 is None,
    ensures
        ({
            let after = world.dispatched(op, content).0;
            let response = after.doc.intent_responses.last();
            &&& after.doc.intent_responses.len() == world.doc.intent_responses.len() + 1
            &&& response.op_id == op.op_id
            &&& response.is_error
            &&& response.error is Some
            &&& response.data is None
            &&& !crate::host::is_pending(after.host.pending, op.op_id)
        }),
{
    lemma_settled(world.host, op.op_id, op.op_id);
}

/// An operation on an intent that the app has not registered is refused.
pub proof fn law_unregistered_intent_is_refused(
    world: World,
    op: OpModel,
    content: Option<Seq<char>>,
)
    requires
        forall|i: int|
            0 <= i < world.doc.intents.len() ==> !((#[trigger] world.doc.intents[i]).app_id
                == op.app_id && world.doc.intents[i].intent_id == op.intent_id),
    ensures
        world.dispatched(op, content) == (
            world.refuse(op, "no intent with this id is registered in the app"@),
            None::<crate::host::CallModel>,
        ),
{
    crate::list::lemma_first(
        world.doc.intents,
        crate::registry::intent_called(op.app_id, op.intent_id),
    );
}

/// Registering an intent again changes nothing and announces nothing.
pub proof fn law_registering_again_changes_nothing(doc: DocModel, key: IntentModel)
    ensures
        doc.registered(key).registered(key) == doc.registered(key),
        doc.registered(key).intents.contains(key),
{
    if !doc.intents.contains(key) {
        let after = doc.registered(key).intents;
        assert(after[after.len() - 1] == key);
    }
}

/// Unregistering an intent undoes its registration: the registry is as it was before, and the
/// removal is announced.
pub proof fn law_unregistering_undoes_registering(doc: DocModel, key: IntentModel)
    requires
        !doc.intents.contains(key),
    ensures
        doc.registered(key).unregistered(key) == (DocModel {
            intent_registrations: doc.intent_registrations.push(key),
            intent_unregistrations: doc.intent_unregistrations.push(key),
            ..doc
        }),
{
    let test = crate::registry::other_than(key);
    doc.intents.lemma_filter_push(key, test);
    assert forall|i: int| 0 <= i < doc.intents.len() implies test(#[trigger] doc.intents[i]) by {
        assert(doc.intents.contains(doc.intents[i]));
    }
    lemma_filter_all(doc.intents, test);
}

/// Once unregistered, an intent is not in the registry, and every other intent still is.
pub proof fn law_unregistered_intent_is_gone(doc: DocModel, key: IntentModel, other: IntentModel)
    ensures
        !doc.unregistered(key).intents.contains(key),
        other != key ==> (doc.unregistered(key).intents.contains(other) <==> doc.intents.contains(
            other,
        )),
{
    let test = crate::registry::other_than(key);
    let after = doc.unregistered(key).intents;
    if after.contains(key) {
        let i = choose|i: int| 0 <= i < after.len() && after[i] == key;
        lemma_filter_item(doc.intents, test, i);
    }
    if other != key {
        if doc.intents.contains(other) {
            lemma_filter_keeps(doc.intents, test, other);
        }
        if after.contains(other) {
            let i = choose|i: int| 0 <= i < after.len() && after[i] == other;
            lemma_filter_item(doc.intents, test, i);
        }
    }
}

/// What satisfies the scheme comes out with the intent's id, with every other member as it was,
/// and still satisfies the scheme; normalizing it again changes nothing.
pub proof fn law_normalized_content_carries_the_id(intent_id: Seq<char>, data: JsonView)
    requires
        crate::intent::satisfies_scheme(data),
    ensures
        ({
            let content = crate::intent::normalized(intent_id, data)->Some_0;
            &&& crate::intent::normalized(intent_id, data) is Some
            &&& content.text_member("id"@) == Some(intent_id)
            &&& forall|key: Seq<char>| key != "id"@ ==> #[trigger] content.member(key)
                == data.member(key)
            &&& crate::intent::satisfies_scheme(content)
            &&& crate::intent::normalized(intent_id, content) == Some(content)
        }),
{
    reveal_strlit("id");
    reveal_strlit("title");
    reveal_strlit("content");
    assert("id"@.len() != "title"@.len());
    assert("id"@.len() != "content"@.len());
    let content = crate::intent::normalized(intent_id, data)->Some_0;
    assert(content.member("title"@) == data.member("title"@));
    assert(content.member("content"@) == data.member("content"@));
    let members = content->Object_0;
    assert(members.insert("id"@, JsonView::Text(intent_id)) =~= members);
}

/// Each entry of a log that only grows is forwarded once and in order: what is unseen of a log and
/// then of the log it has grown to is what is unseen of the grown log.
pub proof fn law_each_entry_is_forwarded_once<A>(log: Seq<A>, grown: Seq<A>, seen: nat)
    requires
        log.is_prefix_of(grown),
    ensures
        crate::bridge::unseen(log, seen) + crate::bridge::unseen(
            grown,
            crate::bridge::seen_after(log, seen),
        ) == crate::bridge::unseen(grown, seen),
        crate::bridge::seen_after(grown, crate::bridge::seen_after(log, seen))
            == crate::bridge::seen_after(grown, seen),
        crate::bridge::unseen(grown, crate::bridge::seen_after(grown, seen)) == Seq::<A>::empty(),
{
    assert(crate::bridge::unseen(log, seen) + crate::bridge::unseen(
        grown,
        crate::bridge::seen_after(log, seen),
    ) =~= crate::bridge::unseen(grown, seen));
}

/// What the agent asks to be closed is gone from the document: web views, intents and entities.
pub proof fn law_close_request_leaves_nothing(doc: DocModel, app_id: Seq<char>)
    ensures
        ({
            let after = doc.requested(RequestModel::CloseWebView { app_id });
            &&& forall|i: int|
                0 <= i < after.webviews.len() ==> (#[trigger] after.webviews[i]).id != app_id
            &&& forall|i: int|
                0 <= i < after.intents.len() ==> (#[trigger] after.intents[i]).app_id != app_id
            &&& forall|i: int|
                0 <= i < after.entities.len() ==> (#[trigger] after.entities[i]).app_id != app_id
        }),
{
    let after = doc.requested(RequestModel::CloseWebView { app_id });
    assert forall|i: int| 0 <= i < after.webviews.len() implies (#[trigger] after.webviews[i]).id
        != app_id by {
        lemma_filter_item(doc.webviews, crate::registry::view_of_other_app(app_id), i);
    }
    assert forall|i: int| 0 <= i < after.intents.len() implies (#[trigger] after.intents[i]).app_id
        != app_id by {
        lemma_filter_item(doc.intents, crate::registry::intent_of_other_app(app_id), i);
    }
    assert forall|i: int| 0 <= i < after.entities.len() implies (
    #[trigger] after.entities[i]).app_id != app_id by {
        lemma_filter_item(
            doc.entities,
            crate::bridge::entity_of_other_app(app_id),
            i,
        );
    }
}

/// An operation on an app that closed is refused when it is dispatched.
pub proof fn law_operation_on_closed_app_is_refused(
    world: World,
    key: u64,
    window: WindowModel,
    op: OpModel,
    content: Option<Seq<char>>,
)
    requires
        crate::list::first(world.host.windows, crate::host::window_under(key)) == Some(window),
        op.app_id == window.app_id,
    ensures
        world.closed(key).dispatched(op, content) == (
            world.closed(key).refuse(op, "no intent with this id is registered in the app"@),
            None::<crate::host::CallModel>,
        ),
{
    law_closed_app_leaves_nothing(world, key, window);
    law_unregistered_intent_is_refused(world.closed(key), op, content);
}

/// The content that a "set" operation delivers stays out of the document: which content it is
/// makes no difference to the document or to the host.
pub proof fn law_set_content_stays_out(
    world: World,
    op: OpModel,
    content: Seq<char>,
    other: Seq<char>,
)
    ensures
        world.dispatched(op, Some(content)).0 == world.dispatched(op, Some(other)).0,
{
}

/// A document that nothing has been written to has no duplicate and no unacceptable intent, and
/// no content.
pub proof fn law_empty_document_is_sound()
    ensures
        crate::doc::empty_doc().intents.no_duplicates(),
        acceptable_intents(crate::doc::empty_doc().intents),
        content_only_for_get(crate::doc::empty_doc().intent_responses),
{
}

} // verus!
