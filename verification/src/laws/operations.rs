//! What becomes of an operation: the script that it sends, the answer that it gets, and why it is
//! refused.

use vstd::prelude::*;

use crate::doc::DocModel;
use crate::doc::IntentModel;
use crate::doc::OpModel;
use crate::doc::ResponseModel;
use crate::host::CallModel;
use crate::host::EventModel;
use crate::host::HostModel;
use crate::host::World;
use crate::message::MessageModel;

verus! {

broadcast use vstd::seq_lib::group_filter_ensures;

/// The script that asks an app for the content of an intent, on behalf of an operation.
pub open spec fn asking(
    op_id: Seq<char>,
    intent_type: Seq<char>,
    intent_id: Seq<char>,
) -> Seq<char> {
    "document.dispatchEvent(new CustomEvent('intent-request', { detail: { requestId: "@
        + crate::script::debug_quoted(op_id) + ", type: "@ + crate::script::debug_quoted(
        intent_type,
    ) + ", id: "@ + crate::script::debug_quoted(intent_id) + " } }));"@
}

/// The script that hands an app the content of an intent.
pub open spec fn handing(
    intent_type: Seq<char>,
    intent_id: Seq<char>,
    data: Seq<char>,
    source: Seq<char>,
) -> Seq<char> {
    "document.dispatchEvent(new CustomEvent('intent-receive', { detail: { type: "@
        + crate::script::debug_quoted(intent_type) + ", id: "@ + crate::script::debug_quoted(
        intent_id,
    ) + ", data: "@ + data + ", source: "@ + crate::script::debug_quoted(source) + " } }));"@
}

/// Whether the intent at `index` is the first that the app registered under the id.
pub open spec fn first_intent(
    doc: DocModel,
    app_id: Seq<char>,
    intent_id: Seq<char>,
    index: int,
) -> bool {
    &&& 0 <= index < doc.intents.len()
    &&& doc.intents[index].app_id == app_id
    &&& doc.intents[index].intent_id == intent_id
    &&& forall|i: int|
        0 <= i < index ==> !((#[trigger] doc.intents[i]).app_id == app_id
            && doc.intents[i].intent_id == intent_id)
}

/// Whether the app has registered no intent under the id.
pub open spec fn no_intent(doc: DocModel, app_id: Seq<char>, intent_id: Seq<char>) -> bool {
    forall|i: int|
        0 <= i < doc.intents.len() ==> !((#[trigger] doc.intents[i]).app_id == app_id
            && doc.intents[i].intent_id == intent_id)
}

/// Whether the app has registered some intent of the type.
pub open spec fn takes_type(doc: DocModel, app_id: Seq<char>, intent_type: Seq<char>) -> bool {
    exists|i: int|
        0 <= i < doc.intents.len() && (#[trigger] doc.intents[i]).app_id == app_id
            && doc.intents[i].intent_type == intent_type
}

/// Whether the window at `index` is the one of the app that came on screen first.
pub open spec fn first_window(host: HostModel, app_id: Seq<char>, index: int) -> bool {
    &&& 0 <= index < host.windows.len()
    &&& host.windows[index].app_id == app_id
    &&& forall|i: int| 0 <= i < index ==> (#[trigger] host.windows[i]).app_id != app_id
}

/// Whether no window of the app is on screen.
pub open spec fn no_window(host: HostModel, app_id: Seq<char>) -> bool {
    forall|i: int| 0 <= i < host.windows.len() ==> (#[trigger] host.windows[i]).app_id != app_id
}

/// Whether the operation at `index` is the pending one with the id.
pub open spec fn waits_at(host: HostModel, op_id: Seq<char>, index: int) -> bool {
    &&& 0 <= index < host.pending.len()
    &&& host.pending[index].op_id == op_id
    &&& forall|i: int| 0 <= i < index ==> (#[trigger] host.pending[i]).op_id != op_id
}

/// Whether no operation with the id is pending.
pub open spec fn none_waits(host: HostModel, op_id: Seq<char>) -> bool {
    forall|i: int| 0 <= i < host.pending.len() ==> (#[trigger] host.pending[i]).op_id != op_id
}

/// Whether `target` is the app that an operation delivers to: the one that it names, or the empty
/// text where it names none.
pub open spec fn goes_to(op: OpModel, target: Seq<char>) -> bool {
    op.target_app == Some(target) || (op.target_app is None && target.len() == 0)
}

/// Tells the operations under other ids.
pub open spec fn ops_but(op_id: Seq<char>) -> spec_fn(OpModel) -> bool {
    |op: OpModel| !(op.op_id == op_id)
}

/// The world once `op` is answered: it no longer waits, the other operations wait on in their
/// order, and the document holds one more response, which repeats the operation and tells of the
/// failure, if there is one. Nothing else has changed.
pub open spec fn answered(
    world: World,
    op: OpModel,
    data: Option<Seq<char>>,
    error: Option<Seq<char>>,
) -> World {
    World {
        host: HostModel { pending: world.host.pending.filter(ops_but(op.op_id)), ..world.host },
        doc: DocModel {
            intent_responses: world.doc.intent_responses + seq![
                ResponseModel {
                    op_id: op.op_id,
                    kind: op.kind,
                    app_id: op.app_id,
                    intent_id: op.intent_id,
                    data: data,
                    is_error: error is Some,
                    error: error,
                },
            ],
            ..world.doc
        },
    }
}

/// Answering is what success and refusal come to.
proof fn lemma_answered(world: World, op: OpModel)
    ensures
        forall|data: Option<Seq<char>>| #[trigger]
            world.resolve(op, data) == answered(world, op, data, None),
        forall|error: Seq<char>| #[trigger]
            world.refuse(op, error) == answered(world, op, None, Some(error)),
{
    assert(crate::host::op_not_called(op.op_id) =~= ops_but(op.op_id));
    assert forall|data: Option<Seq<char>>| #[trigger]
        world.resolve(op, data) == answered(world, op, data, None) by {
        assert(world.resolve(op, data).doc.intent_responses =~= answered(
            world,
            op,
            data,
            None,
        ).doc.intent_responses);
    }
    assert forall|error: Seq<char>| #[trigger]
        world.refuse(op, error) == answered(world, op, None, Some(error)) by {
        assert(world.refuse(op, error).doc.intent_responses =~= answered(
            world,
            op,
            None,
            Some(error),
        ).doc.intent_responses);
    }
}

/// A look for an app's window.
proof fn lemma_window(host: HostModel, app_id: Seq<char>)
    ensures
        forall|index: int| #[trigger]
            first_window(host, app_id, index) ==> host.window(app_id) == Some(host.windows[index]),
        no_window(host, app_id) ==> host.window(app_id) is None,
{
    let test = crate::host::window_of_app(app_id);
    assert forall|index: int| #[trigger] first_window(host, app_id, index) implies host.window(
        app_id,
    ) == Some(host.windows[index]) by {
        crate::list::lemma_first_at(host.windows, test, index);
    }
    crate::list::lemma_first(host.windows, test);
    if no_window(host, app_id) && crate::list::some_item(host.windows, test) {
        let i = choose|i: int| 0 <= i < host.windows.len() && test(#[trigger] host.windows[i]);
        assert(host.windows[i].app_id != app_id);
    }
}

/// A look for a pending operation.
proof fn lemma_pending(host: HostModel, op_id: Seq<char>)
    ensures
        forall|index: int| #[trigger]
            waits_at(host, op_id, index) ==> host.pending_op(op_id) == Some(host.pending[index]),
        none_waits(host, op_id) ==> host.pending_op(op_id) is None,
{
    let test = crate::host::op_called(op_id);
    assert forall|index: int| #[trigger] waits_at(host, op_id, index) implies host.pending_op(op_id)
        == Some(host.pending[index]) by {
        crate::list::lemma_first_at(host.pending, test, index);
    }
    crate::list::lemma_first(host.pending, test);
    if none_waits(host, op_id) && crate::list::some_item(host.pending, test) {
        let i = choose|i: int| 0 <= i < host.pending.len() && test(#[trigger] host.pending[i]);
        assert(host.pending[i].op_id != op_id);
    }
}

/// The kinds of operations are different texts.
proof fn lemma_kinds_differ()
    ensures
        "get"@ != "transfer"@,
        "get"@ != "set"@,
        "set"@ != "transfer"@,
{
    reveal_strlit("get");
    reveal_strlit("set");
    reveal_strlit("transfer");
    assert("get"@[0] != "set"@[0]);
    assert("get"@.len() == 3 && "set"@.len() == 3 && "transfer"@.len() == 8);
}

/// An operation on an intent that its app has not registered is refused, whatever its kind.
pub proof fn law_operation_without_intent_is_refused(
    world: World,
    op: OpModel,
    content: Option<Seq<char>>,
)
    requires
        no_intent(world.doc, op.app_id, op.intent_id),
    ensures
        world.dispatched(op, content) == (
            answered(world, op, None, Some("no intent with this id is registered in the app"@)),
            None::<CallModel>,
        ),
{
    super::registry::law_look_up_finds_only_what_is_registered(world.doc, op.app_id, op.intent_id);
    lemma_answered(world, op);
}

/// A "get" or a "transfer" that is dispatched asks the first window of its app: the script is the
/// request whose request id is the operation's id, whose type is the registered type and whose id
/// is the operation's intent, the same for both kinds. The operation waits on, and nothing has
/// changed. Without a window of the app it is refused.
pub proof fn law_request_goes_to_the_app_and_names_the_operation(
    world: World,
    op: OpModel,
    content: Option<Seq<char>>,
    target: Seq<char>,
    intent: int,
    window: int,
)
    requires
        first_intent(world.doc, op.app_id, op.intent_id, intent),
        goes_to(op, target),
        op.kind == "get"@ || (op.kind == "transfer"@ && takes_type(
            world.doc,
            target,
            world.doc.intents[intent].intent_type,
        )),
    ensures
        first_window(world.host, op.app_id, window) ==> world.dispatched(op, content) == (
            world,
            Some(
                CallModel {
                    window: world.host.windows[window].key,
                    script: asking(
                        op.op_id,
                        world.doc.intents[intent].intent_type,
                        op.intent_id,
                    ),
                },
            ),
        ),
        no_window(world.host, op.app_id) ==> world.dispatched(op, content) == (
            answered(world, op, None, Some("app window not found"@)),
            None::<CallModel>,
        ),
{
    lemma_kinds_differ();
    lemma_answered(world, op);
    lemma_window(world.host, op.app_id);
    lemma_target(op, target);
    super::registry::law_look_up_finds_the_first_registered(
        world.doc,
        op.app_id,
        op.intent_id,
        intent,
    );
    super::registry::law_app_supports_the_types_it_registered(
        world.doc,
        target,
        world.doc.intents[intent].intent_type,
    );
}

/// The target that an operation goes to.
proof fn lemma_target(op: OpModel, target: Seq<char>)
    requires
        goes_to(op, target),
    ensures
        crate::host::target_of(op) == target,
{
    assert(target.len() == 0 ==> target =~= Seq::empty());
}

/// Whatever script a "get" or a "transfer" sends out, it is the request that names the operation
/// and its intent, and the operation waits on.
pub proof fn law_every_request_names_its_operation(
    world: World,
    op: OpModel,
    content: Option<Seq<char>>,
)
    requires
        op.kind == "get"@ || op.kind == "transfer"@,
        world.dispatched(op, content).1 is Some,
    ensures
        world.dispatched(op, content).0 == world,
        exists|intent: int, window: int|
            #![trigger world.doc.intents[intent], world.host.windows[window]]
            first_intent(world.doc, op.app_id, op.intent_id, intent) && first_window(
                world.host,
                op.app_id,
                window,
            ) && world.dispatched(op, content).1 == Some(
                CallModel {
                    window: world.host.windows[window].key,
                    script: asking(
                        op.op_id,
                        world.doc.intents[intent].intent_type,
                        op.intent_id,
                    ),
                },
            ),
{
    lemma_kinds_differ();
    let test = crate::registry::intent_called(op.app_id, op.intent_id);
    let intent = lemma_first_index(world.doc.intents, test);
    crate::list::lemma_first_at(world.doc.intents, test, intent);
    assert(first_intent(world.doc, op.app_id, op.intent_id, intent)) by {
        assert(test(world.doc.intents[intent]));
        assert forall|i: int| 0 <= i < intent implies !((#[trigger] world.doc.intents[i]).app_id
            == op.app_id && world.doc.intents[i].intent_id == op.intent_id) by {
            assert(!test(world.doc.intents[i]));
        }
    }
    let shown = crate::host::window_of_app(op.app_id);
    let window = lemma_first_index(world.host.windows, shown);
    crate::list::lemma_first_at(world.host.windows, shown, window);
    assert(first_window(world.host, op.app_id, window)) by {
        assert(shown(world.host.windows[window]));
        assert forall|i: int| 0 <= i < window implies (#[trigger] world.host.windows[i]).app_id
            != op.app_id by {
            assert(!shown(world.host.windows[i]));
        }
    }
    assert(world.dispatched(op, content).1 == Some(
        CallModel {
            window: world.host.windows[window].key,
            script: asking(op.op_id, world.doc.intents[intent].intent_type, op.intent_id),
        },
    ));
}

/// Where the first passing item stands.
proof fn lemma_first_index<A>(items: Seq<A>, test: spec_fn(A) -> bool) -> (index: int)
    requires
        crate::list::first(items, test) is Some,
    ensures
        0 <= index < items.len(),
        test(items[index]),
        forall|i: int| 0 <= i < index ==> !test(#[trigger] items[i]),
    decreases items.len(),
{
    if test(items[0]) {
        0
    } else {
        let rest = items.drop_first();
        let found = lemma_first_index(rest, test);
        assert forall|i: int| 0 <= i < found + 1 implies !test(#[trigger] items[i]) by {
            if i > 0 {
                assert(rest[i - 1] == items[i]);
            }
        }
        found + 1
    }
}

/// A "transfer" asks its source exactly as a "get" of the same intent does.
pub proof fn law_transfer_asks_as_a_get_does(
    world: World,
    op: OpModel,
    content: Option<Seq<char>>,
    other: Option<Seq<char>>,
)
    requires
        world.dispatched(OpModel { kind: "transfer"@, ..op }, content).1 is Some,
    ensures
        world.dispatched(OpModel { kind: "get"@, ..op }, other) == world.dispatched(
            OpModel { kind: "transfer"@, ..op },
            content,
        ),
{
    lemma_kinds_differ();
}

/// A "transfer" to an app that has no intent of the type is refused, and the refusal names the
/// app and the type.
pub proof fn law_transfer_without_taker_is_refused(
    world: World,
    op: OpModel,
    content: Option<Seq<char>>,
    target: Seq<char>,
    intent: int,
)
    requires
        op.kind == "transfer"@,
        first_intent(world.doc, op.app_id, op.intent_id, intent),
        goes_to(op, target),
        !takes_type(world.doc, target, world.doc.intents[intent].intent_type),
    ensures
        world.dispatched(op, content) == (
            answered(
                world,
                op,
                None,
                Some(
                    "target app '"@ + target + "' has no intent of type '"@
                        + world.doc.intents[intent].intent_type + "'"@,
                ),
            ),
            None::<CallModel>,
        ),
{
    lemma_answered(world, op);
    lemma_target(op, target);
    super::registry::law_look_up_finds_the_first_registered(
        world.doc,
        op.app_id,
        op.intent_id,
        intent,
    );
    super::registry::law_app_supports_the_types_it_registered(
        world.doc,
        target,
        world.doc.intents[intent].intent_type,
    );
}

/// A "set" hands its content, from the agent, to the first window of its app, and is answered at
/// once, without content. Without content to hand over, or without a window of the app, it is
/// refused.
pub proof fn law_set_hands_over_and_is_answered(
    world: World,
    op: OpModel,
    content: Option<Seq<char>>,
    intent: int,
    window: int,
)
    requires
        op.kind == "set"@,
        first_intent(world.doc, op.app_id, op.intent_id, intent),
    ensures
        content is None ==> world.dispatched(op, content) == (
            answered(world, op, None, Some("invalid content for intent scheme"@)),
            None::<CallModel>,
        ),
        content is Some && first_window(world.host, op.app_id, window)
            ==> world.dispatched(op, content) == (
            answered(world, op, None, None),
            Some(
                CallModel {
                    window: world.host.windows[window].key,
                    script: handing(
                        world.doc.intents[intent].intent_type,
                        op.intent_id,
                        content->Some_0,
                        "agent"@,
                    ),
                },
            ),
        ),
        content is Some && no_window(world.host, op.app_id) ==> world.dispatched(op, content) == (
            answered(world, op, None, Some("app window not found"@)),
            None::<CallModel>,
        ),
{
    lemma_kinds_differ();
    lemma_answered(world, op);
    lemma_window(world.host, op.app_id);
    super::registry::law_look_up_finds_the_first_registered(
        world.doc,
        op.app_id,
        op.intent_id,
        intent,
    );
}

/// An operation of any other kind is refused.
pub proof fn law_operation_of_another_kind_is_refused(
    world: World,
    op: OpModel,
    content: Option<Seq<char>>,
    intent: int,
)
    requires
        op.kind != "get"@,
        op.kind != "set"@,
        op.kind != "transfer"@,
        first_intent(world.doc, op.app_id, op.intent_id, intent),
    ensures
        world.dispatched(op, content) == (
            answered(world, op, None, Some("unknown intent op kind"@)),
            None::<CallModel>,
        ),
{
    lemma_answered(world, op);
    super::registry::law_look_up_finds_the_first_registered(
        world.doc,
        op.app_id,
        op.intent_id,
        intent,
    );
}

/// An app's answer that repeats the request id of a pending operation settles it. A "get" is
/// answered with the content. A "transfer" waits on, and its content is ready for delivery under
/// the type and the id that the app gives. An answer without content is a failure of either. An
/// operation of another kind takes no answer, and an answer to no pending operation says nothing.
pub proof fn law_answer_finds_its_operation(
    world: World,
    op_id: Seq<char>,
    intent_type: Seq<char>,
    intent_id: Seq<char>,
    content: Option<Seq<char>>,
    index: int,
)
    ensures
        ({
            let told = world.told(
                MessageModel::Content { op_id, intent_type, intent_id, content },
            );
            let op = world.host.pending[index];
            &&& none_waits(world.host, op_id) ==> told == (world, None::<EventModel>)
            &&& waits_at(world.host, op_id, index) ==> {
                &&& (op.kind == "get"@ || op.kind == "transfer"@) && content is None ==> told == (
                    answered(world, op, None, Some("invalid content for intent scheme"@)),
                    None::<EventModel>,
                )
                &&& op.kind == "get"@ && content is Some ==> told == (
                    answered(world, op, content, None),
                    None::<EventModel>,
                )
                &&& op.kind == "transfer"@ && content is Some ==> told == (
                    world,
                    Some(
                        EventModel::IntentContentReady {
                            op_id: op_id,
                            intent_type: intent_type,
                            intent_id: intent_id,
                            data: content->Some_0,
                        },
                    ),
                )
                &&& op.kind != "get"@ && op.kind != "transfer"@ ==> told == (
                    world,
                    None::<EventModel>,
                )
            }
        }),
{
    lemma_kinds_differ();
    lemma_pending(world.host, op_id);
    lemma_answered(world, world.host.pending[index]);
}

/// A request and its answer belong together: where a pending "get" or "transfer" is dispatched and
/// a script goes out, the app's answer under the request id and the intent id of that script finds
/// the operation. A "get" is then answered under its own id with the content and waits no more; a
/// "transfer" gets its content delivered under its own id and intent.
pub proof fn law_answer_to_a_request_finds_the_dispatched_operation(
    world: World,
    content: Option<Seq<char>>,
    intent_type: Seq<char>,
    data: Seq<char>,
    index: int,
)
    requires
        waits_at(world.host, world.host.pending[index].op_id, index),
        world.host.pending[index].kind == "get"@ || world.host.pending[index].kind == "transfer"@,
        world.dispatched(world.host.pending[index], content).1 is Some,
    ensures
        ({
            let op = world.host.pending[index];
            let sent = world.dispatched(op, content);
            let told = sent.0.told(
                MessageModel::Content {
                    op_id: op.op_id,
                    intent_type,
                    intent_id: op.intent_id,
                    content: Some(data),
                },
            );
            &&& exists|registered: Seq<char>|
                sent.1->Some_0.script == #[trigger] asking(op.op_id, registered, op.intent_id)
            &&& op.kind == "get"@ ==> told == (
                answered(world, op, Some(data), None),
                None::<EventModel>,
            ) && none_waits(told.0.host, op.op_id)
            &&& op.kind == "transfer"@ ==> told == (
                world,
                Some(
                    EventModel::IntentContentReady {
                        op_id: op.op_id,
                        intent_type: intent_type,
                        intent_id: op.intent_id,
                        data: data,
                    },
                ),
            )
        }),
{
    let op = world.host.pending[index];
    law_every_request_names_its_operation(world, op, content);
    law_answer_finds_its_operation(world, op.op_id, intent_type, op.intent_id, Some(data), index);
    let (intent, window) = choose|intent: int, window: int|
        #![trigger world.doc.intents[intent], world.host.windows[window]]
        first_intent(world.doc, op.app_id, op.intent_id, intent) && first_window(
            world.host,
            op.app_id,
            window,
        ) && world.dispatched(op, content).1 == Some(
            CallModel {
                window: world.host.windows[window].key,
                script: asking(op.op_id, world.doc.intents[intent].intent_type, op.intent_id),
            },
        );
    let after = answered(world, op, Some(data), None).host;
    assert forall|i: int| 0 <= i < after.pending.len() implies (#[trigger] after.pending[i]).op_id
        != op.op_id by {
        super::lemma_filter_item(world.host.pending, ops_but(op.op_id), i);
    }
}

/// The content of a pending "transfer" goes, as it is, to the first window of the target, under
/// the type and the id that came with it. The target has the intent registered from then on, and
/// the registration is announced if it is new. The transfer is answered without content.
pub proof fn law_transferred_content_reaches_the_target(
    world: World,
    op_id: Seq<char>,
    intent_type: Seq<char>,
    intent_id: Seq<char>,
    data: Seq<char>,
    target: Seq<char>,
    index: int,
    window: int,
)
    requires
        waits_at(world.host, op_id, index),
        goes_to(world.host.pending[index], target),
        first_window(world.host, target, window),
    ensures
        ({
            let op = world.host.pending[index];
            let key = IntentModel { app_id: target, intent_type, intent_id };
            let known = world.doc.intents.contains(key);
            let doc = DocModel {
                intents: if known {
                    world.doc.intents
                } else {
                    world.doc.intents + seq![key]
                },
                intent_registrations: if known {
                    world.doc.intent_registrations
                } else {
                    world.doc.intent_registrations + seq![key]
                },
                ..world.doc
            };
            world.delivered(op_id, intent_type, intent_id, data) == (
                answered(World { host: world.host, doc }, op, None, None),
                Some(
                    CallModel {
                        window: world.host.windows[window].key,
                        script: handing(intent_type, intent_id, data, "transfer"@),
                    },
                ),
            )
        }),
{
    let op = world.host.pending[index];
    let key = IntentModel { app_id: target, intent_type, intent_id };
    lemma_pending(world.host, op_id);
    lemma_window(world.host, target);
    lemma_target(op, target);
    super::registry::law_registering_enters_and_announces_what_is_new(world.doc, key);
    assert(crate::registry::intent(target, intent_type, intent_id) == key);
    lemma_answered(World { doc: world.doc.registered(key), ..world }, op);
}

/// Content that arrives when no window of the target is on screen fails the transfer; content for
/// no pending operation changes nothing.
pub proof fn law_content_without_target_window_fails_the_transfer(
    world: World,
    op_id: Seq<char>,
    intent_type: Seq<char>,
    intent_id: Seq<char>,
    data: Seq<char>,
    target: Seq<char>,
    index: int,
)
    ensures
        none_waits(world.host, op_id) ==> world.delivered(op_id, intent_type, intent_id, data) == (
            world,
            None::<CallModel>,
        ),
        waits_at(world.host, op_id, index) && goes_to(world.host.pending[index], target)
            && no_window(world.host, target) ==> world.delivered(
            op_id,
            intent_type,
            intent_id,
            data,
        ) == (
            answered(
                world,
                world.host.pending[index],
                None,
                Some("target app window not found"@),
            ),
            None::<CallModel>,
        ),
{
    let op = world.host.pending[index];
    lemma_pending(world.host, op_id);
    lemma_window(world.host, target);
    lemma_answered(world, op);
    if goes_to(op, target) {
        lemma_target(op, target);
    }
}

} // verus!
