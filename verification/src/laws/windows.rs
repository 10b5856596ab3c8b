//! What an app's registrations do, and what happens when its window comes and goes.

use vstd::prelude::*;

use crate::doc::DocModel;
use crate::doc::IntentModel;
use crate::doc::OpModel;
use crate::doc::ResponseModel;
use crate::doc::WebViewStatus;
use crate::host::EventModel;
use crate::host::HostModel;
use crate::host::WindowModel;
use crate::host::World;
use crate::message::MessageModel;

verus! {

broadcast use vstd::seq_lib::group_filter_ensures;

/// Tells the texts that are another.
pub open spec fn texts_but(text: Seq<char>) -> spec_fn(Seq<char>) -> bool {
    |other: Seq<char>| !(other == text)
}

/// Tells the windows under other keys.
pub open spec fn windows_but(key: u64) -> spec_fn(WindowModel) -> bool {
    |window: WindowModel| !(window.key == key)
}

/// Tells the operations that read from an app or deliver to it.
pub open spec fn ops_of(app_id: Seq<char>) -> spec_fn(OpModel) -> bool {
    |op: OpModel| op.app_id == app_id || (op.target_app matches Some(target) && target == app_id)
}

/// Tells the operations that have nothing to do with an app.
pub open spec fn ops_apart_from(app_id: Seq<char>) -> spec_fn(OpModel) -> bool {
    |op: OpModel| op.app_id != app_id && (op.target_app matches Some(target) ==> target != app_id)
}

/// After an app's registration of an intent of type `notes` under an id of one to 256 characters,
/// the registry holds that intent, whatever else the app or another has registered; and it is
/// announced exactly if the registry did not hold it before. Nothing else changes.
pub proof fn law_registration_enters_the_intent(
    world: World,
    app_id: Seq<char>,
    intent_type: Seq<char>,
    intent_id: Seq<char>,
)
    requires
        intent_type == "notes"@,
        0 < intent_id.len() <= 256,
    ensures
        ({
            let told = world.told(MessageModel::Register { app_id, intent_type, intent_id });
            let key = IntentModel { app_id, intent_type, intent_id };
            &&& told.1 is None
            &&& told.0.host == world.host
            &&& told.0.doc.intents.contains(key)
            &&& world.doc.intents.contains(key) ==> told.0 == world
            &&& !world.doc.intents.contains(key) ==> told.0.doc == (DocModel {
                intents: world.doc.intents + seq![key],
                intent_registrations: world.doc.intent_registrations + seq![key],
                ..world.doc
            })
        }),
{
    let key = IntentModel { app_id, intent_type, intent_id };
    assert(crate::registry::intent(app_id, intent_type, intent_id) == key);
    super::registry::law_registering_enters_and_announces_what_is_new(world.doc, key);
}

/// A registration of another type, or under an id that is empty or too long, changes nothing.
pub proof fn law_unacceptable_registration_changes_nothing(
    world: World,
    app_id: Seq<char>,
    intent_type: Seq<char>,
    intent_id: Seq<char>,
)
    requires
        intent_type != "notes"@ || intent_id.len() == 0 || intent_id.len() > 256,
    ensures
        world.told(MessageModel::Register { app_id, intent_type, intent_id }) == (
            world,
            None::<EventModel>,
        ),
{
}

/// What one app registers does not hinder what is registered after it: of two registrations that
/// are both acceptable, both intents are in the registry, in either order.
pub proof fn law_registrations_do_not_hinder_each_other(
    world: World,
    first: IntentModel,
    second: IntentModel,
)
    requires
        first.intent_type == "notes"@,
        second.intent_type == "notes"@,
        0 < first.intent_id.len() <= 256,
        0 < second.intent_id.len() <= 256,
    ensures
        ({
            let after = world.told(
                MessageModel::Register {
                    app_id: first.app_id,
                    intent_type: first.intent_type,
                    intent_id: first.intent_id,
                },
            ).0.told(
                MessageModel::Register {
                    app_id: second.app_id,
                    intent_type: second.intent_type,
                    intent_id: second.intent_id,
                },
            ).0;
            &&& after.doc.intents.contains(first)
            &&& after.doc.intents.contains(second)
        }),
{
    let middle = world.told(
        MessageModel::Register {
            app_id: first.app_id,
            intent_type: first.intent_type,
            intent_id: first.intent_id,
        },
    ).0;
    law_registration_enters_the_intent(
        world,
        first.app_id,
        first.intent_type,
        first.intent_id,
    );
    law_registration_enters_the_intent(
        middle,
        second.app_id,
        second.intent_type,
        second.intent_id,
    );
    assert(crate::registry::intent(second.app_id, second.intent_type, second.intent_id) == second);
    super::registry::law_registering_enters_and_announces_what_is_new(middle.doc, second);
}

/// After an app's unregistration, whatever its type and id, the registry holds the other intents
/// in their order, and the unregistration is announced. Nothing else changes. A message that says
/// nothing changes nothing.
pub proof fn law_unregistration_strikes_out_the_intent(
    world: World,
    app_id: Seq<char>,
    intent_type: Seq<char>,
    intent_id: Seq<char>,
)
    ensures
        world.told(MessageModel::Unregister { app_id, intent_type, intent_id }) == (
            World {
                host: world.host,
                doc: DocModel {
                    intents: world.doc.intents.filter(
                        super::registry::intents_but(app_id, intent_type, intent_id),
                    ),
                    intent_unregistrations: world.doc.intent_unregistrations + seq![
                        IntentModel { app_id, intent_type, intent_id },
                    ],
                    ..world.doc
                },
            },
            None::<EventModel>,
        ),
        world.told(MessageModel::Ignored) == (world, None::<EventModel>),
{
    super::registry::law_unregistering_strikes_out_and_announces(
        world.doc,
        app_id,
        intent_type,
        intent_id,
    );
    assert(crate::registry::intent(app_id, intent_type, intent_id) == (IntentModel {
        app_id,
        intent_type,
        intent_id,
    }));
}

/// When a web view comes on screen, it is no longer being launched; its window comes last, in
/// place of one under the same key, and belongs to the app. Its entries in the document are
/// launched, and keep their id and html. Nothing else changes.
pub proof fn law_view_on_screen_has_its_window(world: World, key: u64, id: Seq<char>)
    ensures
        ({
            let after = world.launched(key, id);
            &&& after.host.pending == world.host.pending
            &&& after.host.launching == world.host.launching.filter(texts_but(id))
            &&& after.host.windows == world.host.windows.filter(windows_but(key)) + seq![
                WindowModel { key, app_id: id },
            ]
            &&& after.doc == (DocModel { webviews: after.doc.webviews, ..world.doc })
            &&& after.doc.webviews.len() == world.doc.webviews.len()
            &&& forall|i: int|
                0 <= i < world.doc.webviews.len() ==> {
                    &&& (#[trigger] after.doc.webviews[i]).id == world.doc.webviews[i].id
                    &&& after.doc.webviews[i].html == world.doc.webviews[i].html
                    &&& after.doc.webviews[i].status == if world.doc.webviews[i].id == id {
                        WebViewStatus::Launched
                    } else {
                        world.doc.webviews[i].status
                    }
                }
        }),
{
    let after = world.launched(key, id);
    assert(crate::host::text_other_than(id) =~= texts_but(id));
    assert(crate::host::window_not_under(key) =~= windows_but(key));
    assert(after.host.windows =~= world.host.windows.filter(windows_but(key)) + seq![
        WindowModel { key, app_id: id },
    ]);
}

/// When a window closes, every pending operation that reads from its app or delivers to it fails,
/// in order, because the app closed; the others wait on in their order. The app's web views and
/// intents are gone from the document, those of other apps stay, and nothing else changes.
pub proof fn law_closed_window_fails_the_operations_of_its_app(world: World, key: u64, index: int)
    requires
        0 <= index < world.host.windows.len(),
        world.host.windows[index].key == key,
        forall|i: int| 0 <= i < index ==> (#[trigger] world.host.windows[i]).key != key,
    ensures
        ({
            let app_id = world.host.windows[index].app_id;
            let failed = world.host.pending.filter(ops_of(app_id));
            let after = world.closed(key);
            let responses = after.doc.intent_responses;
            let before = world.doc.intent_responses;
            &&& after.host == (HostModel {
                windows: world.host.windows.filter(windows_but(key)),
                pending: world.host.pending.filter(ops_apart_from(app_id)),
                ..world.host
            })
            &&& after.doc == (DocModel {
                webviews: world.doc.webviews.filter(super::registry::views_but(app_id)),
                intents: world.doc.intents.filter(super::registry::intents_of_all_but(app_id)),
                intent_responses: responses,
                ..world.doc
            })
            &&& responses.len() == before.len() + failed.len()
            &&& forall|i: int| 0 <= i < before.len() ==> (#[trigger] responses[i]) == before[i]
            &&& forall|i: int|
                before.len() <= i < responses.len() ==> (#[trigger] responses[i]) == (
                ResponseModel {
                    op_id: failed[i - before.len()].op_id,
                    kind: failed[i - before.len()].kind,
                    app_id: failed[i - before.len()].app_id,
                    intent_id: failed[i - before.len()].intent_id,
                    data: None,
                    is_error: true,
                    error: Some("app closed"@),
                })
        }),
{
    let app_id = world.host.windows[index].app_id;
    crate::list::lemma_first_at(world.host.windows, crate::host::window_under(key), index);
    super::registry::law_app_goes_with_its_views_and_intents(world.doc, app_id);
    assert(crate::host::window_not_under(key) =~= windows_but(key));
    assert(crate::host::ops_involving(app_id) =~= ops_of(app_id));
    assert(crate::host::ops_not_involving(app_id) =~= ops_apart_from(app_id));
}

/// Closing a window that is not on screen changes nothing.
pub proof fn law_closing_no_window_changes_nothing(world: World, key: u64)
    requires
        forall|i: int|
            0 <= i < world.host.windows.len() ==> (#[trigger] world.host.windows[i]).key != key,
    ensures
        world.closed(key) == world,
{
    let test = crate::host::window_under(key);
    crate::list::lemma_first(world.host.windows, test);
    if crate::list::some_item(world.host.windows, test) {
        let i = choose|i: int|
            0 <= i < world.host.windows.len() && test(#[trigger] world.host.windows[i]);
        assert(world.host.windows[i].key != key);
    }
}

/// A pending operation that reads from the closed app or delivers to it is answered as failed, and
/// one that does neither waits on.
pub proof fn law_each_pending_operation_fails_or_waits_on(
    world: World,
    key: u64,
    index: int,
    op: OpModel,
)
    requires
        0 <= index < world.host.windows.len(),
        world.host.windows[index].key == key,
        forall|i: int| 0 <= i < index ==> (#[trigger] world.host.windows[i]).key != key,
        world.host.pending.contains(op),
    ensures
        ({
            let app_id = world.host.windows[index].app_id;
            let after = world.closed(key);
            let involved = op.app_id == app_id || op.target_app == Some(app_id);
            &&& involved ==> !after.host.pending.contains(op)
                && after.doc.intent_responses.contains(
                ResponseModel {
                    op_id: op.op_id,
                    kind: op.kind,
                    app_id: op.app_id,
                    intent_id: op.intent_id,
                    data: None,
                    is_error: true,
                    error: Some("app closed"@),
                },
            )
            &&& !involved ==> after.host.pending.contains(op)
        }),
{
    let app_id = world.host.windows[index].app_id;
    let after = world.closed(key);
    law_closed_window_fails_the_operations_of_its_app(world, key, index);
    if op.app_id == app_id || op.target_app == Some(app_id) {
        super::lemma_filter_keeps(world.host.pending, ops_of(app_id), op);
        let failed = world.host.pending.filter(ops_of(app_id));
        let k = choose|k: int| 0 <= k < failed.len() && failed[k] == op;
        let i = world.doc.intent_responses.len() + k;
        assert(after.doc.intent_responses[i].op_id == op.op_id);
        assert(after.doc.intent_responses.contains(after.doc.intent_responses[i]));
        if after.host.pending.contains(op) {
            let j = choose|j: int|
                0 <= j < after.host.pending.len() && after.host.pending[j] == op;
            super::lemma_filter_item(world.host.pending, ops_apart_from(app_id), j);
        }
    } else {
        super::lemma_filter_keeps(world.host.pending, ops_apart_from(app_id), op);
    }
}

/// A new host has nothing on screen and nothing to do.
pub proof fn law_new_host_has_nothing_to_do()
    ensures
        crate::host::new_host().launching.len() == 0,
        crate::host::new_host().pending.len() == 0,
        crate::host::new_host().windows.len() == 0,
{
}

} // verus!
