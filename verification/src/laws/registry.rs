//! What each change does to the shared document, and what it leaves alone.

use vstd::prelude::*;

use crate::doc::DocModel;
use crate::doc::IntentModel;
use crate::doc::OpModel;
use crate::doc::ResponseModel;
use crate::doc::WebViewModel;
use crate::doc::WebViewStatus;

verus! {

broadcast use vstd::seq_lib::group_filter_ensures;

/// Tells the web views whose id is another.
pub open spec fn views_but(id: Seq<char>) -> spec_fn(WebViewModel) -> bool {
    |view: WebViewModel| !(view.id == id)
}

/// Tells the intents of other apps.
pub open spec fn intents_of_all_but(app_id: Seq<char>) -> spec_fn(IntentModel) -> bool {
    |entry: IntentModel| !(entry.app_id == app_id)
}

/// Tells the intents that differ from one in some field.
pub open spec fn intents_but(
    app_id: Seq<char>,
    intent_type: Seq<char>,
    intent_id: Seq<char>,
) -> spec_fn(IntentModel) -> bool {
    |entry: IntentModel|
        !(entry.app_id == app_id && entry.intent_type == intent_type && entry.intent_id
            == intent_id)
}

/// A look-up finds the type of the intent that the app registered first under the id.
pub proof fn law_look_up_finds_the_first_registered(
    doc: DocModel,
    app_id: Seq<char>,
    intent_id: Seq<char>,
    index: int,
)
    requires
        0 <= index < doc.intents.len(),
        doc.intents[index].app_id == app_id,
        doc.intents[index].intent_id == intent_id,
        forall|i: int|
            0 <= i < index ==> !((#[trigger] doc.intents[i]).app_id == app_id
                && doc.intents[i].intent_id == intent_id),
    ensures
        doc.intent_type_of(app_id, intent_id) == Some(doc.intents[index].intent_type),
{
    crate::list::lemma_first_at(
        doc.intents,
        crate::registry::intent_called(app_id, intent_id),
        index,
    );
}

/// A look-up finds nothing if and only if the app has no intent under the id.
pub proof fn law_look_up_finds_only_what_is_registered(
    doc: DocModel,
    app_id: Seq<char>,
    intent_id: Seq<char>,
)
    ensures
        doc.intent_type_of(app_id, intent_id) is None <==> forall|i: int|
            0 <= i < doc.intents.len() ==> !((#[trigger] doc.intents[i]).app_id == app_id
                && doc.intents[i].intent_id == intent_id),
        doc.intent_type_of(app_id, intent_id) matches Some(intent_type) ==> doc.intents.contains(
            IntentModel { app_id, intent_type, intent_id },
        ),
{
    let test = crate::registry::intent_called(app_id, intent_id);
    crate::list::lemma_first(doc.intents, test);
    if let Some(found) = crate::list::first(doc.intents, test) {
        assert(found =~= (IntentModel { app_id, intent_type: found.intent_type, intent_id }));
        let i = choose|i: int| 0 <= i < doc.intents.len() && doc.intents[i] == found;
        assert(test(doc.intents[i]));
    }
    if crate::list::some_item(doc.intents, test) {
        let i = choose|i: int| 0 <= i < doc.intents.len() && test(#[trigger] doc.intents[i]);
        assert(doc.intents[i].app_id == app_id && doc.intents[i].intent_id == intent_id);
    } else {
        assert forall|i: int| 0 <= i < doc.intents.len() implies !((#[trigger] doc.intents[i]).app_id
            == app_id && doc.intents[i].intent_id == intent_id) by {
            assert(!test(doc.intents[i]));
        }
    }
}

/// An app supports a type if and only if it has an intent of that type in the registry.
pub proof fn law_app_supports_the_types_it_registered(
    doc: DocModel,
    app_id: Seq<char>,
    intent_type: Seq<char>,
)
    ensures
        doc.app_supports(app_id, intent_type) <==> exists|intent_id: Seq<char>|
            doc.intents.contains(#[trigger] crate::registry::intent(app_id, intent_type, intent_id)),
        doc.app_supports(app_id, intent_type) <==> exists|i: int|
            0 <= i < doc.intents.len() && (#[trigger] doc.intents[i]).app_id == app_id
                && doc.intents[i].intent_type == intent_type,
{
    let test = crate::registry::intent_of_type(app_id, intent_type);
    if doc.app_supports(app_id, intent_type) {
        let i = choose|i: int| 0 <= i < doc.intents.len() && test(#[trigger] doc.intents[i]);
        let id = doc.intents[i].intent_id;
        assert(doc.intents[i] =~= crate::registry::intent(app_id, intent_type, id));
        assert(doc.intents.contains(crate::registry::intent(app_id, intent_type, id)));
    }
    if exists|intent_id: Seq<char>|
        doc.intents.contains(#[trigger] crate::registry::intent(app_id, intent_type, intent_id)) {
        let id = choose|intent_id: Seq<char>|
            doc.intents.contains(#[trigger] crate::registry::intent(app_id, intent_type, intent_id));
        let i = choose|i: int|
            0 <= i < doc.intents.len() && doc.intents[i] == crate::registry::intent(
                app_id,
                intent_type,
                id,
            );
        assert(test(doc.intents[i]));
    }
    if exists|i: int|
        0 <= i < doc.intents.len() && (#[trigger] doc.intents[i]).app_id == app_id
            && doc.intents[i].intent_type == intent_type {
        let i = choose|i: int|
            0 <= i < doc.intents.len() && (#[trigger] doc.intents[i]).app_id == app_id
                && doc.intents[i].intent_type == intent_type;
        assert(test(doc.intents[i]));
    }
}

/// The name of an intent holds the app, the type and the id, each under its own field.
pub proof fn law_intent_is_named_by_app_type_and_id(
    app_id: Seq<char>,
    intent_type: Seq<char>,
    intent_id: Seq<char>,
)
    ensures
        crate::registry::intent(app_id, intent_type, intent_id).app_id == app_id,
        crate::registry::intent(app_id, intent_type, intent_id).intent_type == intent_type,
        crate::registry::intent(app_id, intent_type, intent_id).intent_id == intent_id,
{
}

/// After a registration the registry holds the intent, whatever it held before, and has lost
/// nothing. A new intent comes last and is announced; one that was there is not announced again.
/// Nothing else of the document changes.
pub proof fn law_registering_enters_and_announces_what_is_new(doc: DocModel, key: IntentModel)
    ensures
        doc.registered(key).intents.contains(key),
        doc.intents.contains(key) ==> doc.registered(key) == doc,
        !doc.intents.contains(key) ==> doc.registered(key) == (DocModel {
            intents: doc.intents + seq![key],
            intent_registrations: doc.intent_registrations + seq![key],
            ..doc
        }),
        forall|other: IntentModel| #[trigger]
            doc.intents.contains(other) ==> doc.registered(key).intents.contains(other),
{
    let after = doc.registered(key);
    if !doc.intents.contains(key) {
        assert(after.intents =~= doc.intents + seq![key]);
        assert(after.intent_registrations =~= doc.intent_registrations + seq![key]);
        assert(after.intents[doc.intents.len() as int] == key);
        assert forall|other: IntentModel| #[trigger]
            doc.intents.contains(other) implies after.intents.contains(other) by {
            let i = choose|i: int| 0 <= i < doc.intents.len() && doc.intents[i] == other;
            assert(after.intents[i] == other);
        }
    }
}

/// After an unregistration the registry holds the other intents, in their order, and the
/// unregistration is announced, whether or not the intent was there. Nothing else of the document
/// changes.
pub proof fn law_unregistering_strikes_out_and_announces(
    doc: DocModel,
    app_id: Seq<char>,
    intent_type: Seq<char>,
    intent_id: Seq<char>,
)
    ensures
        doc.unregistered(IntentModel { app_id, intent_type, intent_id }) == (DocModel {
            intents: doc.intents.filter(intents_but(app_id, intent_type, intent_id)),
            intent_unregistrations: doc.intent_unregistrations + seq![
                IntentModel { app_id, intent_type, intent_id },
            ],
            ..doc
        }),
{
    let key = IntentModel { app_id, intent_type, intent_id };
    let left = crate::registry::other_than(key);
    let right = intents_but(app_id, intent_type, intent_id);
    assert forall|entry: IntentModel| #[trigger] left(entry) == right(entry) by {
        if right(entry) == false {
            assert(entry =~= key);
        }
    }
    assert(left =~= right);
    assert(doc.unregistered(key).intent_unregistrations =~= doc.intent_unregistrations + seq![key]);
}

/// The answer to an operation repeats its id, its kind, its app and its intent. An answer with
/// success tells of no failure; a failure has its reason and no content.
pub proof fn law_answers_repeat_the_operation(
    op: OpModel,
    data: Option<Seq<char>>,
    error: Seq<char>,
)
    ensures
        crate::registry::answer(op, data) == (ResponseModel {
            op_id: op.op_id,
            kind: op.kind,
            app_id: op.app_id,
            intent_id: op.intent_id,
            data: data,
            is_error: false,
            error: None,
        }),
        crate::registry::failure(op, error) == (ResponseModel {
            op_id: op.op_id,
            kind: op.kind,
            app_id: op.app_id,
            intent_id: op.intent_id,
            data: None,
            is_error: true,
            error: Some(error),
        }),
{
}

/// A response is written behind the earlier ones, and nothing else of the document changes.
pub proof fn law_response_comes_last(doc: DocModel, response: ResponseModel)
    ensures
        doc.responded(response) == (DocModel {
            intent_responses: doc.intent_responses + seq![response],
            ..doc
        }),
{
    assert(doc.responded(response).intent_responses =~= doc.intent_responses + seq![response]);
}

/// When a web view comes on screen, every entry with its id is launched, whatever its status was,
/// and keeps its place, its id and its html; every other entry, and everything else in the
/// document, stays as it was.
pub proof fn law_launched_view_changes_status_alone(doc: DocModel, id: Seq<char>)
    ensures
        doc.view_launched(id) == (DocModel { webviews: doc.view_launched(id).webviews, ..doc }),
        doc.view_launched(id).webviews.len() == doc.webviews.len(),
        forall|i: int|
            #![trigger doc.view_launched(id).webviews[i]]
            0 <= i < doc.webviews.len() ==> {
                &&& doc.view_launched(id).webviews[i].id == doc.webviews[i].id
                &&& doc.view_launched(id).webviews[i].html == doc.webviews[i].html
                &&& doc.webviews[i].id == id ==> doc.view_launched(id).webviews[i].status
                    == WebViewStatus::Launched
                &&& doc.webviews[i].id != id ==> doc.view_launched(id).webviews[i].status
                    == doc.webviews[i].status
            },
{
}

/// When an app goes, its web views and its intents go, and nothing else: those of other apps stay
/// in their order.
pub proof fn law_app_goes_with_its_views_and_intents(doc: DocModel, app_id: Seq<char>)
    ensures
        doc.without_app(app_id) == (DocModel {
            webviews: doc.webviews.filter(views_but(app_id)),
            intents: doc.intents.filter(intents_of_all_but(app_id)),
            ..doc
        }),
{
    assert(crate::registry::view_of_other_app(app_id) =~= views_but(app_id));
    assert(crate::registry::intent_of_other_app(app_id) =~= intents_of_all_but(app_id));
}

} // verus!
