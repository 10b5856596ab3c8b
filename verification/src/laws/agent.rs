//! What the agent asks of the document, and what it is told of it.

use vstd::prelude::*;

use crate::bridge::NoticeModel;
use crate::bridge::RequestModel;
use crate::doc::AnnouncementModel;
use crate::doc::DocModel;
use crate::doc::EntityModel;
use crate::doc::EntityOpModel;
use crate::doc::EntityResponseModel;
use crate::doc::WebViewStatus;
use crate::host::EventModel;
use crate::host::HostModel;
use crate::host::World;

verus! {

/// Tells the entities of other apps.
pub open spec fn entities_of_all_but(app_id: Seq<char>) -> spec_fn(EntityModel) -> bool {
    |entity: EntityModel| !(entity.app_id == app_id)
}

/// After a launch request, whatever the document held before, its last web view has the requested
/// id and html and waits to be launched. The views before it, and everything else in the document,
/// stay as they were.
pub proof fn law_requested_view_waits_to_be_launched(
    doc: DocModel,
    app_id: Seq<char>,
    html: Seq<char>,
)
    ensures
        ({
            let after = doc.requested(RequestModel::LaunchWebView { app_id, html });
            &&& after.webviews.len() == doc.webviews.len() + 1
            &&& after.webviews.last().id == app_id
            &&& after.webviews.last().html == html
            &&& after.webviews.last().status == WebViewStatus::Pending
            &&& after.webviews.drop_last() == doc.webviews
            &&& after == (DocModel { webviews: after.webviews, ..doc })
        }),
{
    let after = doc.requested(RequestModel::LaunchWebView { app_id, html });
    assert(after.webviews.drop_last() =~= doc.webviews);
}

/// A scan that follows a launch request asks for a web view of the requested id, unless one is
/// being launched; either way one is being launched after the scan.
pub proof fn law_requested_view_is_launched_by_the_next_scan(
    host: HostModel,
    doc: DocModel,
    app_id: Seq<char>,
    html: Seq<char>,
)
    ensures
        ({
            let world = World {
                host,
                doc: doc.requested(RequestModel::LaunchWebView { app_id, html }),
            };
            &&& !host.launching.contains(app_id) ==> exists|i: int|
                0 <= i < world.scan_events().len() && (
                (#[trigger] world.scan_events()[i]) matches EventModel::WebAppLaunch { id, html }
                    && id == app_id)
            &&& world.scanned().host.launching.contains(app_id)
        }),
{
    let world = World { host, doc: doc.requested(RequestModel::LaunchWebView { app_id, html }) };
    let webviews = world.doc.webviews;
    let due = crate::host::views_due(webviews, host.launching);
    let ids = crate::host::view_ids(due);
    crate::laws::lemma_views_due(webviews, host.launching);
    assert(webviews[webviews.len() - 1].status == WebViewStatus::Pending);
    assert((host.launching + ids).contains(app_id));
    if !host.launching.contains(app_id) {
        let k = choose|k: int|
            0 <= k < (host.launching + ids).len() && (host.launching + ids)[k] == app_id;
        if k < host.launching.len() {
            assert(host.launching[k] == app_id);
        }
        let i = k - host.launching.len();
        assert(ids[i] == app_id);
        assert(world.scan_events()[i] == (EventModel::WebAppLaunch {
            id: due[i].id,
            html: due[i].html,
        }));
    }
}

/// A close request takes the app's web views, intents and entities out of the document, and
/// nothing else: those of other apps stay in their order.
pub proof fn law_close_request_takes_out_the_app_alone(doc: DocModel, app_id: Seq<char>)
    ensures
        doc.requested(RequestModel::CloseWebView { app_id }) == (DocModel {
            webviews: doc.webviews.filter(super::registry::views_but(app_id)),
            intents: doc.intents.filter(super::registry::intents_of_all_but(app_id)),
            entities: doc.entities.filter(entities_of_all_but(app_id)),
            ..doc
        }),
{
    super::registry::law_app_goes_with_its_views_and_intents(doc, app_id);
    assert(crate::bridge::entity_of_other_app(app_id) =~= entities_of_all_but(app_id));
}

/// An entity operation is queued behind the earlier ones as it was requested, and nothing else of
/// the document changes.
pub proof fn law_requested_operation_is_queued_last(doc: DocModel, op: EntityOpModel)
    ensures
        doc.requested(RequestModel::EntityOp { op }) == (DocModel {
            entity_ops: doc.entity_ops + seq![op],
            ..doc
        }),
{
    assert(doc.requested(RequestModel::EntityOp { op }).entity_ops =~= doc.entity_ops + seq![op]);
}

/// The request to end marks the document, and changes nothing else of it; it is the only request
/// that ends the session.
pub proof fn law_exit_request_marks_the_document(doc: DocModel, request: RequestModel)
    ensures
        doc.requested(RequestModel::Exit) == (DocModel { should_exit: true, ..doc }),
        !(request is Exit) ==> doc.requested(request).should_exit == doc.should_exit,
        crate::bridge::goes_on_after(request) <==> !(request is Exit),
{
}

/// A document that asks for the end tells the agent nothing, and counts nothing as told.
pub proof fn law_nothing_is_told_at_the_end(doc: DocModel, announced: nat, answered: nat)
    requires
        doc.should_exit,
    ensures
        crate::bridge::notices_due(doc, announced, answered) is None,
{
}

/// Each notice holds exactly the entry of the log that it stands for, field by field, its failure
/// among them. The announcements that have not been told come first, then the responses, each in
/// the order of their log, and none else.
pub proof fn law_notices_hold_the_entries_of_the_logs(
    doc: DocModel,
    announced: nat,
    answered: nat,
)
    requires
        !doc.should_exit,
    ensures
        crate::bridge::notices_due(doc, announced, answered) matches Some(notices) && {
            let fresh = if announced < doc.announcements.len() {
                doc.announcements.len() - announced
            } else {
                0
            };
            let answers = if answered < doc.entity_responses.len() {
                doc.entity_responses.len() - answered
            } else {
                0
            };
            &&& notices.len() == fresh + answers
            &&& forall|i: int|
                0 <= i < fresh ==> ((#[trigger] notices[i]) matches NoticeModel::Announcement {
                    announcement,
                } && same_announcement(announcement, doc.announcements[announced + i]))
            &&& forall|i: int|
                fresh <= i < notices.len() ==> (
                (#[trigger] notices[i]) matches NoticeModel::EntityResponse { response }
                    && same_response(response, doc.entity_responses[answered + (i - fresh)]))
        },
{
}

/// Whether two announcements agree in every field.
pub open spec fn same_announcement(left: AnnouncementModel, right: AnnouncementModel) -> bool {
    &&& left.kind == right.kind
    &&& left.app_id == right.app_id
    &&& left.intent_type == right.intent_type
    &&& left.entity_id == right.entity_id
}

/// Whether two responses agree in every field.
pub open spec fn same_response(left: EntityResponseModel, right: EntityResponseModel) -> bool {
    &&& left.op_id == right.op_id
    &&& left.kind == right.kind
    &&& left.app_id == right.app_id
    &&& left.intent_type == right.intent_type
    &&& left.entity_id == right.entity_id
    &&& left.data == right.data
    &&& left.is_error == right.is_error
    &&& left.error == right.error
}

/// The notices of two logs are those of each entry by itself: the i-th stands for the i-th entry.
pub proof fn law_each_notice_stands_for_its_entry(
    announcements: Seq<AnnouncementModel>,
    responses: Seq<EntityResponseModel>,
)
    ensures
        crate::bridge::announcement_notices(announcements).len() == announcements.len(),
        forall|i: int|
            0 <= i < announcements.len() ==> ((#[trigger] crate::bridge::announcement_notices(
                announcements,
            )[i]) matches NoticeModel::Announcement { announcement } && same_announcement(
                announcement,
                announcements[i],
            )),
        crate::bridge::response_notices(responses).len() == responses.len(),
        forall|i: int|
            0 <= i < responses.len() ==> ((#[trigger] crate::bridge::response_notices(
                responses,
            )[i]) matches NoticeModel::EntityResponse { response } && same_response(
                response,
                responses[i],
            )),
{
}

/// Where a log is no longer than what was told of it, nothing is told and the count stays; where
/// it is longer, the count becomes its length.
pub proof fn law_count_follows_the_log<A>(log: Seq<A>, seen: nat)
    ensures
        log.len() <= seen ==> crate::bridge::unseen(log, seen).len() == 0
            && crate::bridge::seen_after(log, seen) == seen,
        seen < log.len() ==> crate::bridge::seen_after(log, seen) == log.len()
            && crate::bridge::unseen(log, seen).len() == log.len() - seen && (forall|i: int|
            0 <= i < log.len() - seen ==> (#[trigger] crate::bridge::unseen(log, seen)[i])
                == log[seen + i]),
{
}

} // verus!
