//! What the user is shown of the requests of threads that are not on screen.
use crate::app_state::{AppView, ThreadChannelView};
use crate::effects::{
    AppEffectView, ApprovalRequestView, RequestPresentationView, ThreadInteractiveRequestView,
};
use crate::interactive::{
    all_presented, presented, question_shown, requests_elsewhere, ThreadRequestView,
};
use crate::pending_replay::question_of;
use crate::protocol::{
    AppCommandView, ElicitationRequestView, RequestIdView, ServerRequestView,
};
use crate::thread_event_laws::answers;
use crate::thread_id::ThreadId;
use vstd::prelude::*;

verus! {

/// An approval is put to the user with what the server has sent: the command, the reason, the
/// permissions and the choices, and the label of its thread. Where the server names the choices,
/// these are offered and no others.
pub proof fn law_approval_is_shown_as_it_was_sent(
    app: AppView,
    thread_id: ThreadId,
    request: ServerRequestView,
)
    ensures
        match request {
            ServerRequestView::CommandExecutionRequestApproval {
                item_id,
                approval_id,
                reason: why,
                command: words,
                network_approval_context: network,
                additional_permissions: more,
                available_decisions: named,
                default_decisions,
                ..
            } => app.presentation_of(thread_id, request) matches RequestPresentationView::Show(
                ThreadInteractiveRequestView::Approval(
                    ApprovalRequestView::Exec {
                        thread_id: shown_thread,
                        thread_label,
                        id,
                        command,
                        reason,
                        available_decisions,
                        network_approval_context,
                        additional_permissions,
                    },
                ),
            ) && {
                &&& shown_thread == thread_id
                &&& thread_label == Some(app.label_of(thread_id))
                &&& approval_id is Some ==> id == approval_id->0
                &&& approval_id is None ==> id == item_id
                &&& named is Some ==> available_decisions == named->0
                &&& named is None ==> available_decisions == default_decisions
                &&& words is Some ==> command == words->0
                &&& words is None ==> command.len() == 0
                &&& reason == why
                &&& network_approval_context == network
                &&& additional_permissions == more
            },
            ServerRequestView::FileChangeRequestApproval { item_id, reason: why, .. } => {
                app.presentation_of(thread_id, request) matches RequestPresentationView::Show(
                    ThreadInteractiveRequestView::Approval(
                        ApprovalRequestView::ApplyPatch {
                            thread_id: shown_thread,
                            thread_label,
                            id,
                            reason,
                            ..
                        },
                    ),
                ) && {
                    &&& shown_thread == thread_id
                    &&& thread_label == Some(app.label_of(thread_id))
                    &&& id == item_id
                    &&& reason == why
                }
            },
            ServerRequestView::PermissionsRequestApproval {
                item_id,
                reason: why,
                permissions: asked,
                ..
            } => app.presentation_of(thread_id, request) matches RequestPresentationView::Show(
                ThreadInteractiveRequestView::Approval(
                    ApprovalRequestView::Permissions {
                        thread_id: shown_thread,
                        thread_label,
                        call_id,
                        reason,
                        permissions,
                    },
                ),
            ) && {
                &&& shown_thread == thread_id
                &&& thread_label == Some(app.label_of(thread_id))
                &&& call_id == item_id
                &&& reason == why
                &&& permissions == asked
            },
            _ => true,
        },
{
}

/// A server's request for input is shown as a link where it is one, else as a form where it is one,
/// else as a question; a link to anywhere else is declined for the user. A question of a tool and a
/// request of another kind wait until their thread is on screen.
pub proof fn law_elicitation_is_shown_or_declined(
    app: AppView,
    thread_id: ThreadId,
    request: ServerRequestView,
)
    ensures
        match request {
            ServerRequestView::McpServerElicitationRequest {
                request_id: asked_by,
                server_name: asking,
                request: asked,
                app_link,
                form,
            } => {
                let shown = app.presentation_of(thread_id, request);
                &&& app_link is Some ==> shown == RequestPresentationView::Show(
                    ThreadInteractiveRequestView::AppLink(app_link->0),
                )
                &&& app_link is None && form is Some ==> shown == RequestPresentationView::Show(
                    ThreadInteractiveRequestView::McpServerElicitation(form->0),
                )
                &&& app_link is None && form is None ==> match asked {
                    ElicitationRequestView::Form { message: said } => {
                        shown matches RequestPresentationView::Show(
                            ThreadInteractiveRequestView::Approval(
                                ApprovalRequestView::McpElicitation {
                                    thread_id: shown_thread,
                                    thread_label,
                                    server_name,
                                    request_id,
                                    message,
                                },
                            ),
                        ) && {
                            &&& shown_thread == thread_id
                            &&& thread_label == Some(app.label_of(thread_id))
                            &&& server_name == asking
                            &&& request_id == asked_by
                            &&& message == said
                        }
                    },
                    ElicitationRequestView::Url { .. } => {
                        shown matches RequestPresentationView::DeclineElicitation {
                            thread_id: shown_thread,
                            server_name,
                            request_id,
                        } && shown_thread == thread_id && server_name == asking && request_id
                            == asked_by
                    },
                }
            },
            ServerRequestView::ToolRequestUserInput { .. } => app.presentation_of(
                thread_id,
                request,
            ) is Nothing,
            ServerRequestView::Other { .. } => app.presentation_of(thread_id, request) is Nothing,
            _ => true,
        },
{
}

/// The command with which the user answers what is shown.
pub open spec fn answer_to(shown: ThreadInteractiveRequestView) -> Option<AppCommandView> {
    match shown {
        ThreadInteractiveRequestView::Approval(approval) => match approval {
            ApprovalRequestView::Exec { id, .. } => Some(AppCommandView::ExecApproval { id }),
            ApprovalRequestView::ApplyPatch { id, .. } => Some(AppCommandView::PatchApproval { id }),
            ApprovalRequestView::Permissions { call_id, .. } => Some(
                AppCommandView::RequestPermissionsResponse { id: call_id },
            ),
            ApprovalRequestView::McpElicitation { server_name, request_id, .. } => Some(
                AppCommandView::ResolveElicitation { server_name, request_id },
            ),
        },
        _ => None,
    }
}

/// Answering what is shown settles the question that the request has asked: the answer names it by
/// the name that the question goes by.
pub proof fn law_answer_to_what_is_shown_settles_the_question(
    app: AppView,
    thread_id: ThreadId,
    request: ServerRequestView,
)
    requires
        app.presentation_of(thread_id, request) matches RequestPresentationView::Show(shown)
            && answer_to(shown) is Some,
    ensures
        question_of(request) is Some,
        answers(
            answer_to(app.presentation_of(thread_id, request)->Show_0)->0,
            question_of(request)->0,
        ),
{
}

/// The changes that a patch is shown with are those that its thread's store knows for the item and
/// the turn of the request, in the directory of the thread's session; where the store knows none,
/// none are shown, and where there is no session, the client's own directory is.
pub proof fn law_patch_is_shown_with_its_changes(
    app: AppView,
    thread_id: ThreadId,
    request: ServerRequestView,
)
    requires
        request is FileChangeRequestApproval,
    ensures
        app.presentation_of(thread_id, request) matches RequestPresentationView::Show(
            ThreadInteractiveRequestView::Approval(
                ApprovalRequestView::ApplyPatch { cwd, changes, .. },
            ),
        ) && match app.store_of(thread_id) {
            Some(store) => {
                &&& match store.file_changes(
                    request->FileChangeRequestApproval_turn_id,
                    request->FileChangeRequestApproval_item_id,
                ) {
                    Some(known) => changes == known,
                    None => changes.len() == 0,
                }
                &&& match store.session {
                    Some(session) => cwd == session.cwd,
                    None => cwd == app.config_cwd,
                }
            },
            None => changes.len() == 0 && cwd == app.config_cwd,
        },
{
}

/// What is shown is put before the user once. The changes of a patch go before it, where there are
/// any and the patch is of a thread that has a label. What is declined is declined to the server
/// that asked, and nothing else happens.
pub proof fn law_question_is_put_to_the_user_once(
    shown: ThreadInteractiveRequestView,
    thread_id: ThreadId,
    server_name: Seq<char>,
    request_id: RequestIdView,
)
    ensures
        question_shown(shown).len() > 0,
        question_shown(shown).last() == (AppEffectView::PushInteractiveRequest { prompt: shown }),
        match shown {
            ThreadInteractiveRequestView::Approval(
                ApprovalRequestView::ApplyPatch { thread_label, cwd, changes, .. },
            ) => if thread_label is Some && changes.len() > 0 {
                &&& question_shown(shown).len() == 2
                &&& question_shown(shown)[0] == (AppEffectView::AddPatchPreview { cwd, changes })
            } else {
                question_shown(shown).len() == 1
            },
            _ => question_shown(shown).len() == 1,
        },
        presented(RequestPresentationView::Show(shown)) == question_shown(shown),
        presented(RequestPresentationView::Nothing).len() == 0,
        presented(
            RequestPresentationView::DeclineElicitation { thread_id, server_name, request_id },
        ) == seq![AppEffectView::DeclineElicitation { thread_id, server_name, request_id }],
{
}

/// The requests that wait are those of every thread but the one on screen, thread after thread and
/// each with its thread.
pub proof fn law_waiting_requests_are_those_of_other_threads(
    channels: Seq<ThreadChannelView>,
    active: Option<ThreadId>,
    waiting: ThreadRequestView,
)
    ensures
        requests_elsewhere(channels, active).contains(waiting) <==> exists|i: int|
            {
                &&& 0 <= i < channels.len()
                &&& (#[trigger] channels[i]).thread_id == waiting.thread_id
                &&& Some(waiting.thread_id) != active
                &&& channels[i].store.open_requests().contains(waiting.request)
            },
    decreases channels.len(),
{
    let all = requests_elsewhere(channels, active);
    if channels.len() > 0 {
        let rest = channels.drop_last();
        let last = channels.len() - 1;
        let channel = channels[last];
        let before = requests_elsewhere(rest, active);
        law_waiting_requests_are_those_of_other_threads(rest, active, waiting);
        let open = channel.store.open_requests();
        let tagged = open.map_values(
            |request: ServerRequestView|
                ThreadRequestView { thread_id: channel.thread_id, request },
        );
        let holds = |i: int|
            channels[i].thread_id == waiting.thread_id && Some(waiting.thread_id) != active
                && channels[i].store.open_requests().contains(waiting.request);
        if all.contains(waiting) {
            let k = choose|k: int| 0 <= k < all.len() && all[k] == waiting;
            if k < before.len() {
                assert(before[k] == waiting);
                assert(before.contains(waiting));
                let i = choose|i: int|
                    {
                        &&& 0 <= i < rest.len()
                        &&& (#[trigger] rest[i]).thread_id == waiting.thread_id
                        &&& Some(waiting.thread_id) != active
                        &&& rest[i].store.open_requests().contains(waiting.request)
                    };
                assert(channels[i] == rest[i]);
            } else {
                assert(all =~= before + tagged);
                assert(tagged[k - before.len()] == waiting);
                assert(open[k - before.len()] == waiting.request);
                assert(channels[last].thread_id == waiting.thread_id);
            }
        }
        if exists|i: int|
            {
                &&& 0 <= i < channels.len()
                &&& (#[trigger] channels[i]).thread_id == waiting.thread_id
                &&& Some(waiting.thread_id) != active
                &&& channels[i].store.open_requests().contains(waiting.request)
            } {
            let i = choose|i: int|
                {
                    &&& 0 <= i < channels.len()
                    &&& (#[trigger] channels[i]).thread_id == waiting.thread_id
                    &&& Some(waiting.thread_id) != active
                    &&& channels[i].store.open_requests().contains(waiting.request)
                };
            if i < last {
                assert(rest[i] == channels[i]);
                assert(before.contains(waiting));
                let k = choose|k: int| 0 <= k < before.len() && before[k] == waiting;
                assert(all[k] == waiting);
            } else {
                let k = choose|k: int| 0 <= k < open.len() && open[k] == waiting.request;
                assert(tagged[k] == waiting);
                assert(all[before.len() + k] == waiting);
            }
        }
    }
}

/// They come in the order of the threads, and those of one thread in the order in which they came.
pub proof fn law_waiting_requests_keep_their_order(
    channels: Seq<ThreadChannelView>,
    channel: ThreadChannelView,
    active: Option<ThreadId>,
    k: int,
)
    ensures
        ({
            let before = requests_elsewhere(channels, active);
            let all = requests_elsewhere(channels.push(channel), active);
            let open = channel.store.open_requests();
            &&& before.is_prefix_of(all)
            &&& Some(channel.thread_id) == active ==> all == before
            &&& Some(channel.thread_id) != active ==> all.len() == before.len() + open.len()
            &&& Some(channel.thread_id) != active && 0 <= k < open.len() ==> {
                &&& all[before.len() + k].thread_id == channel.thread_id
                &&& all[before.len() + k].request == open[k]
            }
        }),
        requests_elsewhere(Seq::empty(), active).len() == 0,
{
    let before = requests_elsewhere(channels, active);
    let all = requests_elsewhere(channels.push(channel), active);
    assert(channels.push(channel).drop_last() =~= channels);
    assert(all.subrange(0, before.len() as int) =~= before);
}

/// All that waits elsewhere is put to the user, one request after the other, unless a side
/// conversation is on screen.
pub proof fn law_waiting_requests_are_put_to_the_user(
    app: AppView,
    requests: Seq<ThreadRequestView>,
    more: ThreadRequestView,
)
    ensures
        all_presented(app, Seq::empty()).len() == 0,
        all_presented(app, requests.push(more)) == all_presented(app, requests) + presented(
            app.presentation_of(more.thread_id, more.request),
        ),
        app.side_parent() is Some ==> app.waiting_requests_shown().len() == 0,
        app.side_parent() is None ==> app.waiting_requests_shown() == all_presented(
            app,
            requests_elsewhere(app.channels, app.active_thread_id),
        ),
{
    assert(requests.push(more).drop_last() =~= requests);
}

} // verus!
