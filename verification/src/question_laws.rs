//! Which questions to the user are open, and what settles them.
use crate::collections::{lemma_filter_all, lemma_filter_holds, lemma_filter_same};
use crate::pending_replay::{
    after_eviction, after_notification, after_op, after_request, asks_approval, asks_input,
    can_settle, first_input_key, question_of, same_question, settled_by_notification,
    settled_by_op, still_asked, PendingKind, PendingRequestView,
};
use crate::protocol::{
    AppCommandView, RequestIdView, ServerNotificationView, ServerRequestView, ThreadItemView,
};
use vstd::prelude::*;

verus! {

/// A question carries the request and the turn that asked it, and the name by which it will be
/// answered: that of the approval where it has one of its own, else of the item, or of the server.
pub proof fn law_question_names_what_is_answered(request: ServerRequestView)
    ensures
        match request {
            ServerRequestView::CommandExecutionRequestApproval {
                request_id,
                turn_id,
                item_id,
                approval_id,
                ..
            } => question_of(request) matches Some(question) && {
                &&& question.kind == PendingKind::ExecApproval
                &&& question.turn_id == Some(turn_id)
                &&& question.request_id == request_id
                &&& approval_id is Some ==> question.key == approval_id->0
                &&& approval_id is None ==> question.key == item_id
            },
            ServerRequestView::FileChangeRequestApproval { request_id, turn_id, item_id, .. } => {
                question_of(request) matches Some(question) && {
                    &&& question.kind == PendingKind::PatchApproval
                    &&& question.turn_id == Some(turn_id)
                    &&& question.request_id == request_id
                    &&& question.key == item_id
                }
            },
            ServerRequestView::PermissionsRequestApproval { request_id, turn_id, item_id, .. } => {
                question_of(request) matches Some(question) && {
                    &&& question.kind == PendingKind::Permissions
                    &&& question.turn_id == Some(turn_id)
                    &&& question.request_id == request_id
                    &&& question.key == item_id
                }
            },
            ServerRequestView::McpServerElicitationRequest { request_id, server_name, .. } => {
                question_of(request) matches Some(question) && {
                    &&& question.kind == PendingKind::Elicitation
                    &&& question.turn_id is None
                    &&& question.request_id == request_id
                    &&& question.key == server_name
                }
            },
            ServerRequestView::ToolRequestUserInput { request_id, turn_id, item_id, .. } => {
                question_of(request) matches Some(question) && {
                    &&& question.kind == PendingKind::UserInput
                    &&& question.turn_id == Some(turn_id)
                    &&& question.request_id == request_id
                    &&& question.key == item_id
                }
            },
            ServerRequestView::Other { .. } => question_of(request) is None,
        },
{
}

/// Whether two questions are one: they are of one kind and answered by one name and, where a
/// server asks, by one request.
pub open spec fn is_one_question(a: PendingRequestView, b: PendingRequestView) -> bool {
    &&& a.kind == b.kind
    &&& a.key == b.key
    &&& a.kind == PendingKind::Elicitation ==> a.request_id == b.request_id
}

/// A request that asks a question is put to the user for as long as that question is open; a
/// request that asks none always is. A request that comes in opens its question behind the others,
/// and one that is no longer kept takes its question along and no other.
pub proof fn law_question_is_open_while_its_request_is(
    open: Seq<PendingRequestView>,
    request: ServerRequestView,
)
    ensures
        match question_of(request) {
            Some(question) => {
                &&& still_asked(open, request) <==> exists|i: int|
                    0 <= i < open.len() && is_one_question(#[trigger] open[i], question)
                &&& after_request(open, request) == open.push(question)
                &&& after_eviction(open, request) == open.filter(
                    |p: PendingRequestView| !is_one_question(p, question),
                )
                &&& !still_asked(after_eviction(open, request), request)
            },
            None => {
                &&& still_asked(open, request)
                &&& after_request(open, request) == open
                &&& after_eviction(open, request) == open
            },
        },
{
    if let Some(question) = question_of(request) {
        let gone = after_eviction(open, request);
        let other = |p: PendingRequestView| !is_one_question(p, question);
        lemma_filter_same(
            open,
            |p: PendingRequestView| !same_question(p, question),
            other,
        );
        lemma_filter_holds(open, other);
        if still_asked(open, request) {
            let i = choose|i: int|
                0 <= i < open.len() && same_question(
                    #[trigger] open[i],
                    question,
                );
            assert(is_one_question(open[i], question));
        }
        if exists|i: int| 0 <= i < open.len() && is_one_question(#[trigger] open[i], question) {
            let i = choose|i: int| 0 <= i < open.len() && is_one_question(#[trigger] open[i], question);
            assert(same_question(open[i], question));
        }
        if still_asked(gone, request) {
            let i = choose|i: int|
                0 <= i < gone.len() && same_question(
                    #[trigger] gone[i],
                    question,
                );
            assert(other(gone[i]));
        }
    }
}

/// An approval closes the questions of its kind that go by the name it gives, and no other.
pub proof fn law_approval_settles_what_it_names(
    open: Seq<PendingRequestView>,
    id: Seq<char>,
    server_name: Seq<char>,
    request_id: RequestIdView,
)
    ensures
        after_op(open, AppCommandView::ExecApproval { id }) == open.filter(
            |p: PendingRequestView| p.kind != PendingKind::ExecApproval || p.key != id,
        ),
        after_op(open, AppCommandView::PatchApproval { id }) == open.filter(
            |p: PendingRequestView| p.kind != PendingKind::PatchApproval || p.key != id,
        ),
        after_op(open, AppCommandView::RequestPermissionsResponse { id }) == open.filter(
            |p: PendingRequestView| p.kind != PendingKind::Permissions || p.key != id,
        ),
        after_op(open, AppCommandView::ResolveElicitation { server_name, request_id })
            == open.filter(
            |p: PendingRequestView|
                p.kind != PendingKind::Elicitation || p.key != server_name || p.request_id
                    != request_id,
        ),
        after_op(open, AppCommandView::Shutdown).len() == 0,
{
    let exec = AppCommandView::ExecApproval { id };
    let patch = AppCommandView::PatchApproval { id };
    let permit = AppCommandView::RequestPermissionsResponse { id };
    let resolve = AppCommandView::ResolveElicitation { server_name, request_id };
    let end = AppCommandView::Shutdown;
    lemma_filter_same(
        open,
        |p: PendingRequestView| !settled_by_op(open, exec, p),
        |p: PendingRequestView| p.kind != PendingKind::ExecApproval || p.key != id,
    );
    lemma_filter_same(
        open,
        |p: PendingRequestView| !settled_by_op(open, patch, p),
        |p: PendingRequestView| p.kind != PendingKind::PatchApproval || p.key != id,
    );
    lemma_filter_same(
        open,
        |p: PendingRequestView| !settled_by_op(open, permit, p),
        |p: PendingRequestView| p.kind != PendingKind::Permissions || p.key != id,
    );
    lemma_filter_same(
        open,
        |p: PendingRequestView| !settled_by_op(open, resolve, p),
        |p: PendingRequestView|
            p.kind != PendingKind::Elicitation || p.key != server_name || p.request_id
                != request_id,
    );
    let open_still = |p: PendingRequestView| !settled_by_op(open, end, p);
    lemma_filter_holds(open, open_still);
    if after_op(open, end).len() > 0 {
        assert(open_still(after_op(open, end)[0]));
    }
}

/// The first question of a tool on a turn is the first in the list that is one.
proof fn lemma_first_input(open: Seq<PendingRequestView>, turn_id: Seq<char>)
    ensures
        match first_input_key(open, turn_id) {
            Some(key) => exists|i: int|
                {
                    &&& 0 <= i < open.len()
                    &&& (#[trigger] open[i]).kind == PendingKind::UserInput
                    &&& open[i].turn_id == Some(turn_id)
                    &&& open[i].key == key
                    &&& forall|j: int|
                        0 <= j < i ==> !((#[trigger] open[j]).kind == PendingKind::UserInput
                            && open[j].turn_id == Some(turn_id))
                },
            None => forall|j: int|
                0 <= j < open.len() ==> !((#[trigger] open[j]).kind == PendingKind::UserInput
                    && open[j].turn_id == Some(turn_id)),
        },
    decreases open.len(),
{
    if open.len() > 0 && !(open[0].kind == PendingKind::UserInput && open[0].turn_id == Some(
        turn_id,
    )) {
        let rest = open.skip(1);
        lemma_first_input(rest, turn_id);
        match first_input_key(open, turn_id) {
            Some(key) => {
                let i = choose|i: int|
                    {
                        &&& 0 <= i < rest.len()
                        &&& (#[trigger] rest[i]).kind == PendingKind::UserInput
                        &&& rest[i].turn_id == Some(turn_id)
                        &&& rest[i].key == key
                        &&& forall|j: int|
                            0 <= j < i ==> !((#[trigger] rest[j]).kind == PendingKind::UserInput
                                && rest[j].turn_id == Some(turn_id))
                    };
                assert(open[i + 1] == rest[i]);
                assert forall|j: int| 0 <= j < i + 1 implies !((#[trigger] open[j]).kind
                    == PendingKind::UserInput && open[j].turn_id == Some(turn_id)) by {
                    if j > 0 {
                        assert(open[j] == rest[j - 1]);
                    }
                }
            },
            None => {
                assert forall|j: int| 0 <= j < open.len() implies !((#[trigger] open[j]).kind
                    == PendingKind::UserInput && open[j].turn_id == Some(turn_id)) by {
                    if j > 0 {
                        assert(open[j] == rest[j - 1]);
                    }
                }
            },
        }
    }
}

/// An answer to a tool names a turn, and closes what the turn has asked first; where it has asked
/// nothing, all questions stay open.
pub proof fn law_answer_to_a_tool_settles_the_oldest_question(
    open: Seq<PendingRequestView>,
    turn_id: Seq<char>,
    first: int,
)
    ensures
        ({
            let next = after_op(open, AppCommandView::UserInputAnswer { id: turn_id });
            let asked = |p: PendingRequestView|
                p.kind == PendingKind::UserInput && p.turn_id == Some(turn_id);
            &&& 0 <= first < open.len() && asked(open[first]) && (forall|j: int|
                0 <= j < first ==> !asked(#[trigger] open[j])) ==> next == open.filter(
                |p: PendingRequestView|
                    p.kind != PendingKind::UserInput || p.key != open[first].key,
            )
            &&& (forall|j: int| 0 <= j < open.len() ==> !asked(#[trigger] open[j])) ==> next == open
        }),
{
    lemma_first_input(open, turn_id);
    let op = AppCommandView::UserInputAnswer { id: turn_id };
    let asked = |p: PendingRequestView|
        p.kind == PendingKind::UserInput && p.turn_id == Some(turn_id);
    let kept = |p: PendingRequestView| !settled_by_op(open, op, p);
    if 0 <= first < open.len() && asked(open[first]) && (forall|j: int|
        0 <= j < first ==> !asked(#[trigger] open[j])) {
        assert(open[first].kind == PendingKind::UserInput);
        assert(first_input_key(open, turn_id) is Some);
        let key = first_input_key(open, turn_id)->0;
        let i = choose|i: int|
            {
                &&& 0 <= i < open.len()
                &&& (#[trigger] open[i]).kind == PendingKind::UserInput
                &&& open[i].turn_id == Some(turn_id)
                &&& open[i].key == key
                &&& forall|j: int|
                    0 <= j < i ==> !((#[trigger] open[j]).kind == PendingKind::UserInput
                        && open[j].turn_id == Some(turn_id))
            };
        if i < first {
            assert(!asked(open[i]));
        }
        assert(i == first);
        lemma_filter_same(
            open,
            kept,
            |p: PendingRequestView| p.kind != PendingKind::UserInput || p.key != open[first].key,
        );
    }
    if forall|j: int| 0 <= j < open.len() ==> !asked(#[trigger] open[j]) {
        assert forall|j: int| 0 <= j < open.len() implies !((#[trigger] open[j]).kind
            == PendingKind::UserInput && open[j].turn_id == Some(turn_id)) by {
            assert(!asked(open[j]));
        }
        assert(first_input_key(open, turn_id) is None);
        lemma_filter_all(open, kept);
    }
}

/// The commands that answer are the four approvals, the answer to a tool, and the end of all; any
/// other leaves every question open.
pub proof fn law_only_answers_settle_questions(open: Seq<PendingRequestView>, op: AppCommandView)
    ensures
        can_settle(op) <==> op is ExecApproval || op is PatchApproval || op is ResolveElicitation
            || op is RequestPermissionsResponse || op is UserInputAnswer || op is Shutdown,
        !(op is ExecApproval || op is PatchApproval || op is ResolveElicitation
            || op is RequestPermissionsResponse || op is UserInputAnswer || op is Shutdown)
            ==> after_op(open, op) == open,
{
    lemma_filter_all_if(open, op);
}

proof fn lemma_filter_all_if(open: Seq<PendingRequestView>, op: AppCommandView)
    ensures
        !can_settle(op) ==> after_op(open, op) == open,
{
    if !can_settle(op) {
        lemma_filter_all(
            open,
            |p: PendingRequestView| !settled_by_op(open, op, p),
        );
    }
}

/// A command that starts has been approved, a patch that starts too; a turn that ends takes its
/// questions along, a request that is resolved its own, and a thread that closes all of them.
/// Nothing else that comes in closes a question.
pub proof fn law_notification_settles_what_it_is_about(
    open: Seq<PendingRequestView>,
    notification: ServerNotificationView,
)
    ensures
        ({
            let next = after_notification(open, notification);
            match notification {
                ServerNotificationView::ItemStarted { item, .. } => match item {
                    ThreadItemView::CommandExecution { id, .. } => next == open.filter(
                        |p: PendingRequestView| p.kind != PendingKind::ExecApproval || p.key != id,
                    ),
                    ThreadItemView::FileChange { id, .. } => next == open.filter(
                        |p: PendingRequestView| p.kind != PendingKind::PatchApproval || p.key != id,
                    ),
                    _ => next == open,
                },
                ServerNotificationView::TurnCompleted { turn } => next == open.filter(
                    |p: PendingRequestView| p.turn_id != Some(turn.id),
                ),
                ServerNotificationView::ServerRequestResolved { request_id } => next == open.filter(
                    |p: PendingRequestView| p.request_id != request_id,
                ),
                ServerNotificationView::ThreadClosed => next.len() == 0,
                _ => next == open,
            }
        }),
{
    let next = after_notification(open, notification);
    let kept = |p: PendingRequestView|
        !settled_by_notification(notification, p);
    match notification {
        ServerNotificationView::ItemStarted { item, .. } => match item {
            ThreadItemView::CommandExecution { id, .. } => {
                lemma_filter_same(
                    open,
                    kept,
                    |p: PendingRequestView| p.kind != PendingKind::ExecApproval || p.key != id,
                );
            },
            ThreadItemView::FileChange { id, .. } => {
                lemma_filter_same(
                    open,
                    kept,
                    |p: PendingRequestView| p.kind != PendingKind::PatchApproval || p.key != id,
                );
            },
            _ => {
                lemma_filter_all(open, kept);
            },
        },
        ServerNotificationView::TurnCompleted { turn } => {
            lemma_filter_same(open, kept, |p: PendingRequestView| p.turn_id != Some(turn.id));
        },
        ServerNotificationView::ServerRequestResolved { request_id } => {
            lemma_filter_same(open, kept, |p: PendingRequestView| p.request_id != request_id);
        },
        ServerNotificationView::ThreadClosed => {
            lemma_filter_holds(open, kept);
            if next.len() > 0 {
                assert(kept(next[0]));
            }
        },
        _ => {
            lemma_filter_all(open, kept);
        },
    }
}

/// The user is asked to allow something where some open question is not a tool's, and for input
/// where some is.
pub proof fn law_what_the_user_is_asked_for(open: Seq<PendingRequestView>, i: int)
    ensures
        0 <= i < open.len() && open[i].kind == PendingKind::UserInput ==> asks_input(open),
        0 <= i < open.len() && open[i].kind != PendingKind::UserInput ==> asks_approval(open),
        (forall|j: int| 0 <= j < open.len() ==> (#[trigger] open[j]).kind == PendingKind::UserInput)
            ==> !asks_approval(open),
        (forall|j: int| 0 <= j < open.len() ==> (#[trigger] open[j]).kind != PendingKind::UserInput)
            ==> !asks_input(open),
{
}

} // verus!
