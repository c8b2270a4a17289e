//! The questions to the user that are still open on a thread.
//!
//! Events are replayed when the user comes back to a thread. A question that was answered,
//! withdrawn or dropped in the meantime must not be asked again, so the open ones are kept apart.
use crate::collections::{lemma_filter_all, lemma_filter_holds, retain_vec, Duplicate};
use crate::protocol::{
    AppCommand, AppCommandView, RequestId, RequestIdView, ServerNotification,
    ServerNotificationView, ServerRequest, ServerRequestView, ThreadItem, ThreadItemView,
};
use vstd::prelude::*;

verus! {

/// What a question is about.
#[derive(Debug, Clone, Copy, PartialEq, Eq, Structural)]
pub enum PendingKind {
    ExecApproval,
    PatchApproval,
    Elicitation,
    Permissions,
    UserInput,
}

/// A question that is still open.
#[derive(Debug, PartialEq, Eq)]
pub struct PendingRequest {
    pub kind: PendingKind,
    /// The turn that waits for the answer, where one does.
    pub turn_id: Option<String>,
    /// What the answer names: the approval, the item or the server.
    pub key: String,
    /// The request that asked.
    pub request_id: RequestId,
}

/// What a [`PendingRequest`] means.
#[verifier::ext_equal]
pub ghost struct PendingRequestView {
    pub kind: PendingKind,
    pub turn_id: Option<Seq<char>>,
    pub key: Seq<char>,
    pub request_id: RequestIdView,
}

impl DeepView for PendingRequest {
    type V = PendingRequestView;

    open spec fn deep_view(&self) -> PendingRequestView {
        PendingRequestView {
            kind: self.kind,
            turn_id: self.turn_id.deep_view(),
            key: self.key@,
            request_id: self.request_id.deep_view(),
        }
    }
}

impl Duplicate for PendingRequest {
    fn duplicate(&self) -> PendingRequest {
        PendingRequest {
            kind: self.kind,
            turn_id: self.turn_id.duplicate(),
            key: self.key.clone(),
            request_id: self.request_id.duplicate(),
        }
    }
}

/// The question that a request asks, where it is one that is tracked.
pub open spec fn question_of(request: ServerRequestView) -> Option<PendingRequestView> {
    match request {
        ServerRequestView::CommandExecutionRequestApproval {
            request_id,
            turn_id,
            item_id,
            approval_id,
            ..
        } => Some(
            PendingRequestView {
                kind: PendingKind::ExecApproval,
                turn_id: Some(turn_id),
                key: match approval_id {
                    Some(approval_id) => approval_id,
                    None => item_id,
                },
                request_id,
            },
        ),
        ServerRequestView::FileChangeRequestApproval { request_id, turn_id, item_id, .. } => Some(
            PendingRequestView {
                kind: PendingKind::PatchApproval,
                turn_id: Some(turn_id),
                key: item_id,
                request_id,
            },
        ),
        ServerRequestView::PermissionsRequestApproval { request_id, turn_id, item_id, .. } => Some(
            PendingRequestView {
                kind: PendingKind::Permissions,
                turn_id: Some(turn_id),
                key: item_id,
                request_id,
            },
        ),
        ServerRequestView::McpServerElicitationRequest { request_id, server_name, .. } => Some(
            PendingRequestView {
                kind: PendingKind::Elicitation,
                turn_id: None,
                key: server_name,
                request_id,
            },
        ),
        ServerRequestView::ToolRequestUserInput { request_id, turn_id, item_id, .. } => Some(
            PendingRequestView {
                kind: PendingKind::UserInput,
                turn_id: Some(turn_id),
                key: item_id,
                request_id,
            },
        ),
        ServerRequestView::Other { .. } => None,
    }
}

/// Whether two requests ask the same question. A server may ask more than once, so what it asks
/// is told apart by the request as well.
pub open spec fn same_question(a: PendingRequestView, b: PendingRequestView) -> bool {
    &&& a.kind == b.kind
    &&& a.key == b.key
    &&& a.kind == PendingKind::Elicitation ==> a.request_id == b.request_id
}

/// Whether an answer of this kind that names `key` settles a question.
pub open spec fn settles(kind: PendingKind, key: Seq<char>, pending: PendingRequestView) -> bool {
    pending.kind == kind && pending.key == key
}

/// Whether a notification settles a question.
pub open spec fn settled_by_notification(
    notification: ServerNotificationView,
    pending: PendingRequestView,
) -> bool {
    match notification {
        ServerNotificationView::ItemStarted { item, .. } => match item {
            ThreadItemView::CommandExecution { id, .. } => settles(
                PendingKind::ExecApproval,
                id,
                pending,
            ),
            ThreadItemView::FileChange { id, .. } => settles(
                PendingKind::PatchApproval,
                id,
                pending,
            ),
            _ => false,
        },
        ServerNotificationView::TurnCompleted { turn } => pending.turn_id == Some(turn.id),
        ServerNotificationView::ServerRequestResolved { request_id } => pending.request_id
            == request_id,
        ServerNotificationView::ThreadClosed => true,
        _ => false,
    }
}

/// Whether a command of the user settles a question. An answer to a question that a tool asked
/// names only the turn, and settles what the turn asked first.
pub open spec fn settled_by_op(
    open: Seq<PendingRequestView>,
    op: AppCommandView,
    pending: PendingRequestView,
) -> bool {
    match op {
        AppCommandView::ExecApproval { id } => settles(PendingKind::ExecApproval, id, pending),
        AppCommandView::PatchApproval { id } => settles(PendingKind::PatchApproval, id, pending),
        AppCommandView::ResolveElicitation { server_name, request_id } => settles(
            PendingKind::Elicitation,
            server_name,
            pending,
        ) && pending.request_id == request_id,
        AppCommandView::RequestPermissionsResponse { id } => settles(
            PendingKind::Permissions,
            id,
            pending,
        ),
        AppCommandView::UserInputAnswer { id } => match first_input_key(open, id) {
            Some(key) => settles(PendingKind::UserInput, key, pending),
            None => false,
        },
        AppCommandView::Shutdown => true,
        _ => false,
    }
}

/// What the first question of a tool on a turn names.
pub open spec fn first_input_key(open: Seq<PendingRequestView>, turn_id: Seq<char>) -> Option<
    Seq<char>,
>
    decreases open.len(),
{
    if open.len() == 0 {
        None
    } else if open[0].kind == PendingKind::UserInput && open[0].turn_id == Some(turn_id) {
        Some(open[0].key)
    } else {
        first_input_key(open.skip(1), turn_id)
    }
}

/// Whether a command of the user can settle a question.
pub open spec fn can_settle(op: AppCommandView) -> bool {
    match op {
        AppCommandView::ExecApproval { .. } => true,
        AppCommandView::PatchApproval { .. } => true,
        AppCommandView::ResolveElicitation { .. } => true,
        AppCommandView::RequestPermissionsResponse { .. } => true,
        AppCommandView::UserInputAnswer { .. } => true,
        AppCommandView::Shutdown => true,
        _ => false,
    }
}

/// The questions that are open once a request has come in.
pub open spec fn after_request(open: Seq<PendingRequestView>, request: ServerRequestView) -> Seq<
    PendingRequestView,
> {
    match question_of(request) {
        Some(question) => open.push(question),
        None => open,
    }
}

/// The questions that are open once a request is no longer kept.
pub open spec fn after_eviction(open: Seq<PendingRequestView>, request: ServerRequestView) -> Seq<
    PendingRequestView,
> {
    match question_of(request) {
        Some(question) => open.filter(|p: PendingRequestView| !same_question(p, question)),
        None => open,
    }
}

/// The questions that are open once a notification has come in.
pub open spec fn after_notification(
    open: Seq<PendingRequestView>,
    notification: ServerNotificationView,
) -> Seq<PendingRequestView> {
    open.filter(|p: PendingRequestView| !settled_by_notification(notification, p))
}

/// The questions that are open once the user has given a command.
pub open spec fn after_op(open: Seq<PendingRequestView>, op: AppCommandView) -> Seq<
    PendingRequestView,
> {
    open.filter(|p: PendingRequestView| !settled_by_op(open, op, p))
}

/// Whether a request is to be shown when its thread is: always, unless it asks a question that
/// is no longer open.
pub open spec fn still_asked(open: Seq<PendingRequestView>, request: ServerRequestView) -> bool {
    match question_of(request) {
        Some(question) => exists|i: int|
            0 <= i < open.len() && same_question(#[trigger] open[i], question),
        None => true,
    }
}

/// Whether the user is asked to allow something.
pub open spec fn asks_approval(open: Seq<PendingRequestView>) -> bool {
    exists|i: int| 0 <= i < open.len() && (#[trigger] open[i]).kind != PendingKind::UserInput
}

/// Whether the user is asked for input.
pub open spec fn asks_input(open: Seq<PendingRequestView>) -> bool {
    exists|i: int| 0 <= i < open.len() && (#[trigger] open[i]).kind == PendingKind::UserInput
}

/// Whether two requests are one.
pub fn same_request_id(a: &RequestId, b: &RequestId) -> (result: bool)
    ensures
        result == (a.deep_view() == b.deep_view()),
{
    match (a, b) {
        (RequestId::Integer(a), RequestId::Integer(b)) => *a == *b,
        (RequestId::Text(a), RequestId::Text(b)) => *a == *b,
        _ => false,
    }
}

/// Whether a text is there and is `id`.
pub fn is_some_text(text: &Option<String>, id: &String) -> (result: bool)
    ensures
        result == (text.deep_view() == Some(id@)),
{
    match text {
        Some(text) => *text == *id,
        None => false,
    }
}

fn question(request: &ServerRequest) -> (question: Option<PendingRequest>)
    ensures
        question.deep_view() == question_of(request.deep_view()),
{
    match request {
        ServerRequest::CommandExecutionRequestApproval {
            request_id,
            turn_id,
            item_id,
            approval_id,
            ..
        } => {
            let key = match approval_id {
                Some(approval_id) => approval_id.clone(),
                None => item_id.clone(),
            };
            Some(
                PendingRequest {
                    kind: PendingKind::ExecApproval,
                    turn_id: Some(turn_id.clone()),
                    key,
                    request_id: request_id.duplicate(),
                },
            )
        },
        ServerRequest::FileChangeRequestApproval { request_id, turn_id, item_id, .. } => Some(
            PendingRequest {
                kind: PendingKind::PatchApproval,
                turn_id: Some(turn_id.clone()),
                key: item_id.clone(),
                request_id: request_id.duplicate(),
            },
        ),
        ServerRequest::PermissionsRequestApproval { request_id, turn_id, item_id, .. } => Some(
            PendingRequest {
                kind: PendingKind::Permissions,
                turn_id: Some(turn_id.clone()),
                key: item_id.clone(),
                request_id: request_id.duplicate(),
            },
        ),
        ServerRequest::McpServerElicitationRequest { request_id, server_name, .. } => Some(
            PendingRequest {
                kind: PendingKind::Elicitation,
                turn_id: None,
                key: server_name.clone(),
                request_id: request_id.duplicate(),
            },
        ),
        ServerRequest::ToolRequestUserInput { request_id, turn_id, item_id, .. } => Some(
            PendingRequest {
                kind: PendingKind::UserInput,
                turn_id: Some(turn_id.clone()),
                key: item_id.clone(),
                request_id: request_id.duplicate(),
            },
        ),
        ServerRequest::Other { .. } => None,
    }
}

fn is_same_question(a: &PendingRequest, b: &PendingRequest) -> (result: bool)
    ensures
        result == same_question(a.deep_view(), b.deep_view()),
{
    a.kind == b.kind && a.key == b.key && (a.kind != PendingKind::Elicitation || same_request_id(
        &a.request_id,
        &b.request_id,
    ))
}

fn is_settled(kind: PendingKind, key: &String, pending: &PendingRequest) -> (result: bool)
    ensures
        result == settles(kind, key@, pending.deep_view()),
{
    pending.kind == kind && pending.key == *key
}

fn is_settled_by_notification(notification: &ServerNotification, pending: &PendingRequest) -> (result:
    bool)
    ensures
        result == settled_by_notification(notification.deep_view(), pending.deep_view()),
{
    match notification {
        ServerNotification::ItemStarted { item, .. } => match item {
            ThreadItem::CommandExecution { id, .. } => is_settled(
                PendingKind::ExecApproval,
                id,
                pending,
            ),
            ThreadItem::FileChange { id, .. } => is_settled(PendingKind::PatchApproval, id, pending),
            _ => false,
        },
        ServerNotification::TurnCompleted { turn } => is_some_text(&pending.turn_id, &turn.id),
        ServerNotification::ServerRequestResolved { request_id } => same_request_id(
            &pending.request_id,
            request_id,
        ),
        ServerNotification::ThreadClosed => true,
        _ => false,
    }
}

/// The questions to the user that are still open on a thread, the oldest first.
#[derive(Debug)]
pub struct PendingInteractiveReplayState {
    open: Vec<PendingRequest>,
}

impl View for PendingInteractiveReplayState {
    type V = Seq<PendingRequestView>;

    closed spec fn view(&self) -> Seq<PendingRequestView> {
        self.open.deep_view()
    }
}

impl Default for PendingInteractiveReplayState {
    fn default() -> (state: PendingInteractiveReplayState)
        ensures
            state@ == Seq::<PendingRequestView>::empty(),
    {
        let state = PendingInteractiveReplayState { open: Vec::new() };
        assert(state@ =~= Seq::<PendingRequestView>::empty());
        state
    }
}

impl PendingInteractiveReplayState {
    /// Whether a command of the user can settle a question.
    pub fn op_can_change_state(op: &AppCommand) -> (result: bool)
        ensures
            result == can_settle(op.deep_view()),
    {
        match op {
            AppCommand::ExecApproval { .. }
            | AppCommand::PatchApproval { .. }
            | AppCommand::ResolveElicitation { .. }
            | AppCommand::RequestPermissionsResponse { .. }
            | AppCommand::UserInputAnswer { .. }
            | AppCommand::Shutdown => true,
            _ => false,
        }
    }

    /// Takes note of a request.
    pub fn note_server_request(&mut self, request: &ServerRequest)
        ensures
            final(self)@ == after_request(old(self)@, request.deep_view()),
    {
        if let Some(question) = question(request) {
            let ghost before = self.open.deep_view();
            self.open.push(question);
            assert(self.open.deep_view() =~= before.push(question.deep_view()));
        }
    }

    /// Takes note that a request is no longer kept.
    pub fn note_evicted_server_request(&mut self, request: &ServerRequest)
        ensures
            final(self)@ == after_eviction(old(self)@, request.deep_view()),
    {
        if let Some(question) = question(request) {
            let ghost wanted = |p: PendingRequestView| !same_question(p, question.deep_view());
            let keep = |p: &PendingRequest| -> (kept: bool)
                ensures
                    kept == wanted(p.deep_view()),
                { !is_same_question(p, &question) };
            retain_vec(&mut self.open, keep, Ghost(wanted));
        }
    }

    /// Takes note of a notification.
    pub fn note_server_notification(&mut self, notification: &ServerNotification)
        ensures
            final(self)@ == after_notification(old(self)@, notification.deep_view()),
    {
        let ghost wanted = |p: PendingRequestView|
            !settled_by_notification(notification.deep_view(), p);
        let keep = |p: &PendingRequest| -> (kept: bool)
            ensures
                kept == wanted(p.deep_view()),
            { !is_settled_by_notification(notification, p) };
        retain_vec(&mut self.open, keep, Ghost(wanted));
    }

    /// What the first question of a tool on a turn names.
    fn first_input_key(&self, turn_id: &String) -> (key: Option<String>)
        ensures
            key.deep_view() == first_input_key(self@, turn_id@),
    {
        let mut i: usize = 0;
        assert(self@.skip(0) =~= self@);
        while i < self.open.len()
            invariant
                i <= self.open@.len(),
                first_input_key(self@, turn_id@) == first_input_key(self@.skip(i as int), turn_id@),
            decreases self.open@.len() - i,
        {
            let ghost rest = self@.skip(i as int);
            assert(rest[0] == self.open@[i as int].deep_view());
            assert(rest.skip(1) =~= self@.skip(i + 1));
            if self.open[i].kind == PendingKind::UserInput && is_some_text(
                &self.open[i].turn_id,
                turn_id,
            ) {
                return Some(self.open[i].key.clone());
            }
            i = i + 1;
        }
        assert(self@.skip(i as int).len() == 0);
        None
    }

    /// Takes note of a command of the user.
    pub fn note_outbound_op(&mut self, op: &AppCommand)
        ensures
            final(self)@ == after_op(old(self)@, op.deep_view()),
    {
        let ghost open = self@;
        let input_key = match op {
            AppCommand::UserInputAnswer { id } => self.first_input_key(id),
            _ => None,
        };
        let ghost wanted = |p: PendingRequestView| !settled_by_op(open, op.deep_view(), p);
        let keep = |p: &PendingRequest| -> (kept: bool)
            ensures
                kept == wanted(p.deep_view()),
            {
                let settled = match op {
                    AppCommand::ExecApproval { id } => is_settled(PendingKind::ExecApproval, id, p),
                    AppCommand::PatchApproval { id } => is_settled(
                        PendingKind::PatchApproval,
                        id,
                        p,
                    ),
                    AppCommand::ResolveElicitation { server_name, request_id } => is_settled(
                        PendingKind::Elicitation,
                        server_name,
                        p,
                    ) && same_request_id(&p.request_id, request_id),
                    AppCommand::RequestPermissionsResponse { id } => is_settled(
                        PendingKind::Permissions,
                        id,
                        p,
                    ),
                    AppCommand::UserInputAnswer { .. } => match &input_key {
                        Some(key) => is_settled(PendingKind::UserInput, key, p),
                        None => false,
                    },
                    AppCommand::Shutdown => true,
                    _ => false,
                };
                !settled
            };
        retain_vec(&mut self.open, keep, Ghost(wanted));
    }

    /// Whether a request is to be shown when its thread is.
    pub fn should_replay_snapshot_request(&self, request: &ServerRequest) -> (result: bool)
        ensures
            result == still_asked(self@, request.deep_view()),
    {
        match question(request) {
            Some(question) => {
                let mut i: usize = 0;
                while i < self.open.len()
                    invariant
                        i <= self.open@.len(),
                        question_of(request.deep_view()) == Some(question.deep_view()),
                        forall|j: int|
                            0 <= j < i ==> !same_question(
                                #[trigger] self@[j],
                                question.deep_view(),
                            ),
                    decreases self.open@.len() - i,
                {
                    assert(self@[i as int] == self.open@[i as int].deep_view());
                    if is_same_question(&self.open[i], &question) {
                        return true;
                    }
                    i = i + 1;
                }
                false
            },
            None => true,
        }
    }

    /// Whether the user is asked to allow something.
    pub fn has_pending_thread_approvals(&self) -> (result: bool)
        ensures
            result == asks_approval(self@),
    {
        let mut i: usize = 0;
        while i < self.open.len()
            invariant
                i <= self.open@.len(),
                forall|j: int| 0 <= j < i ==> (#[trigger] self@[j]).kind == PendingKind::UserInput,
            decreases self.open@.len() - i,
        {
            assert(self@[i as int] == self.open@[i as int].deep_view());
            if self.open[i].kind != PendingKind::UserInput {
                return true;
            }
            i = i + 1;
        }
        false
    }

    /// Whether the user is asked for input.
    pub fn has_pending_thread_user_input(&self) -> (result: bool)
        ensures
            result == asks_input(self@),
    {
        let mut i: usize = 0;
        while i < self.open.len()
            invariant
                i <= self.open@.len(),
                forall|j: int| 0 <= j < i ==> (#[trigger] self@[j]).kind != PendingKind::UserInput,
            decreases self.open@.len() - i,
        {
            assert(self@[i as int] == self.open@[i as int].deep_view());
            if self.open[i].kind == PendingKind::UserInput {
                return true;
            }
            i = i + 1;
        }
        false
    }
}

/// A command that cannot settle a question leaves all questions open.
pub proof fn law_other_commands_settle_nothing(open: Seq<PendingRequestView>, op: AppCommandView)
    requires
        !can_settle(op),
    ensures
        after_op(open, op) == open,
{
    lemma_filter_all(open, |p: PendingRequestView| !settled_by_op(open, op, p));
}

/// Once a request is resolved, what it asked is asked again only for another request.
pub proof fn law_resolved_request_is_not_asked_again(
    open: Seq<PendingRequestView>,
    request_id: RequestIdView,
)
    ensures
        forall|i: int|
            0 <= i < after_notification(
                open,
                ServerNotificationView::ServerRequestResolved { request_id },
            ).len() ==> (#[trigger] after_notification(
                open,
                ServerNotificationView::ServerRequestResolved { request_id },
            )[i]).request_id != request_id,
{
    let notification = ServerNotificationView::ServerRequestResolved { request_id };
    let kept = |p: PendingRequestView| !settled_by_notification(notification, p);
    lemma_filter_holds(open, kept);
}

/// A request is shown for as long as nothing settles what it asks.
pub proof fn law_new_request_is_asked(open: Seq<PendingRequestView>, request: ServerRequestView)
    ensures
        still_asked(after_request(open, request), request),
{
    if let Some(question) = question_of(request) {
        let next = after_request(open, request);
        assert(same_question(next[open.len() as int], question));
    }
}

} // verus!
