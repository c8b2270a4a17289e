//! Requests of threads that are not on screen, and how they are put to the user.
use crate::agent_navigation::same_id;
use crate::app_state::{App, AppView, ThreadChannelView};
use crate::collections::Duplicate;
use crate::effects::{
    no_effects, push_effect, push_effects, AppEffect, AppEffectView, ApprovalRequest,
    ApprovalRequestView, RequestPresentation, RequestPresentationView, ThreadInteractiveRequest,
    ThreadInteractiveRequestView,
};
use crate::protocol::{
    ElicitationRequest, ElicitationRequestView, FileUpdateChange, FileUpdateChangeView,
    ServerRequest, ServerRequestView,
};
use crate::thread_id::ThreadId;
use vstd::prelude::*;

verus! {

/// A request, and the thread that it came from.
#[derive(Debug)]
pub struct ThreadRequest {
    pub thread_id: ThreadId,
    pub request: ServerRequest,
}

/// What a [`ThreadRequest`] means.
#[verifier::ext_equal]
pub ghost struct ThreadRequestView {
    pub thread_id: ThreadId,
    pub request: ServerRequestView,
}

impl DeepView for ThreadRequest {
    type V = ThreadRequestView;

    open spec fn deep_view(&self) -> ThreadRequestView {
        ThreadRequestView { thread_id: self.thread_id, request: self.request.deep_view() }
    }
}

/// The steps that put a question to the user. The changes of a patch are shown first, where they
/// are known and the patch belongs to a named thread.
pub open spec fn question_shown(request: ThreadInteractiveRequestView) -> Seq<AppEffectView> {
    let push = AppEffectView::PushInteractiveRequest { prompt: request };
    match request {
        ThreadInteractiveRequestView::Approval(approval) => match approval {
            ApprovalRequestView::ApplyPatch { thread_label, cwd, changes, .. } => if thread_label is Some
                && changes.len() > 0 {
                seq![AppEffectView::AddPatchPreview { cwd, changes }, push]
            } else {
                seq![push]
            },
            _ => seq![push],
        },
        _ => seq![push],
    }
}

/// The steps for a request of a thread that is not on screen.
pub open spec fn presented(presentation: RequestPresentationView) -> Seq<AppEffectView> {
    match presentation {
        RequestPresentationView::Show(request) => question_shown(request),
        RequestPresentationView::DeclineElicitation { thread_id, server_name, request_id } => seq![
            AppEffectView::DeclineElicitation { thread_id, server_name, request_id },
        ],
        RequestPresentationView::Nothing => Seq::empty(),
    }
}

/// The requests that wait on the threads other than `active`.
pub open spec fn requests_elsewhere(channels: Seq<ThreadChannelView>, active: Option<ThreadId>) -> Seq<
    ThreadRequestView,
>
    decreases channels.len(),
{
    if channels.len() == 0 {
        Seq::empty()
    } else {
        let before = requests_elsewhere(channels.drop_last(), active);
        let channel = channels.last();
        if Some(channel.thread_id) == active {
            before
        } else {
            before + channel.store.open_requests().map_values(
                |request: ServerRequestView|
                    ThreadRequestView { thread_id: channel.thread_id, request },
            )
        }
    }
}

/// The steps for some requests, one after the other.
pub open spec fn all_presented(app: AppView, requests: Seq<ThreadRequestView>) -> Seq<AppEffectView>
    decreases requests.len(),
{
    if requests.len() == 0 {
        Seq::empty()
    } else {
        all_presented(app, requests.drop_last()) + presented(
            app.presentation_of(requests.last().thread_id, requests.last().request),
        )
    }
}

impl AppView {
    /// The changes of the file change that a request is about.
    pub open spec fn changes_of(self, thread_id: ThreadId, turn_id: Seq<char>, item_id: Seq<char>) -> Option<
        Seq<FileUpdateChangeView>,
    > {
        match self.store_of(thread_id) {
            Some(store) => store.file_changes(turn_id, item_id),
            None => None,
        }
    }

    /// The directory of a thread's session, or the one that the client was started in.
    pub open spec fn cwd_of(self, thread_id: ThreadId) -> Seq<char> {
        match self.store_of(thread_id) {
            Some(store) => match store.session {
                Some(session) => session.cwd,
                None => self.config_cwd,
            },
            None => self.config_cwd,
        }
    }

    /// What becomes of a request of a thread that is not on screen.
    pub open spec fn presentation_of(self, thread_id: ThreadId, request: ServerRequestView) -> RequestPresentationView {
        let thread_label = Some(self.label_of(thread_id));
        match request {
            ServerRequestView::CommandExecutionRequestApproval {
                item_id,
                approval_id,
                reason,
                command,
                network_approval_context,
                additional_permissions,
                available_decisions,
                default_decisions,
                ..
            } => RequestPresentationView::Show(
                ThreadInteractiveRequestView::Approval(
                    ApprovalRequestView::Exec {
                        thread_id,
                        thread_label,
                        id: match approval_id {
                            Some(approval_id) => approval_id,
                            None => item_id,
                        },
                        command: match command {
                            Some(words) => words,
                            None => Seq::empty(),
                        },
                        reason,
                        available_decisions: match available_decisions {
                            Some(decisions) => decisions,
                            None => default_decisions,
                        },
                        network_approval_context,
                        additional_permissions,
                    },
                ),
            ),
            ServerRequestView::FileChangeRequestApproval { turn_id, item_id, reason, .. } => RequestPresentationView::Show(
                ThreadInteractiveRequestView::Approval(
                    ApprovalRequestView::ApplyPatch {
                        thread_id,
                        thread_label,
                        id: item_id,
                        reason,
                        cwd: self.cwd_of(thread_id),
                        changes: match self.changes_of(thread_id, turn_id, item_id) {
                            Some(changes) => changes,
                            None => Seq::empty(),
                        },
                    },
                ),
            ),
            ServerRequestView::McpServerElicitationRequest {
                request_id,
                server_name,
                request,
                app_link,
                form,
            } => match (app_link, form, request) {
                (Some(link), _, _) => RequestPresentationView::Show(
                    ThreadInteractiveRequestView::AppLink(link),
                ),
                (None, Some(form), _) => RequestPresentationView::Show(
                    ThreadInteractiveRequestView::McpServerElicitation(form),
                ),
                (None, None, ElicitationRequestView::Form { message }) => RequestPresentationView::Show(
                    ThreadInteractiveRequestView::Approval(
                        ApprovalRequestView::McpElicitation {
                            thread_id,
                            thread_label,
                            server_name,
                            request_id,
                            message,
                        },
                    ),
                ),
                (None, None, ElicitationRequestView::Url { .. }) => RequestPresentationView::DeclineElicitation {
                    thread_id,
                    server_name,
                    request_id,
                },
            },
            ServerRequestView::PermissionsRequestApproval { item_id, reason, permissions, .. } => RequestPresentationView::Show(
                ThreadInteractiveRequestView::Approval(
                    ApprovalRequestView::Permissions {
                        thread_id,
                        thread_label,
                        call_id: item_id,
                        reason,
                        permissions,
                    },
                ),
            ),
            ServerRequestView::ToolRequestUserInput { .. } => RequestPresentationView::Nothing,
            ServerRequestView::Other { .. } => RequestPresentationView::Nothing,
        }
    }

    /// The steps that put the requests that wait on other threads to the user. There are none
    /// while a side conversation is on screen.
    pub open spec fn waiting_requests_shown(self) -> Seq<AppEffectView> {
        if self.side_parent() is Some {
            Seq::empty()
        } else {
            all_presented(self, requests_elsewhere(self.channels, self.active_thread_id))
        }
    }
}

/// Shows the changes of a patch, where they are known and the patch belongs to a named thread.
fn render_inactive_patch_preview(request: &ApprovalRequest) -> (effects: Vec<AppEffect>)
    ensures
        effects.deep_view() == (match request.deep_view() {
            ApprovalRequestView::ApplyPatch { thread_label, cwd, changes, .. } => if thread_label is Some
                && changes.len() > 0 {
                seq![AppEffectView::AddPatchPreview { cwd, changes }]
            } else {
                Seq::empty()
            },
            _ => Seq::empty(),
        }),
{
    let mut effects = no_effects();
    if let ApprovalRequest::ApplyPatch { thread_label, cwd, changes, .. } = request {
        if thread_label.is_some() && changes.len() > 0 {
            push_effect(
                &mut effects,
                AppEffect::AddPatchPreview { cwd: cwd.clone(), changes: changes.duplicate() },
            );
            assert(effects.deep_view() =~= seq![
                AppEffectView::AddPatchPreview { cwd: cwd@, changes: changes.deep_view() },
            ]);
        }
    }
    effects
}

/// Puts a question to the user.
pub fn push_thread_interactive_request(request: ThreadInteractiveRequest) -> (effects: Vec<
    AppEffect,
>)
    ensures
        effects.deep_view() == question_shown(request.deep_view()),
{
    let mut effects = match &request {
        ThreadInteractiveRequest::Approval(approval) => render_inactive_patch_preview(approval),
        _ => no_effects(),
    };
    push_effect(&mut effects, AppEffect::PushInteractiveRequest { prompt: request });
    assert(effects.deep_view() =~= question_shown(request.deep_view()));
    effects
}

/// The steps for a request of a thread that is not on screen.
pub fn present(presentation: RequestPresentation) -> (effects: Vec<AppEffect>)
    ensures
        effects.deep_view() == presented(presentation.deep_view()),
{
    match presentation {
        RequestPresentation::Show(request) => push_thread_interactive_request(request),
        RequestPresentation::DeclineElicitation { thread_id, server_name, request_id } => {
            let mut effects = no_effects();
            push_effect(
                &mut effects,
                AppEffect::DeclineElicitation { thread_id, server_name, request_id },
            );
            assert(effects.deep_view() =~= presented(presentation.deep_view()));
            effects
        },
        RequestPresentation::Nothing => no_effects(),
    }
}

impl App {
    /// The changes of the file change that a request is about.
    pub fn thread_file_change_changes(
        &self,
        thread_id: ThreadId,
        turn_id: &String,
        item_id: &String,
    ) -> (changes: Option<Vec<FileUpdateChange>>)
        ensures
            changes.deep_view() == self@.changes_of(thread_id, turn_id@, item_id@),
    {
        let place = self.channel_place(thread_id);
        if place < self.thread_event_channels.len() {
            let channel = &self.thread_event_channels[place];
            assert(channel.deep_view() == self@.channels[place as int]);
            channel.store.file_change_changes(turn_id, item_id)
        } else {
            None
        }
    }

    /// What becomes of a request of a thread that is not on screen: a question with the name of
    /// the thread, where the request is one that can be answered from elsewhere. A link that the
    /// client cannot follow is declined.
    pub fn interactive_request_for_thread_request(
        &self,
        thread_id: ThreadId,
        request: &ServerRequest,
    ) -> (presentation: RequestPresentation)
        ensures
            presentation.deep_view() == self@.presentation_of(thread_id, request.deep_view()),
    {
        let thread_label = Some(self.thread_label(thread_id));
        match request {
            ServerRequest::CommandExecutionRequestApproval {
                item_id,
                approval_id,
                reason,
                command,
                network_approval_context,
                additional_permissions,
                available_decisions,
                default_decisions,
                ..
            } => {
                let id = match approval_id {
                    Some(approval_id) => approval_id.clone(),
                    None => item_id.clone(),
                };
                let command = match command {
                    Some(words) => words.duplicate(),
                    None => Vec::new(),
                };
                assert(command@.len() == 0 ==> command.deep_view() =~= Seq::<Seq<char>>::empty());
                let available_decisions = match available_decisions {
                    Some(decisions) => decisions.duplicate(),
                    None => default_decisions.duplicate(),
                };
                RequestPresentation::Show(
                    ThreadInteractiveRequest::Approval(
                        ApprovalRequest::Exec {
                            thread_id,
                            thread_label,
                            id,
                            command,
                            reason: reason.duplicate(),
                            available_decisions,
                            network_approval_context: network_approval_context.duplicate(),
                            additional_permissions: additional_permissions.duplicate(),
                        },
                    ),
                )
            },
            ServerRequest::FileChangeRequestApproval { turn_id, item_id, reason, .. } => {
                let cwd = match self.thread_cwd(thread_id) {
                    Some(cwd) => cwd,
                    None => self.config_cwd.clone(),
                };
                let changes = match self.thread_file_change_changes(thread_id, turn_id, item_id) {
                    Some(changes) => changes,
                    None => Vec::new(),
                };
                assert(changes@.len() == 0 ==> changes.deep_view() =~= Seq::<
                    FileUpdateChangeView,
                >::empty());
                RequestPresentation::Show(
                    ThreadInteractiveRequest::Approval(
                        ApprovalRequest::ApplyPatch {
                            thread_id,
                            thread_label,
                            id: item_id.clone(),
                            reason: reason.duplicate(),
                            cwd,
                            changes,
                        },
                    ),
                )
            },
            ServerRequest::McpServerElicitationRequest {
                request_id,
                server_name,
                request,
                app_link,
                form,
            } => {
                if let Some(link) = app_link {
                    RequestPresentation::Show(ThreadInteractiveRequest::AppLink(link.clone()))
                } else if let Some(form) = form {
                    RequestPresentation::Show(
                        ThreadInteractiveRequest::McpServerElicitation(form.clone()),
                    )
                } else {
                    match request {
                        ElicitationRequest::Form { message } => RequestPresentation::Show(
                            ThreadInteractiveRequest::Approval(
                                ApprovalRequest::McpElicitation {
                                    thread_id,
                                    thread_label,
                                    server_name: server_name.clone(),
                                    request_id: request_id.duplicate(),
                                    message: message.clone(),
                                },
                            ),
                        ),
                        ElicitationRequest::Url { .. } => RequestPresentation::DeclineElicitation {
                            thread_id,
                            server_name: server_name.clone(),
                            request_id: request_id.duplicate(),
                        },
                    }
                }
            },
            ServerRequest::PermissionsRequestApproval { item_id, reason, permissions, .. } => {
                RequestPresentation::Show(
                    ThreadInteractiveRequest::Approval(
                        ApprovalRequest::Permissions {
                            thread_id,
                            thread_label,
                            call_id: item_id.clone(),
                            reason: reason.duplicate(),
                            permissions: permissions.clone(),
                        },
                    ),
                )
            },
            _ => RequestPresentation::Nothing,
        }
    }

    /// The requests that wait on the threads that are not on screen.
    pub fn pending_inactive_thread_requests(&self) -> (requests: Vec<ThreadRequest>)
        ensures
            requests.deep_view() == requests_elsewhere(self@.channels, self@.active_thread_id),
    {
        let ghost all = self@.channels;
        let mut requests: Vec<ThreadRequest> = Vec::new();
        assert(requests.deep_view() =~= Seq::<ThreadRequestView>::empty());
        let mut i: usize = 0;
        while i < self.thread_event_channels.len()
            invariant
                i <= self.thread_event_channels@.len(),
                all == self@.channels,
                requests.deep_view() == requests_elsewhere(
                    all.take(i as int),
                    self@.active_thread_id,
                ),
            decreases self.thread_event_channels@.len() - i,
        {
            let channel = &self.thread_event_channels[i];
            assert(channel.deep_view() == all[i as int]);
            assert(all.take(i + 1).drop_last() =~= all.take(i as int));
            assert(all.take(i + 1).last() == all[i as int]);
            if !same_id(self.active_thread_id, channel.thread_id) {
                let more = channel.store.pending_replay_requests();
                let ghost before = requests.deep_view();
                let ghost added = more.deep_view();
                let ghost thread_id = channel.thread_id;
                let ghost tag = |request: ServerRequestView|
                    ThreadRequestView { thread_id, request };
                let mut k: usize = 0;
                assert(before + added.take(0).map_values(tag) =~= before);
                while k < more.len()
                    invariant
                        k <= more@.len(),
                        added == more.deep_view(),
                        thread_id == channel.thread_id,
                        tag == (|request: ServerRequestView|
                            ThreadRequestView { thread_id, request }),
                        requests.deep_view() == before + added.take(k as int).map_values(tag),
                    decreases more@.len() - k,
                {
                    let ghost so_far = requests.deep_view();
                    requests.push(
                        ThreadRequest {
                            thread_id: channel.thread_id,
                            request: more[k].duplicate(),
                        },
                    );
                    assert(requests.deep_view() =~= so_far.push(tag(added[k as int])));
                    assert(before + added.take(k + 1).map_values(tag) =~= so_far.push(
                        tag(added[k as int]),
                    ));
                    k = k + 1;
                }
                assert(added.take(k as int) =~= added);
            }
            i = i + 1;
        }
        assert(all.take(i as int) =~= all);
        requests
    }

    /// Puts the requests that wait on other threads to the user. Nothing is asked while a side
    /// conversation is on screen.
    pub fn surface_pending_inactive_thread_interactive_requests(&self) -> (effects: Vec<AppEffect>)
        ensures
            effects.deep_view() == self@.waiting_requests_shown(),
    {
        let mut effects = no_effects();
        if self.active_side_parent_thread_id().is_some() {
            return effects;
        }
        let requests = self.pending_inactive_thread_requests();
        let ghost all = requests.deep_view();
        let mut i: usize = 0;
        while i < requests.len()
            invariant
                i <= requests@.len(),
                all == requests.deep_view(),
                effects.deep_view() == all_presented(self@, all.take(i as int)),
            decreases requests@.len() - i,
        {
            assert(all[i as int] == requests@[i as int].deep_view());
            assert(all.take(i + 1).drop_last() =~= all.take(i as int));
            assert(all.take(i + 1).last() == all[i as int]);
            let presentation = self.interactive_request_for_thread_request(
                requests[i].thread_id,
                &requests[i].request,
            );
            push_effects(&mut effects, present(presentation));
            i = i + 1;
        }
        assert(all.take(i as int) =~= all);
        effects
    }
}

} // verus!
