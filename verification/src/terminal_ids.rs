//! The names under which background terminals appear in notifications.
//!
//! A terminal is named by the call that started it and, once it runs, by its process. The call
//! is never used again; the process may be.
use crate::collections::{contains_text, overlap, texts_overlap};
use crate::protocol::{
    CommandExecutionSource, NoticeKind, ServerNotification, ServerNotificationView,
    ThreadBufferedEvent, ThreadBufferedEventView, ThreadItem, ThreadItemView,
};
use vstd::prelude::*;

verus! {

/// Whether a source runs commands in terminals that can outlive their turn.
pub open spec fn is_terminal_source(source: CommandExecutionSource) -> bool {
    source == CommandExecutionSource::UnifiedExecStartup || source
        == CommandExecutionSource::UnifiedExecInteraction
}

/// Whether an item is a command in a background terminal.
pub open spec fn is_terminal_item(item: ThreadItemView) -> bool {
    item matches ThreadItemView::CommandExecution { source, .. } && is_terminal_source(source)
}

/// `ids` with `id` at its end, unless it holds `id` already.
pub open spec fn with_id(ids: Seq<Seq<char>>, id: Seq<char>) -> Seq<Seq<char>> {
    if ids.contains(id) {
        ids
    } else {
        ids.push(id)
    }
}

/// The names of a terminal with this call and this process.
pub open spec fn command_ids(id: Seq<char>, process_id: Option<Seq<char>>) -> Seq<Seq<char>> {
    match process_id {
        Some(process_id) => with_id(seq![id], process_id),
        None => seq![id],
    }
}

/// The names of the terminal that an item is about.
pub open spec fn item_ids(item: ThreadItemView) -> Seq<Seq<char>> {
    match item {
        ThreadItemView::CommandExecution { id, process_id, source, .. } => if is_terminal_source(
            source,
        ) {
            command_ids(id, process_id)
        } else {
            Seq::empty()
        },
        _ => Seq::empty(),
    }
}

/// The name, of those of the terminal that an item is about, that is never used again.
pub open spec fn item_stable_ids(item: ThreadItemView) -> Seq<Seq<char>> {
    match item {
        ThreadItemView::CommandExecution { id, source, .. } => if is_terminal_source(source) {
            seq![id]
        } else {
            Seq::empty()
        },
        _ => Seq::empty(),
    }
}

/// The name, of those of the terminal that an item is about, that may be used again.
pub open spec fn item_reusable_ids(item: ThreadItemView) -> Seq<Seq<char>> {
    match item {
        ThreadItemView::CommandExecution { process_id, source, .. } => match process_id {
            Some(process_id) if is_terminal_source(source) => seq![process_id],
            _ => Seq::empty(),
        },
        _ => Seq::empty(),
    }
}

/// The names of the terminal that a notification is about.
pub open spec fn notification_ids(notification: ServerNotificationView) -> Seq<Seq<char>> {
    match notification {
        ServerNotificationView::ItemStarted { item, .. } => item_ids(item),
        ServerNotificationView::ItemCompleted { item, .. } => item_ids(item),
        ServerNotificationView::CommandExecutionOutputDelta { item_id, .. } => seq![item_id],
        _ => Seq::empty(),
    }
}

/// The names of the terminal that a notification is about that are never used again.
pub open spec fn notification_stable_ids(notification: ServerNotificationView) -> Seq<Seq<char>> {
    match notification {
        ServerNotificationView::ItemStarted { item, .. } => item_stable_ids(item),
        ServerNotificationView::ItemCompleted { item, .. } => item_stable_ids(item),
        ServerNotificationView::CommandExecutionOutputDelta { item_id, .. } => seq![item_id],
        _ => Seq::empty(),
    }
}

/// The names of the terminal that a notification is about that may be used again.
pub open spec fn notification_reusable_ids(notification: ServerNotificationView) -> Seq<Seq<char>> {
    match notification {
        ServerNotificationView::ItemStarted { item, .. } => item_reusable_ids(item),
        ServerNotificationView::ItemCompleted { item, .. } => item_reusable_ids(item),
        _ => Seq::empty(),
    }
}

/// Whether an event is about a terminal with one of these names.
pub open spec fn event_matches(event: ThreadBufferedEventView, ids: Seq<Seq<char>>) -> bool {
    event matches ThreadBufferedEventView::Notification(notification) && overlap(
        notification_ids(notification),
        ids,
    )
}

/// Whether a notification is about a background terminal.
pub open spec fn is_terminal_notification(notification: ServerNotificationView) -> bool {
    match notification {
        ServerNotificationView::ItemStarted { item, .. } => is_terminal_item(item),
        ServerNotificationView::ItemCompleted { item, .. } => is_terminal_item(item),
        ServerNotificationView::CommandExecutionOutputDelta { .. } => true,
        _ => false,
    }
}

/// Whether an event is about a background terminal.
pub open spec fn is_terminal_event(event: ThreadBufferedEventView) -> bool {
    event matches ThreadBufferedEventView::Notification(notification) && is_terminal_notification(
        notification,
    )
}

/// Whether a notification comes too late once its thread is closed: it does unless it is about
/// the thread itself rather than about what happens on it.
pub open spec fn is_late(notification: ServerNotificationView) -> bool {
    match notification {
        ServerNotificationView::ThreadClosed => false,
        ServerNotificationView::Notice { kind, .. } => match kind {
            NoticeKind::ThreadNameUpdated
            | NoticeKind::ThreadTokenUsageUpdated
            | NoticeKind::ThreadGoalUpdated
            | NoticeKind::ThreadGoalCleared
            | NoticeKind::ThreadArchived
            | NoticeKind::ThreadUnarchived => false,
            _ => true,
        },
        _ => true,
    }
}

fn source_is_terminal(source: CommandExecutionSource) -> (result: bool)
    ensures
        result == is_terminal_source(source),
{
    source == CommandExecutionSource::UnifiedExecStartup || source
        == CommandExecutionSource::UnifiedExecInteraction
}

/// Whether an item is a command in a background terminal.
pub fn command_execution_is_background_terminal(item: &ThreadItem) -> (result: bool)
    ensures
        result == is_terminal_item(item.deep_view()),
{
    match item {
        ThreadItem::CommandExecution { source, .. } => source_is_terminal(*source),
        _ => false,
    }
}

/// Puts `identifier` at the end, unless it is there already.
pub fn push_unique_identifier(identifiers: &mut Vec<String>, identifier: String)
    ensures
        final(identifiers).deep_view() == with_id(old(identifiers).deep_view(), identifier@),
{
    if !contains_text(identifiers, &identifier) {
        let ghost before = identifiers.deep_view();
        identifiers.push(identifier);
        assert(identifiers.deep_view() =~= before.push(identifier@));
    }
}

/// The one text `id`, as a list.
fn single(id: &String) -> (ids: Vec<String>)
    ensures
        ids.deep_view() == seq![id@],
{
    let mut ids: Vec<String> = Vec::new();
    ids.push(id.clone());
    assert(ids.deep_view() =~= seq![id@]);
    ids
}

/// The list of no texts.
fn nothing() -> (ids: Vec<String>)
    ensures
        ids.deep_view() == Seq::<Seq<char>>::empty(),
{
    let ids: Vec<String> = Vec::new();
    assert(ids.deep_view() =~= Seq::<Seq<char>>::empty());
    ids
}

/// The names of a terminal with this call and this process.
pub fn background_terminal_identifiers_from_command(id: &String, process_id: &Option<String>) -> (ids:
    Vec<String>)
    ensures
        ids.deep_view() == command_ids(id@, process_id.deep_view()),
{
    let mut ids = single(id);
    if let Some(process_id) = process_id {
        push_unique_identifier(&mut ids, process_id.clone());
    }
    ids
}

fn background_terminal_identifiers_from_item(item: &ThreadItem) -> (ids: Vec<String>)
    ensures
        ids.deep_view() == item_ids(item.deep_view()),
{
    match item {
        ThreadItem::CommandExecution { id, process_id, source, .. } => {
            if !source_is_terminal(*source) {
                return nothing();
            }
            background_terminal_identifiers_from_command(id, process_id)
        },
        _ => nothing(),
    }
}

/// The names of the terminal that a notification is about.
pub fn background_terminal_identifiers_from_notification(notification: &ServerNotification) -> (ids:
    Vec<String>)
    ensures
        ids.deep_view() == notification_ids(notification.deep_view()),
{
    match notification {
        ServerNotification::ItemStarted { item, .. } => background_terminal_identifiers_from_item(
            item,
        ),
        ServerNotification::ItemCompleted { item, .. } => background_terminal_identifiers_from_item(
            item,
        ),
        ServerNotification::CommandExecutionOutputDelta { item_id, .. } => single(item_id),
        _ => nothing(),
    }
}

/// The name of the terminal that an item is about that is never used again.
pub fn background_terminal_stable_identifiers_from_item(item: &ThreadItem) -> (ids: Vec<String>)
    ensures
        ids.deep_view() == item_stable_ids(item.deep_view()),
{
    match item {
        ThreadItem::CommandExecution { id, source, .. } => {
            if !source_is_terminal(*source) {
                return nothing();
            }
            single(id)
        },
        _ => nothing(),
    }
}

/// The names of the terminal that a notification is about that are never used again.
pub fn background_terminal_stable_identifiers_from_notification(
    notification: &ServerNotification,
) -> (ids: Vec<String>)
    ensures
        ids.deep_view() == notification_stable_ids(notification.deep_view()),
{
    match notification {
        ServerNotification::ItemStarted { item, .. } => {
            background_terminal_stable_identifiers_from_item(item)
        },
        ServerNotification::ItemCompleted { item, .. } => {
            background_terminal_stable_identifiers_from_item(item)
        },
        ServerNotification::CommandExecutionOutputDelta { item_id, .. } => single(item_id),
        _ => nothing(),
    }
}

/// The name of the terminal that an item is about that may be used again.
pub fn background_terminal_reusable_identifiers_from_item(item: &ThreadItem) -> (ids: Vec<String>)
    ensures
        ids.deep_view() == item_reusable_ids(item.deep_view()),
{
    match item {
        ThreadItem::CommandExecution { process_id, source, .. } => {
            if !source_is_terminal(*source) {
                return nothing();
            }
            match process_id {
                Some(process_id) => single(process_id),
                None => nothing(),
            }
        },
        _ => nothing(),
    }
}

/// The names of the terminal that a notification is about that may be used again.
pub fn background_terminal_reusable_identifiers_from_notification(
    notification: &ServerNotification,
) -> (ids: Vec<String>)
    ensures
        ids.deep_view() == notification_reusable_ids(notification.deep_view()),
{
    match notification {
        ServerNotification::ItemStarted { item, .. } => {
            background_terminal_reusable_identifiers_from_item(item)
        },
        ServerNotification::ItemCompleted { item, .. } => {
            background_terminal_reusable_identifiers_from_item(item)
        },
        _ => nothing(),
    }
}

/// Whether an event is about a terminal with one of these names.
pub fn background_terminal_event_matches_identifiers(
    event: &ThreadBufferedEvent,
    identifiers: &Vec<String>,
) -> (result: bool)
    ensures
        result == event_matches(event.deep_view(), identifiers.deep_view()),
{
    match event {
        ThreadBufferedEvent::Notification(notification) => texts_overlap(
            &background_terminal_identifiers_from_notification(notification),
            identifiers,
        ),
        _ => false,
    }
}

/// Whether a notification is about a background terminal, which a closed thread does not have.
pub fn closed_store_should_drop_notification(notification: &ServerNotification) -> (result: bool)
    ensures
        result == is_terminal_notification(notification.deep_view()),
{
    match notification {
        ServerNotification::ItemStarted { item, .. } => command_execution_is_background_terminal(
            item,
        ),
        ServerNotification::ItemCompleted { item, .. } => command_execution_is_background_terminal(
            item,
        ),
        ServerNotification::CommandExecutionOutputDelta { .. } => true,
        _ => false,
    }
}

/// Whether an event is about a background terminal.
pub fn thread_event_is_background_terminal(event: &ThreadBufferedEvent) -> (result: bool)
    ensures
        result == is_terminal_event(event.deep_view()),
{
    match event {
        ThreadBufferedEvent::Notification(notification) => closed_store_should_drop_notification(
            notification,
        ),
        _ => false,
    }
}

/// Whether a notification comes too late once its thread is closed.
pub fn closed_store_should_drop_late_notification(notification: &ServerNotification) -> (result:
    bool)
    ensures
        result == is_late(notification.deep_view()),
{
    match notification {
        ServerNotification::ThreadClosed => false,
        ServerNotification::Notice { kind, .. } => match kind {
            NoticeKind::ThreadNameUpdated
            | NoticeKind::ThreadTokenUsageUpdated
            | NoticeKind::ThreadGoalUpdated
            | NoticeKind::ThreadGoalCleared
            | NoticeKind::ThreadArchived
            | NoticeKind::ThreadUnarchived => false,
            _ => true,
        },
        _ => true,
    }
}

} // verus!
