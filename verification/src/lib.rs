//! Off-screen agent threads and the shell `cd` command, as verified state machines.
pub mod active_thread;
pub mod agent_laws;
pub mod agent_navigation;
pub mod app_state;
pub mod approval_laws;
pub mod background_terminal_wakeup;
pub mod cd;
pub mod cd_laws;
pub mod collections;
pub mod effects;
pub mod incoming_laws;
pub mod input_state;
pub mod interactive;
pub mod listings;
pub mod metadata_laws;
pub mod op_submission;
pub mod path_text;
pub mod pending_replay;
pub mod prompt_laws;
pub mod protocol;
pub mod question_laws;
pub mod replay;
pub mod routing_laws;
pub mod screen_laws;
pub mod server_events;
pub mod shell_laws;
pub mod store_laws;
pub mod submission_laws;
pub mod terminal_ids;
pub mod terminal_laws;
pub mod text;
pub mod text_laws;
pub mod thread_event_laws;
pub mod thread_events;
pub mod thread_id;
pub mod thread_routing;
pub mod user_shell;
pub mod view_laws;
pub mod wakeups;
pub mod watch_laws;
