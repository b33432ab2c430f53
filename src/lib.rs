//! Coordination core of a desktop music client: one ordered stream of
//! commands, drained one per tick and routed to the surface that owns the
//! state each command changes.

mod model;
mod command;
mod route;
mod notice;
mod channel;
mod guard;
mod dispatcher;

pub use model::{LoginInfo, PlayerTypes, SongInfo, SongList};
pub use command::Command;
pub use route::{
    lemma_one_handler_per_command, plan, route, Call, HeaderCall, PlayerCall, ViewCall,
};
pub use notice::{
    after_shows, lemma_slot_keeps_latest, lemma_slot_unchanged_without_show, show_step,
    NotificationSlot,
};
pub use channel::{CommandSender, Received};
pub use guard::{
    lemma_current_result_kept, lemma_stale_result_dropped, next_gen, next_generation, settle,
    settled, Delivery, GenerationGuard,
};
pub use dispatcher::{
    apply, commands_of, effects, lemma_applied_in_order, lemma_notice_follows_shows,
    lemma_one_command_per_tick, notice_texts, run, tick_calls, tick_flow, tick_state,
    DispatchState, Dispatcher, Flow, Tick,
};
