//! The contract that a plugin implements, and the delivery of one event to
//! the registered plugins in turn.

use vstd::prelude::*;
use crate::message::{GroupMessage, PrivateMessage};

verus! {

/// What a plugin says of itself.
#[derive(Debug)]
pub struct PluginMetadata {
    pub name: String,
    pub describe: String,
    pub author: String,
    pub version: String,
    /// The kinds of event that the plugin handles.
    pub message_types: Vec<String>,
}

/// Why a plugin could not be built or could not handle an event.
#[derive(Debug)]
pub enum PluginError {
    /// The plugin reported a failure.
    Failed { message: String },
    /// No task scheduler could run the plugin's construction: none was
    /// running and none could be started, or the calling thread's own is
    /// single-threaded and cannot be blocked on.
    SchedulerUnavailable,
}

/// The answer of a handler that leaves an event alone: not consumed.
pub fn not_handled() -> (r: Result<bool, PluginError>)
    ensures
        r matches Ok(false),
{
    Ok(false)
}

/// A plugin. Each handler answers `true` where it consumed the event, so that
/// no later plugin sees it, and `false` where the event passes on. A handler
/// left unimplemented consumes nothing.
pub trait Plugin: Send + Sync {
    /// The plugin's metadata.
    fn metadata(&self) -> &PluginMetadata;

    /// Handles a group message.
    fn handle_group_message(&self, message: &GroupMessage) -> (r: Result<bool, PluginError>)
        default_ensures
            r matches Ok(false),
    {
        not_handled()
    }

    /// Handles a private message.
    fn handle_private_message(&self, message: &PrivateMessage) -> (r: Result<bool, PluginError>)
        default_ensures
            r matches Ok(false),
    {
        not_handled()
    }

    /// Handles a poke of `target_id` by `user_id` in the group `group_id`.
    fn handle_group_poke(&self, target_id: &str, user_id: &str, group_id: &str) -> (r: Result<bool, PluginError>)
        default_ensures
            r matches Ok(false),
    {
        not_handled()
    }
}

/// An event that the host offers to its plugins.
pub enum Event {
    GroupMessage(GroupMessage),
    PrivateMessage(PrivateMessage),
    GroupPoke { target_id: String, user_id: String, group_id: String },
}

/// What became of an event at one plugin.
#[derive(Debug)]
pub enum Delivery {
    /// The plugin consumed the event: no later plugin sees it.
    Consumed,
    /// The plugin let the event pass.
    Passed,
    /// The plugin's handler failed; the event passes on as if not consumed.
    Failed(PluginError),
}

/// What a handler's answer records.
pub open spec fn delivery_spec(answer: Result<bool, PluginError>) -> Delivery {
    match answer {
        Ok(true) => Delivery::Consumed,
        Ok(false) => Delivery::Passed,
        Err(e) => Delivery::Failed(e),
    }
}

/// How a handler's answer is carried forward: a failure counts as "not
/// consumed".
pub fn delivery_of(answer: Result<bool, PluginError>) -> (d: Delivery)
    ensures
        d == delivery_spec(answer),
        answer matches Ok(true) <==> d is Consumed,
        answer matches Ok(false) <==> d is Passed,
        answer is Err <==> d is Failed,
{
    match answer {
        Ok(true) => Delivery::Consumed,
        Ok(false) => Delivery::Passed,
        Err(e) => Delivery::Failed(e),
    }
}

/// Offers an event to one plugin, through the handler of its kind.
pub fn offer(plugin: &dyn Plugin, event: &Event) -> Result<bool, PluginError> {
    match event {
        Event::GroupMessage(m) => plugin.handle_group_message(m),
        Event::PrivateMessage(m) => plugin.handle_private_message(m),
        Event::GroupPoke { target_id, user_id, group_id } => plugin.handle_group_poke(
            target_id.as_str(),
            user_id.as_str(),
            group_id.as_str(),
        ),
    }
}

/// A record of deliveries to `n` plugins in registration order that stops
/// exactly at the first plugin that consumed the event: every plugin before
/// it passed or failed, and where no plugin consumed it, every plugin was
/// offered the event.
pub open spec fn stops_at_first_consumer(log: Seq<Delivery>, n: nat) -> bool {
    &&& log.len() <= n
    &&& forall|i: int| 0 <= i < log.len() - 1 ==> !(#[trigger] log[i] is Consumed)
    &&& log.len() < n ==> log.len() > 0 && log.last() is Consumed
}

/// A plugin whose handler failed is never the last one offered the event
/// while plugins remain: the event reaches the next registered plugin.
pub proof fn lemma_failure_passes_event_on(log: Seq<Delivery>, n: nat, i: int)
    requires
        stops_at_first_consumer(log, n),
        0 <= i < log.len(),
        log[i] is Failed,
        i + 1 < n,
    ensures
        i + 1 < log.len(),
{
}

/// `entry` is what some answer of `ask` at position `i` records.
pub open spec fn records_answer<F: Fn(usize) -> Result<bool, PluginError>>(ask: F, i: usize, entry: Delivery) -> bool {
    exists|answer: Result<bool, PluginError>| #[trigger] ask.ensures((i,), answer) && entry == delivery_spec(answer)
}

/// Asks `n` plugins in turn, `ask(i)` giving the answer of the plugin at
/// position `i`, until one consumes the event. Each entry of the result is
/// what the answer of the plugin at its position records; a failing answer
/// does not stop the round.
pub fn dispatch_with<F: Fn(usize) -> Result<bool, PluginError>>(n: usize, ask: F) -> (log: Vec<Delivery>)
    requires
        forall|i: usize| i < n ==> #[trigger] ask.requires((i,)),
    ensures
        stops_at_first_consumer(log@, n as nat),
        forall|i: int| 0 <= i < log.len() ==> records_answer(ask, i as usize, #[trigger] log@[i]),
{
    let mut log: Vec<Delivery> = Vec::new();
    let mut i: usize = 0;
    while i < n
        invariant
            i <= n,
            log.len() == i,
            forall|j: usize| j < n ==> #[trigger] ask.requires((j,)),
            forall|j: int| 0 <= j < log.len() ==> !(#[trigger] log@[j] is Consumed),
            forall|j: int| 0 <= j < log.len() ==> records_answer(ask, j as usize, #[trigger] log@[j]),
        decreases n - i,
    {
        let answer = ask(i);
        let delivery = delivery_of(answer);
        let consumed = matches!(delivery, Delivery::Consumed);
        log.push(delivery);
        assert(ask.ensures((i,), answer) && log@[i as int] == delivery_spec(answer));
        assert(records_answer(ask, i, log@[i as int]));
        if consumed {
            return log;
        }
        i = i + 1;
    }
    log
}

/// Offers an event to the plugins in registration order until one consumes
/// it, through `dispatch_with`. A failing handler does not stop the
/// delivery. The result records what became of the event at each plugin
/// that was offered it.
pub fn dispatch(plugins: &Vec<Box<dyn Plugin>>, event: &Event) -> (log: Vec<Delivery>)
    ensures
        stops_at_first_consumer(log@, plugins.len() as nat),
{
    dispatch_with(plugins.len(), |i: usize| -> (answer: Result<bool, PluginError>)
        requires
            i < plugins.len(),
        { offer(&*plugins[i], event) })
}

} // verus!
