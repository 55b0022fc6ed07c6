use luo9_sdk::plugin::{delivery_of, dispatch, dispatch_with, not_handled, offer, Delivery, Event, PluginError};
use luo9_sdk::{GroupMessage, Plugin, PluginMetadata, PrivateMessage};

fn metadata(name: &str) -> PluginMetadata {
    PluginMetadata {
        name: name.to_string(),
        describe: "test".to_string(),
        author: "tester".to_string(),
        version: "0.1.0".to_string(),
        message_types: vec!["group_message".to_string()],
    }
}

struct Silent {
    meta: PluginMetadata,
}

impl Plugin for Silent {
    fn metadata(&self) -> &PluginMetadata {
        &self.meta
    }
}

struct Answers {
    meta: PluginMetadata,
    answer: Option<bool>,
}

impl Plugin for Answers {
    fn metadata(&self) -> &PluginMetadata {
        &self.meta
    }

    fn handle_group_message(&self, _message: &GroupMessage) -> Result<bool, PluginError> {
        match self.answer {
            Some(consumed) => Ok(consumed),
            None => Err(PluginError::Failed { message: "handler failed".to_string() }),
        }
    }
}

fn group_message() -> GroupMessage {
    GroupMessage {
        message_id: "1".to_string(),
        content: "hello".to_string(),
        sender_id: "555".to_string(),
        group_id: "100".to_string(),
        raw_data: "{}".to_string(),
    }
}

fn private_message() -> PrivateMessage {
    PrivateMessage {
        message_id: "2".to_string(),
        content: "hi".to_string(),
        sender_id: "555".to_string(),
        raw_data: "{}".to_string(),
    }
}

fn answering(name: &str, answer: Option<bool>) -> Box<dyn Plugin> {
    Box::new(Answers { meta: metadata(name), answer })
}

#[test]
fn default_handlers_do_not_consume() {
    let plugin = Silent { meta: metadata("silent") };
    assert!(matches!(plugin.handle_group_message(&group_message()), Ok(false)));
    assert!(matches!(plugin.handle_private_message(&private_message()), Ok(false)));
    assert!(matches!(plugin.handle_group_poke("1", "2", "100"), Ok(false)));
    assert_eq!(plugin.metadata().name, "silent");
    assert!(matches!(not_handled(), Ok(false)));
}

#[test]
fn offer_routes_each_event_kind() {
    let plugin = Answers { meta: metadata("a"), answer: Some(true) };
    assert!(matches!(offer(&plugin, &Event::GroupMessage(group_message())), Ok(true)));
    assert!(matches!(offer(&plugin, &Event::PrivateMessage(private_message())), Ok(false)));
    let poke = Event::GroupPoke { target_id: "1".to_string(), user_id: "2".to_string(), group_id: "100".to_string() };
    assert!(matches!(offer(&plugin, &poke), Ok(false)));
}

#[test]
fn delivery_of_each_answer() {
    assert!(matches!(delivery_of(Ok(true)), Delivery::Consumed));
    assert!(matches!(delivery_of(Ok(false)), Delivery::Passed));
    assert!(matches!(
        delivery_of(Err(PluginError::Failed { message: "x".to_string() })),
        Delivery::Failed(PluginError::Failed { .. })
    ));
}

#[test]
fn failing_handler_passes_event_to_next_plugin() {
    let plugins = vec![answering("broken", None), answering("taker", Some(true)), answering("late", Some(true))];
    let log = dispatch(&plugins, &Event::GroupMessage(group_message()));
    assert_eq!(log.len(), 2);
    assert!(matches!(log[0], Delivery::Failed(_)));
    assert!(matches!(log[1], Delivery::Consumed));
}

#[test]
fn dispatch_stops_at_first_consumer() {
    let plugins = vec![answering("pass", Some(false)), answering("take", Some(true)), answering("never", Some(true))];
    let log = dispatch(&plugins, &Event::GroupMessage(group_message()));
    assert_eq!(log.len(), 2);
    assert!(matches!(log[0], Delivery::Passed));
    assert!(matches!(log[1], Delivery::Consumed));
}

#[test]
fn dispatch_offers_every_plugin_when_none_consumes() {
    let plugins = vec![answering("a", Some(false)), answering("b", None), answering("c", Some(false))];
    let log = dispatch(&plugins, &Event::GroupMessage(group_message()));
    assert_eq!(log.len(), 3);
    assert!(matches!(log[2], Delivery::Passed));
}

#[test]
fn dispatch_to_no_plugins_records_nothing() {
    let plugins: Vec<Box<dyn Plugin>> = Vec::new();
    assert!(dispatch(&plugins, &Event::PrivateMessage(private_message())).is_empty());
}

#[test]
fn dispatch_with_asks_in_order_and_records_each_answer() {
    let asked = std::cell::RefCell::new(Vec::new());
    let answers = [Err(()), Ok(false), Ok(true), Ok(true)];
    let log = dispatch_with(answers.len(), |i: usize| {
        asked.borrow_mut().push(i);
        match answers[i] {
            Ok(consumed) => Ok(consumed),
            Err(()) => Err(PluginError::Failed { message: format!("plugin {i} failed") }),
        }
    });
    assert_eq!(*asked.borrow(), vec![0, 1, 2]);
    assert_eq!(log.len(), 3);
    assert!(matches!(&log[0], Delivery::Failed(PluginError::Failed { message }) if message == "plugin 0 failed"));
    assert!(matches!(log[1], Delivery::Passed));
    assert!(matches!(log[2], Delivery::Consumed));
}
