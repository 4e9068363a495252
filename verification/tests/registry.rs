use chat_registry::errors::RegistryError;
use chat_registry::models::{Chatbot, Conversation};
use chat_registry::store::{ConversationStore, StoreConversation};
use chat_registry::tracker::{ChatbotTracker, RegisterChatbot, SendMessage, TrackerCommand};

fn bot(name: &str, id: &str) -> Chatbot {
    let mut c = Chatbot::new(name.to_string());
    c.set_id(id.to_string());
    c
}

#[test]
fn fresh_records_have_unassigned_identifiers() {
    let c = Chatbot::new("SampleBot".to_string());
    assert_eq!(c.id().as_str(), "");
    assert_eq!(c.name().as_str(), "SampleBot");
    let v = Conversation::new(0);
    assert_eq!(v.id().as_str(), "");
    assert_eq!(v.created_at(), 0);
    assert_eq!(v.message_count(), 0);
}

#[test]
fn register_stores_each_record_unchanged() {
    let mut tracker = ChatbotTracker::new();
    tracker.register(RegisterChatbot(bot("alpha", "id-a")));
    tracker.register(RegisterChatbot(bot("beta", "id-b")));
    tracker.register(RegisterChatbot(bot("gamma", "id-c")));
    assert_eq!(tracker.chatbot_count(), 3);
    let first = tracker.chatbot_at(0).unwrap();
    assert_eq!(first.name().as_str(), "alpha");
    assert_eq!(first.id().as_str(), "id-a");
    let second = tracker.chatbot_at(1).unwrap();
    assert_eq!(second.name().as_str(), "beta");
    assert_eq!(second.id().as_str(), "id-b");
    let third = tracker.chatbot_at(2).unwrap();
    assert_eq!(third.name().as_str(), "gamma");
    assert_eq!(third.id().as_str(), "id-c");
    assert!(tracker.chatbot_at(3).is_none());
}

#[test]
fn sample_bot_scenario() {
    let mut tracker = ChatbotTracker::new();
    let chatbot = bot("SampleBot", "id-1");
    tracker.register(RegisterChatbot(chatbot));
    assert_eq!(tracker.chatbot_count(), 1);
    let stored = tracker.chatbot_at(0).unwrap();
    assert_eq!(stored.name().as_str(), "SampleBot");
    assert_eq!(stored.id().as_str(), "id-1");
}

#[test]
fn conversation_scenario() {
    let mut store = ConversationStore::new();
    let mut conversation = Conversation::new(1700000000);
    conversation.set_id("conv-1".to_string());
    store.store(StoreConversation(conversation));
    assert_eq!(store.conversation_count(), 1);
    let stored = store.conversation_at(0).unwrap();
    assert_eq!(stored.id().as_str(), "conv-1");
    assert_eq!(stored.created_at(), 1700000000);
    assert_eq!(stored.message_count(), 0);
    assert!(stored.message_at(0).is_none());
}

#[test]
fn send_message_is_a_no_op() {
    let mut tracker = ChatbotTracker::new();
    tracker.send_message(SendMessage("hello".to_string(), bot("ghost", "id-g")));
    assert_eq!(tracker.chatbot_count(), 0);
    tracker.register(RegisterChatbot(bot("alpha", "id-a")));
    tracker.send_message(SendMessage("hello again".to_string(), bot("alpha", "id-a")));
    tracker.send_message(SendMessage("anyone?".to_string(), bot("ghost", "id-g")));
    assert_eq!(tracker.chatbot_count(), 1);
    assert_eq!(tracker.chatbot_at(0).unwrap().name().as_str(), "alpha");
}

#[test]
fn handle_dispatches_by_command() {
    let mut tracker = ChatbotTracker::new();
    tracker.handle(TrackerCommand::Register(RegisterChatbot(bot("alpha", "id-a"))));
    tracker.handle(TrackerCommand::Send(SendMessage(
        "hi".to_string(),
        bot("alpha", "id-a"),
    )));
    tracker.handle(TrackerCommand::Register(RegisterChatbot(bot("beta", "id-b"))));
    assert_eq!(tracker.chatbot_count(), 2);
    assert_eq!(tracker.chatbot_at(1).unwrap().name().as_str(), "beta");
}

#[test]
fn duplicate_identifiers_are_kept_when_lenient() {
    let mut tracker = ChatbotTracker::new();
    tracker.register(RegisterChatbot(bot("first", "id-dup")));
    tracker.register(RegisterChatbot(bot("second", "id-dup")));
    assert_eq!(tracker.chatbot_count(), 2);
    assert_eq!(tracker.chatbot_at(0).unwrap().name().as_str(), "first");
    assert_eq!(tracker.chatbot_at(1).unwrap().name().as_str(), "second");
}

#[test]
fn duplicate_identifier_is_rejected_when_strict() {
    let mut tracker = ChatbotTracker::new();
    assert_eq!(tracker.register_strict(RegisterChatbot(bot("first", "id-dup"))), Ok(()));
    assert_eq!(
        tracker.register_strict(RegisterChatbot(bot("second", "id-dup"))),
        Err(RegistryError::DuplicateIdentifier)
    );
    assert_eq!(tracker.chatbot_count(), 1);
    assert_eq!(tracker.chatbot_at(0).unwrap().name().as_str(), "first");
}

#[test]
fn unknown_recipient_is_rejected_when_strict() {
    let mut tracker = ChatbotTracker::new();
    assert_eq!(
        tracker.send_message_strict(SendMessage("hi".to_string(), bot("ghost", "id-g"))),
        Err(RegistryError::UnknownRecipient)
    );
    tracker.register(RegisterChatbot(bot("alpha", "id-a")));
    assert_eq!(
        tracker.send_message_strict(SendMessage("hi".to_string(), bot("alpha", "id-a"))),
        Ok(())
    );
    assert_eq!(tracker.chatbot_count(), 1);
}

#[test]
fn find_by_id_returns_the_first_match() {
    let mut tracker = ChatbotTracker::new();
    tracker.register(RegisterChatbot(bot("first", "id-dup")));
    tracker.register(RegisterChatbot(bot("second", "id-dup")));
    let found = tracker.find_by_id(&"id-dup".to_string()).unwrap();
    assert_eq!(found.name().as_str(), "first");
    assert!(tracker.find_by_id(&"id-missing".to_string()).is_none());
}

#[test]
fn reads_are_idempotent() {
    let mut tracker = ChatbotTracker::new();
    tracker.register(RegisterChatbot(bot("alpha", "id-a")));
    assert_eq!(tracker.chatbot_count(), tracker.chatbot_count());
    let id = "id-a".to_string();
    let once = tracker.find_by_id(&id).unwrap().name().clone();
    let twice = tracker.find_by_id(&id).unwrap().name().clone();
    assert_eq!(once, twice);
    let at_once = tracker.chatbot_at(0).unwrap().id().clone();
    let at_twice = tracker.chatbot_at(0).unwrap().id().clone();
    assert_eq!(at_once, at_twice);

    let mut store = ConversationStore::new();
    store.store(StoreConversation(Conversation::new(42)));
    assert_eq!(store.conversation_count(), store.conversation_count());
    assert_eq!(
        store.conversation_at(0).unwrap().created_at(),
        store.conversation_at(0).unwrap().created_at()
    );
}

#[test]
fn store_keeps_creation_times() {
    let mut store = ConversationStore::new();
    store.store(StoreConversation(Conversation::new(1700000000)));
    store.store(StoreConversation(Conversation::new(-5)));
    assert_eq!(store.conversation_count(), 2);
    assert_eq!(store.conversation_at(0).unwrap().created_at(), 1700000000);
    assert_eq!(store.conversation_at(1).unwrap().created_at(), -5);
}

#[test]
fn store_strict_rejects_duplicate_identifier() {
    let mut store = ConversationStore::new();
    let mut a = Conversation::new(1);
    a.set_id("conv-1".to_string());
    let mut b = Conversation::new(2);
    b.set_id("conv-1".to_string());
    assert_eq!(store.store_strict(StoreConversation(a)), Ok(()));
    assert_eq!(
        store.store_strict(StoreConversation(b)),
        Err(RegistryError::DuplicateIdentifier)
    );
    assert_eq!(store.conversation_count(), 1);
    assert_eq!(store.conversation_at(0).unwrap().created_at(), 1);
    let found = store.find_by_id(&"conv-1".to_string()).unwrap();
    assert_eq!(found.created_at(), 1);
}

#[test]
fn messages_only_grow() {
    let mut conversation = Conversation::new(7);
    assert_eq!(conversation.message_count(), 0);
    conversation.append_message("first".to_string());
    conversation.append_message("second".to_string());
    assert_eq!(conversation.message_count(), 2);
    assert_eq!(conversation.message_at(0).unwrap().as_str(), "first");
    assert_eq!(conversation.message_at(1).unwrap().as_str(), "second");
    assert_eq!(conversation.created_at(), 7);
}

#[test]
fn clones_keep_every_field() {
    let chatbot = bot("alpha", "id-a");
    let copy = chatbot.clone();
    assert_eq!(copy.name().as_str(), "alpha");
    assert_eq!(copy.id().as_str(), "id-a");

    let mut conversation = Conversation::new(9);
    conversation.set_id("conv-9".to_string());
    conversation.append_message("hello".to_string());
    let copy = conversation.clone();
    assert_eq!(copy.id().as_str(), "conv-9");
    assert_eq!(copy.created_at(), 9);
    assert_eq!(copy.message_count(), 1);
    assert_eq!(copy.message_at(0).unwrap().as_str(), "hello");
}
