//! The plain data records that the registries own: chatbots and
//! conversations, each created with an unassigned (empty) identifier that the
//! caller fills in exactly once before handing the record over.

use vstd::prelude::*;

verus! {

/// Mathematical value of a [`Chatbot`]: its identifier and its name.
pub struct ChatbotView {
    pub id: Seq<char>,
    pub name: Seq<char>,
}

/// A chatbot identity record. The identifier starts empty and is assigned by
/// the caller before the record is registered.
pub struct Chatbot {
    id: String,
    name: String,
}

impl View for Chatbot {
    type V = ChatbotView;

    closed spec fn view(&self) -> ChatbotView {
        ChatbotView { id: self.id@, name: self.name@ }
    }
}

impl DeepView for Chatbot {
    type V = ChatbotView;

    open spec fn deep_view(&self) -> ChatbotView {
        self.view()
    }
}

impl Chatbot {
    /// A fresh record: the given name, and no identifier yet.
    pub fn new(name: String) -> (r: Self)
        ensures
            r@.id == Seq::<char>::empty(),
            r@.name == name@,
    {
        Chatbot { id: String::new(), name }
    }

    /// Assigns the identifier; the name is untouched.
    pub fn set_id(&mut self, id: String)
        ensures
            final(self)@.id == id@,
            final(self)@.name == old(self)@.name,
    {
        self.id = id;
    }

    pub fn id(&self) -> (r: &String)
        ensures
            r@ == self@.id,
    {
        &self.id
    }

    pub fn name(&self) -> (r: &String)
        ensures
            r@ == self@.name,
    {
        &self.name
    }
}

impl Clone for Chatbot {
    fn clone(&self) -> (r: Self)
        ensures
            r@ == self@,
    {
        Chatbot { id: self.id.clone(), name: self.name.clone() }
    }
}

/// Mathematical value of a [`Conversation`]: its identifier, the second it
/// was created at, and its messages in order.
pub struct ConversationView {
    pub id: Seq<char>,
    pub created_at: i64,
    pub messages: Seq<Seq<char>>,
}

/// A conversation record. The creation time is fixed at construction; the
/// identifier starts empty and is assigned by the caller before the record is
/// stored; the message list only grows.
pub struct Conversation {
    id: String,
    created_at: i64,
    messages: Vec<String>,
}

impl View for Conversation {
    type V = ConversationView;

    closed spec fn view(&self) -> ConversationView {
        ConversationView {
            id: self.id@,
            created_at: self.created_at,
            messages: self.messages.deep_view(),
        }
    }
}

impl DeepView for Conversation {
    type V = ConversationView;

    open spec fn deep_view(&self) -> ConversationView {
        self.view()
    }
}

impl Conversation {
    /// A fresh record: the given creation second, no identifier yet, and no
    /// messages.
    pub fn new(created_at: i64) -> (r: Self)
        ensures
            r@.id == Seq::<char>::empty(),
            r@.created_at == created_at,
            r@.messages == Seq::<Seq<char>>::empty(),
    {
        let r = Conversation { id: String::new(), created_at, messages: Vec::new() };
        proof {
            assert(r@.messages =~= Seq::<Seq<char>>::empty());
        }
        r
    }

    /// Assigns the identifier; the creation time and the messages are
    /// untouched.
    pub fn set_id(&mut self, id: String)
        ensures
            final(self)@.id == id@,
            final(self)@.created_at == old(self)@.created_at,
            final(self)@.messages == old(self)@.messages,
    {
        self.id = id;
    }

    /// Appends one message; everything else is untouched. The message list
    /// only ever grows.
    pub fn append_message(&mut self, text: String)
        ensures
            final(self)@.id == old(self)@.id,
            final(self)@.created_at == old(self)@.created_at,
            final(self)@.messages == old(self)@.messages.push(text@),
    {
        let ghost prior = self@.messages;
        let ghost appended = text@;
        self.messages.push(text);
        proof {
            assert(self@.messages =~= prior.push(appended));
        }
    }

    pub fn id(&self) -> (r: &String)
        ensures
            r@ == self@.id,
    {
        &self.id
    }

    pub fn created_at(&self) -> (r: i64)
        ensures
            r == self@.created_at,
    {
        self.created_at
    }

    /// How many messages the conversation holds.
    pub fn message_count(&self) -> (r: usize)
        ensures
            r == self@.messages.len(),
    {
        self.messages.len()
    }

    /// The message at the given position, if there is one.
    pub fn message_at(&self, i: usize) -> (r: Option<&String>)
        ensures
            match r {
                Some(text) => i < self@.messages.len() && text@ == self@.messages[i as int],
                None => i >= self@.messages.len(),
            },
    {
        if i < self.messages.len() {
            Some(&self.messages[i])
        } else {
            None
        }
    }
}

impl Clone for Conversation {
    fn clone(&self) -> (r: Self)
        ensures
            r@ == self@,
    {
        let messages = self.messages.clone();
        proof {
            assert(messages.deep_view() =~= self.messages.deep_view());
        }
        Conversation { id: self.id.clone(), created_at: self.created_at, messages }
    }
}

} // verus!
