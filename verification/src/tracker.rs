//! The chatbot registry: a sequential consumer that owns a growable
//! collection of registered chatbots and processes one inbound command at a
//! time.

use vstd::prelude::*;

use crate::errors::RegistryError;
use crate::models::{Chatbot, ChatbotView};

verus! {

/// A request to add the carried record to the registry.
pub struct RegisterChatbot(pub Chatbot);

/// A message addressed to a specific chatbot: the text and the intended
/// recipient.
pub struct SendMessage(pub String, pub Chatbot);

/// One inbound command for the tracker, tagged with the intended operation.
pub enum TrackerCommand {
    Register(RegisterChatbot),
    Send(SendMessage),
}

/// Mathematical value of a [`TrackerCommand`].
pub enum TrackerCommandView {
    Register(ChatbotView),
    Send(Seq<char>, ChatbotView),
}

impl View for TrackerCommand {
    type V = TrackerCommandView;

    closed spec fn view(&self) -> TrackerCommandView {
        match self {
            TrackerCommand::Register(msg) => TrackerCommandView::Register(msg.0@),
            TrackerCommand::Send(msg) => TrackerCommandView::Send(msg.0@, msg.1@),
        }
    }
}

/// What one command does to the registered sequence: a register appends its
/// record; a send changes nothing.
pub open spec fn tracker_step(s: Seq<ChatbotView>, c: TrackerCommandView) -> Seq<ChatbotView> {
    match c {
        TrackerCommandView::Register(record) => s.push(record),
        TrackerCommandView::Send(_, _) => s,
    }
}

/// The registered sequence after consuming the commands in submission order.
pub open spec fn tracker_run(
    s: Seq<ChatbotView>,
    cmds: Seq<TrackerCommandView>,
) -> Seq<ChatbotView>
    decreases cmds.len(),
{
    if cmds.len() == 0 {
        s
    } else {
        tracker_step(tracker_run(s, cmds.drop_last()), cmds.last())
    }
}

/// The records that a command sequence registers, in submission order.
pub open spec fn registered_of(cmds: Seq<TrackerCommandView>) -> Seq<ChatbotView>
    decreases cmds.len(),
{
    if cmds.len() == 0 {
        Seq::empty()
    } else {
        match cmds.last() {
            TrackerCommandView::Register(record) => registered_of(cmds.drop_last()).push(record),
            TrackerCommandView::Send(_, _) => registered_of(cmds.drop_last()),
        }
    }
}

/// Whether some registered record carries the identifier.
pub open spec fn has_id(s: Seq<ChatbotView>, id: Seq<char>) -> bool {
    exists|i: int| 0 <= i < s.len() && s[i].id == id
}

/// The first registered record with the identifier, scanning from the front.
pub open spec fn find_id(s: Seq<ChatbotView>, id: Seq<char>) -> Option<ChatbotView>
    decreases s.len(),
{
    if s.len() == 0 {
        None
    } else if s.first().id == id {
        Some(s.first())
    } else {
        find_id(s.drop_first(), id)
    }
}

/// The front-to-back scan finds a record with the identifier exactly when one
/// is present.
pub proof fn lemma_find_id_has_id(s: Seq<ChatbotView>, id: Seq<char>)
    ensures
        find_id(s, id) is Some <==> has_id(s, id),
    decreases s.len(),
{
    if s.len() == 0 {
    } else if s.first().id == id {
        assert(s[0].id == id);
    } else {
        lemma_find_id_has_id(s.drop_first(), id);
        if has_id(s.drop_first(), id) {
            let i = choose|i: int|
                0 <= i < s.drop_first().len() && s.drop_first()[i].id == id;
            assert(s[i + 1].id == id);
        }
        if has_id(s, id) {
            let i = choose|i: int| 0 <= i < s.len() && s[i].id == id;
            assert(i != 0);
            assert(s.drop_first()[i - 1].id == id);
        }
    }
}

/// Reading is idempotent: without an intervening write the tracker is the
/// same value, and any two results the count may then return are equal.
pub proof fn lemma_count_read_idempotent(t: ChatbotTracker, r1: usize, r2: usize)
    requires
        call_ensures(ChatbotTracker::chatbot_count, (&t,), r1),
        call_ensures(ChatbotTracker::chatbot_count, (&t,), r2),
    ensures
        r1 == r2,
{
}

/// Reading is idempotent: any two results a lookup may return on one and the
/// same tracker agree — present together, and equal field for field.
pub proof fn lemma_find_read_idempotent(
    t: ChatbotTracker,
    id: String,
    r1: Option<&Chatbot>,
    r2: Option<&Chatbot>,
)
    requires
        call_ensures(ChatbotTracker::find_by_id, (&t, &id), r1),
        call_ensures(ChatbotTracker::find_by_id, (&t, &id), r2),
    ensures
        r1 is Some <==> r2 is Some,
        r1 matches Some(a) ==> (r2 matches Some(b) && a@ == b@),
{
    lemma_find_id_has_id(t@, id@);
}

/// Consuming any command sequence appends exactly the records it registers,
/// in order and unchanged; send commands contribute nothing.
pub proof fn lemma_tracker_run_appends(s: Seq<ChatbotView>, cmds: Seq<TrackerCommandView>)
    ensures
        tracker_run(s, cmds) == s + registered_of(cmds),
    decreases cmds.len(),
{
    if cmds.len() == 0 {
        assert(tracker_run(s, cmds) =~= s + registered_of(cmds));
    } else {
        lemma_tracker_run_appends(s, cmds.drop_last());
        assert(tracker_run(s, cmds) =~= s + registered_of(cmds));
    }
}

/// From a fresh tracker, a run of register commands stores one record per
/// command, each equal, field for field, to the record submitted.
pub proof fn lemma_register_run_is_exact(cmds: Seq<TrackerCommandView>)
    requires
        forall|i: int| 0 <= i < cmds.len() ==> cmds[i] is Register,
    ensures
        tracker_run(Seq::empty(), cmds).len() == cmds.len(),
        forall|i: int|
            0 <= i < cmds.len() ==> tracker_run(Seq::empty(), cmds)[i] == cmds[i]->Register_0,
    decreases cmds.len(),
{
    if cmds.len() == 0 {
    } else {
        let prefix = cmds.drop_last();
        assert(forall|i: int| 0 <= i < prefix.len() ==> prefix[i] == cmds[i]);
        lemma_register_run_is_exact(prefix);
        assert(cmds.last() is Register);
    }
}

/// The single authoritative in-memory registry of chatbots for this process.
pub struct ChatbotTracker {
    chatbots: Vec<Chatbot>,
}

impl View for ChatbotTracker {
    type V = Seq<ChatbotView>;

    closed spec fn view(&self) -> Seq<ChatbotView> {
        self.chatbots.deep_view()
    }
}

impl ChatbotTracker {
    /// A fresh tracker holds no chatbots.
    pub fn new() -> (r: Self)
        ensures
            r@ == Seq::<ChatbotView>::empty(),
    {
        let r = ChatbotTracker { chatbots: Vec::new() };
        proof {
            assert(r@ =~= Seq::<ChatbotView>::empty());
        }
        r
    }

    /// Appends the submitted record to the collection, unchanged.
    pub fn register(&mut self, msg: RegisterChatbot)
        ensures
            final(self)@ == old(self)@.push(msg.0@),
    {
        let ghost prior = self@;
        let ghost submitted = msg.0@;
        self.chatbots.push(msg.0);
        proof {
            assert(self@ =~= prior.push(submitted));
        }
    }

    /// Accepts a message addressed to a chatbot. No delivery occurs and the
    /// registry is left exactly as it was: routing is a deliberately separate,
    /// not-yet-added feature.
    pub fn send_message(&mut self, _msg: SendMessage)
        ensures
            final(self)@ == old(self)@,
    {
    }

    /// Consumes one command; [`tracker_step`] gives its whole effect.
    pub fn handle(&mut self, cmd: TrackerCommand)
        ensures
            final(self)@ == tracker_step(old(self)@, cmd@),
    {
        match cmd {
            TrackerCommand::Register(msg) => self.register(msg),
            TrackerCommand::Send(msg) => self.send_message(msg),
        }
    }

    /// How many chatbots have been registered.
    pub fn chatbot_count(&self) -> (r: usize)
        ensures
            r == self@.len(),
    {
        self.chatbots.len()
    }

    /// The registered record at the given position, if there is one.
    pub fn chatbot_at(&self, i: usize) -> (r: Option<&Chatbot>)
        ensures
            match r {
                Some(record) => i < self@.len() && record@ == self@[i as int],
                None => i >= self@.len(),
            },
    {
        if i < self.chatbots.len() {
            Some(&self.chatbots[i])
        } else {
            None
        }
    }

    /// The first registered record with the given identifier, if any.
    pub fn find_by_id(&self, id: &String) -> (r: Option<&Chatbot>)
        ensures
            match r {
                Some(record) => find_id(self@, id@) == Some(record@),
                None => !has_id(self@, id@),
            },
    {
        let n = self.chatbots.len();
        let mut i: usize = 0;
        proof {
            assert(self@.skip(0) =~= self@);
        }
        while i < n
            invariant
                n == self@.len(),
                i <= n,
                find_id(self@, id@) == find_id(self@.skip(i as int), id@),
            decreases n - i,
        {
            let record = &self.chatbots[i];
            let ghost rest = self@.skip(i as int);
            proof {
                assert(rest.first() == self@[i as int]);
            }
            if record.id().eq(id) {
                proof {
                    assert(find_id(rest, id@) == Some(self@[i as int]));
                }
                return Some(record);
            }
            proof {
                assert(rest.drop_first() =~= self@.skip(i + 1 as int));
            }
            i = i + 1;
        }
        proof {
            assert(self@.skip(n as int).len() == 0);
            lemma_find_id_has_id(self@, id@);
        }
        None
    }

    /// Appends the record only when its identifier is not yet registered;
    /// otherwise refuses the command and leaves the registry as it was.
    pub fn register_strict(&mut self, msg: RegisterChatbot) -> (r: Result<(), RegistryError>)
        ensures
            match r {
                Ok(_) => !has_id(old(self)@, msg.0@.id) && final(self)@ == old(self)@.push(
                    msg.0@,
                ),
                Err(e) => e == RegistryError::DuplicateIdentifier && has_id(
                    old(self)@,
                    msg.0@.id,
                ) && final(self)@ == old(self)@,
            },
    {
        let duplicate = self.find_by_id(msg.0.id()).is_some();
        proof {
            lemma_find_id_has_id(self@, msg.0@.id);
        }
        if duplicate {
            Err(RegistryError::DuplicateIdentifier)
        } else {
            self.register(msg);
            Ok(())
        }
    }

    /// Accepts a message only when the addressed chatbot is registered;
    /// either way no delivery occurs and the registry is left as it was.
    pub fn send_message_strict(&mut self, msg: SendMessage) -> (r: Result<(), RegistryError>)
        ensures
            final(self)@ == old(self)@,
            match r {
                Ok(_) => has_id(old(self)@, msg.1@.id),
                Err(e) => e == RegistryError::UnknownRecipient && !has_id(
                    old(self)@,
                    msg.1@.id,
                ),
            },
    {
        let known = self.find_by_id(msg.1.id()).is_some();
        proof {
            lemma_find_id_has_id(self@, msg.1@.id);
        }
        if known {
            Ok(())
        } else {
            Err(RegistryError::UnknownRecipient)
        }
    }
}

} // verus!
