//! The conversation registry: a sequential consumer that owns a growable
//! collection of conversation records.

use vstd::prelude::*;

use crate::errors::RegistryError;
use crate::models::{Conversation, ConversationView};

verus! {

/// The stored sequence after consuming store commands, one conversation per
/// command, in submission order.
pub open spec fn store_run(
    s: Seq<ConversationView>,
    submitted: Seq<ConversationView>,
) -> Seq<ConversationView>
    decreases submitted.len(),
{
    if submitted.len() == 0 {
        s
    } else {
        store_run(s, submitted.drop_last()).push(submitted.last())
    }
}

/// Consuming store commands appends the submitted conversations unchanged; in
/// particular each stored record keeps the creation time it was built with.
pub proof fn lemma_store_run_appends(s: Seq<ConversationView>, submitted: Seq<ConversationView>)
    ensures
        store_run(s, submitted) == s + submitted,
        forall|i: int|
            0 <= i < submitted.len() ==> store_run(s, submitted)[s.len() + i].created_at
                == submitted[i].created_at,
    decreases submitted.len(),
{
    if submitted.len() == 0 {
        assert(store_run(s, submitted) =~= s + submitted);
    } else {
        lemma_store_run_appends(s, submitted.drop_last());
        assert(store_run(s, submitted) =~= s + submitted);
    }
}

/// Reading is idempotent: without an intervening write the store is the same
/// value, and any two results the count may then return are equal.
pub proof fn lemma_count_read_idempotent(s: ConversationStore, r1: usize, r2: usize)
    requires
        call_ensures(ConversationStore::conversation_count, (&s,), r1),
        call_ensures(ConversationStore::conversation_count, (&s,), r2),
    ensures
        r1 == r2,
{
}

/// Reading is idempotent: any two results a lookup may return on one and the
/// same store agree — present together, and equal field for field.
pub proof fn lemma_find_read_idempotent(
    s: ConversationStore,
    id: String,
    r1: Option<&Conversation>,
    r2: Option<&Conversation>,
)
    requires
        call_ensures(ConversationStore::find_by_id, (&s, &id), r1),
        call_ensures(ConversationStore::find_by_id, (&s, &id), r2),
    ensures
        r1 is Some <==> r2 is Some,
        r1 matches Some(a) ==> (r2 matches Some(b) && a@ == b@),
{
    lemma_find_conversation_id_has_id(s@, id@);
}

/// Whether some stored conversation carries the identifier.
pub open spec fn has_conversation_id(s: Seq<ConversationView>, id: Seq<char>) -> bool {
    exists|i: int| 0 <= i < s.len() && s[i].id == id
}

/// The first stored conversation with the identifier, scanning from the
/// front.
pub open spec fn find_conversation_id(
    s: Seq<ConversationView>,
    id: Seq<char>,
) -> Option<ConversationView>
    decreases s.len(),
{
    if s.len() == 0 {
        None
    } else if s.first().id == id {
        Some(s.first())
    } else {
        find_conversation_id(s.drop_first(), id)
    }
}

/// The front-to-back scan finds a conversation with the identifier exactly
/// when one is present.
pub proof fn lemma_find_conversation_id_has_id(s: Seq<ConversationView>, id: Seq<char>)
    ensures
        find_conversation_id(s, id) is Some <==> has_conversation_id(s, id),
    decreases s.len(),
{
    if s.len() == 0 {
    } else if s.first().id == id {
        assert(s[0].id == id);
    } else {
        lemma_find_conversation_id_has_id(s.drop_first(), id);
        if has_conversation_id(s.drop_first(), id) {
            let i = choose|i: int|
                0 <= i < s.drop_first().len() && s.drop_first()[i].id == id;
            assert(s[i + 1].id == id);
        }
        if has_conversation_id(s, id) {
            let i = choose|i: int| 0 <= i < s.len() && s[i].id == id;
            assert(i != 0);
            assert(s.drop_first()[i - 1].id == id);
        }
    }
}

/// A request to add the carried conversation to the store.
pub struct StoreConversation(pub Conversation);

/// A placeholder worker for conversation handling; it owns no state yet.
pub struct ConversationActor;

/// The single authoritative in-memory registry of conversations for this
/// process.
pub struct ConversationStore {
    conversations: Vec<Conversation>,
}

impl View for ConversationStore {
    type V = Seq<ConversationView>;

    closed spec fn view(&self) -> Seq<ConversationView> {
        self.conversations.deep_view()
    }
}

impl ConversationStore {
    /// A fresh store holds no conversations.
    pub fn new() -> (r: Self)
        ensures
            r@ == Seq::<ConversationView>::empty(),
    {
        let r = ConversationStore { conversations: Vec::new() };
        proof {
            assert(r@ =~= Seq::<ConversationView>::empty());
        }
        r
    }

    /// Appends the submitted conversation to the collection, unchanged.
    pub fn store(&mut self, msg: StoreConversation)
        ensures
            final(self)@ == old(self)@.push(msg.0@),
    {
        let ghost prior = self@;
        let ghost submitted = msg.0@;
        self.conversations.push(msg.0);
        proof {
            assert(self@ =~= prior.push(submitted));
        }
    }

    /// How many conversations have been stored.
    pub fn conversation_count(&self) -> (r: usize)
        ensures
            r == self@.len(),
    {
        self.conversations.len()
    }

    /// The stored conversation at the given position, if there is one.
    pub fn conversation_at(&self, i: usize) -> (r: Option<&Conversation>)
        ensures
            match r {
                Some(record) => i < self@.len() && record@ == self@[i as int],
                None => i >= self@.len(),
            },
    {
        if i < self.conversations.len() {
            Some(&self.conversations[i])
        } else {
            None
        }
    }

    /// The first stored conversation with the given identifier, if any.
    pub fn find_by_id(&self, id: &String) -> (r: Option<&Conversation>)
        ensures
            match r {
                Some(record) => find_conversation_id(self@, id@) == Some(record@),
                None => !has_conversation_id(self@, id@),
            },
    {
        let n = self.conversations.len();
        let mut i: usize = 0;
        proof {
            assert(self@.skip(0) =~= self@);
        }
        while i < n
            invariant
                n == self@.len(),
                i <= n,
                find_conversation_id(self@, id@) == find_conversation_id(
                    self@.skip(i as int),
                    id@,
                ),
            decreases n - i,
        {
            let record = &self.conversations[i];
            let ghost rest = self@.skip(i as int);
            proof {
                assert(rest.first() == self@[i as int]);
            }
            if record.id().eq(id) {
                proof {
                    assert(find_conversation_id(rest, id@) == Some(self@[i as int]));
                }
                return Some(record);
            }
            proof {
                assert(rest.drop_first() =~= self@.skip(i + 1 as int));
            }
            i = i + 1;
        }
        proof {
            assert(self@.skip(n as int).len() == 0);
            lemma_find_conversation_id_has_id(self@, id@);
        }
        None
    }

    /// Appends the conversation only when its identifier is not yet stored;
    /// otherwise refuses the command and leaves the store as it was.
    pub fn store_strict(&mut self, msg: StoreConversation) -> (r: Result<(), RegistryError>)
        ensures
            match r {
                Ok(_) => !has_conversation_id(old(self)@, msg.0@.id) && final(self)@ == old(
                    self,
                )@.push(msg.0@),
                Err(e) => e == RegistryError::DuplicateIdentifier && has_conversation_id(
                    old(self)@,
                    msg.0@.id,
                ) && final(self)@ == old(self)@,
            },
    {
        let duplicate = self.find_by_id(msg.0.id()).is_some();
        proof {
            lemma_find_conversation_id_has_id(self@, msg.0@.id);
        }
        if duplicate {
            Err(RegistryError::DuplicateIdentifier)
        } else {
            self.store(msg);
            Ok(())
        }
    }
}

} // verus!
