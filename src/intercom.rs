//! The handler registry: a mapping from handler id to the pair of channels of
//! that handler, and the dispatch cycle that moves messages between the
//! console and every registered handler.

use vstd::prelude::*;

use std::sync::mpsc::{Receiver, Sender};

use crate::channel::{new_channel, poll, send, Poll};
use crate::error::MCManageError;
use crate::handler_id::{
    handler_id, handler_id_text, leading_char, leading_char_of, lemma_free_number_exists,
    valid_handler_type,
};
use crate::message::{texts, Message};

verus! {

/// Errors of the handler registry.
#[derive(Debug)]
pub enum InterComError {
    /// The id was free in the id list but taken in the channel storage.
    DesyncedChannelStorage(String),
    /// The id is not registered.
    IDNotFound(String),
    /// The handler type is neither `r` nor `c`.
    InvalidType(char),
    /// A lifecycle error of the registry.
    MCManageError(MCManageError),
}

/// The channels that the registry keeps for one handler.
struct HandlerSlot {
    /// The id of the handler.
    id: String,
    /// Carries messages from the registry to the handler.
    to_handler: Sender<Message>,
    /// Carries messages from the handler to the registry.
    from_handler: Receiver<Message>,
}

/// What became of the message that the console had waiting, in one cycle.
#[derive(Debug)]
pub enum ConsoleStep {
    /// No message was waiting.
    Idle,
    /// The message was handed to the handler with this id.
    Delivered(String),
    /// No handler has the message's receiver id; the message was dropped.
    Dropped(String),
    /// The console's channel is gone.
    Disconnected,
}

/// The result of one dispatch cycle, and what the owner has to do next.
#[derive(Debug, PartialEq, Eq, Structural, Clone, Copy)]
pub enum DispatchOutcome {
    /// Keep cycling after one refresh interval.
    Continue,
    /// The console is gone: the owning component has to shut down.
    StopOwner,
    /// The id list and the channel storage disagree: the owning component
    /// has to be restarted.
    RestartOwner,
}

/// The smallest sequence number from `n` on whose id of type `t` is not in
/// `ids`.
pub open spec fn first_free(ids: Seq<Seq<char>>, t: char, n: nat) -> nat
    decreases ids.len() - n,
{
    if !ids.contains(handler_id(t, n)) || n >= ids.len() {
        n
    } else {
        first_free(ids, t, n + 1)
    }
}

/// The id that the registry gives the next handler of type `t`: the type
/// followed by the smallest sequence number not in use for that type.
pub open spec fn next_id(ids: Seq<Seq<char>>, t: char) -> Seq<char> {
    handler_id(t, first_free(ids, t, 0))
}

/// The ids that a registry holding `ids0` holds after handlers of the given
/// types were added one after another.
pub open spec fn ids_after_adds(ids0: Seq<Seq<char>>, types: Seq<char>) -> Seq<Seq<char>>
    decreases types.len(),
{
    if types.len() == 0 {
        ids0
    } else {
        let before = ids_after_adds(ids0, types.drop_last());
        before.push(next_id(before, types.last()))
    }
}

/// The number `first_free` settles on is free, and every smaller number from
/// `n` on is in use.
proof fn lemma_first_free(ids: Seq<Seq<char>>, t: char, n: nat)
    requires
        forall|m: nat| m < n ==> ids.contains(#[trigger] handler_id(t, m)),
    ensures
        n <= first_free(ids, t, n),
        !ids.contains(handler_id(t, first_free(ids, t, n))),
        forall|m: nat| m < first_free(ids, t, n) ==> ids.contains(#[trigger] handler_id(t, m)),
    decreases ids.len() - n,
{
    if !ids.contains(handler_id(t, n)) {
    } else if n >= ids.len() {
        lemma_free_number_exists(t, ids, n);
    } else {
        assert forall|m: nat| m < n + 1 implies ids.contains(#[trigger] handler_id(t, m)) by {
            if m < n {
            }
        }
        lemma_first_free(ids, t, n + 1);
    }
}

/// The id given to a new handler is not yet in use, and every id of that type
/// with a smaller sequence number is.
pub proof fn lemma_next_id_fresh(ids: Seq<Seq<char>>, t: char)
    ensures
        !ids.contains(next_id(ids, t)),
        forall|m: nat| m < first_free(ids, t, 0) ==> ids.contains(#[trigger] handler_id(t, m)),
{
    lemma_first_free(ids, t, 0);
}

/// Adding handlers one after another to a registry whose ids are distinct,
/// with no removal in between, gives ids that are pairwise distinct and new:
/// each is the smallest free one of its type when it was given, and the ids
/// held before are kept in front.
pub proof fn lemma_ids_after_adds_distinct(ids0: Seq<Seq<char>>, types: Seq<char>)
    requires
        ids0.no_duplicates(),
    ensures
        ids_after_adds(ids0, types).len() == ids0.len() + types.len(),
        ids_after_adds(ids0, types).no_duplicates(),
        ids_after_adds(ids0, types).take(ids0.len() as int) == ids0,
        forall|i: int|
            0 <= i < types.len() ==> #[trigger] ids_after_adds(ids0, types)[ids0.len() + i] == next_id(
                ids_after_adds(ids0, types.take(i)),
                types[i],
            ) && !ids0.contains(ids_after_adds(ids0, types)[ids0.len() + i]),
    decreases types.len(),
{
    if types.len() == 0 {
        assert(ids0.take(ids0.len() as int) =~= ids0);
    } else {
        let prefix = types.drop_last();
        let before = ids_after_adds(ids0, prefix);
        let after = ids_after_adds(ids0, types);
        lemma_ids_after_adds_distinct(ids0, prefix);
        lemma_next_id_fresh(before, types.last());
        assert(after.take(ids0.len() as int) =~= before.take(ids0.len() as int));
        assert forall|i: int| 0 <= i < types.len() implies #[trigger] after[ids0.len() + i]
            == next_id(ids_after_adds(ids0, types.take(i)), types[i]) && !ids0.contains(
            after[ids0.len() + i],
        ) by {
            if i < types.len() - 1 {
                assert(prefix.take(i) =~= types.take(i));
                assert(before[ids0.len() + i] == next_id(ids_after_adds(ids0, prefix.take(i)), prefix[i]));
            } else {
                assert(types.take(i) =~= prefix);
                if ids0.contains(after[ids0.len() + i]) {
                    let k = choose|k: int| 0 <= k < ids0.len() && ids0[k] == after[ids0.len() + i];
                    assert(before[k] == ids0[k]);
                }
            }
        }
    }
}

/// `pos` places the elements of `a` in `b`, in increasing order.
pub open spec fn subseq_witness(a: Seq<Seq<char>>, b: Seq<Seq<char>>, pos: Seq<int>) -> bool {
    &&& pos.len() == a.len()
    &&& forall|k: int| 0 <= k < a.len() ==> 0 <= #[trigger] pos[k] < b.len() && a[k] == b[pos[k]]
    &&& forall|k: int, l: int| 0 <= k < l < pos.len() ==> #[trigger] pos[k] < #[trigger] pos[l]
}

/// `a` is `b` with some elements left out, the others in their order.
pub open spec fn ordered_subseq(a: Seq<Seq<char>>, b: Seq<Seq<char>>) -> bool {
    exists|pos: Seq<int>| subseq_witness(a, b, pos)
}

proof fn lemma_ordered_subseq_refl(a: Seq<Seq<char>>)
    ensures
        ordered_subseq(a, a),
{
    assert(subseq_witness(a, a, Seq::new(a.len(), |k: int| k)));
}

/// Removing one element of a sequence without duplicates removes exactly that
/// element from its set.
proof fn lemma_remove_unique(s: Seq<Seq<char>>, i: int)
    requires
        s.no_duplicates(),
        0 <= i < s.len(),
    ensures
        s.remove(i).no_duplicates(),
        s.remove(i).to_set() =~= s.to_set().remove(s[i]),
{
    let r = s.remove(i);
    assert forall|x: Seq<char>| r.to_set().contains(x) <==> s.to_set().remove(s[i]).contains(x) by {
        if r.contains(x) {
            let k = choose|k: int| 0 <= k < r.len() && r[k] == x;
            if k < i {
                assert(s[k] == x);
            } else {
                assert(s[k + 1] == x);
            }
        }
        if s.contains(x) && x != s[i] {
            let k = choose|k: int| 0 <= k < s.len() && s[k] == x;
            if k < i {
                assert(r[k] == x);
            } else {
                assert(r[k - 1] == x);
            }
        }
    }
}

/// The registry of handlers and the console's two channel ends.
pub struct InterCom {
    /// Carries messages to the console.
    sender: Sender<Message>,
    /// Carries messages from the console.
    receiver: Option<Receiver<Message>>,
    /// The id of every registered handler.
    handler_list: Vec<String>,
    /// The channels of every registered handler, keyed by its id.
    handlers: Vec<HandlerSlot>,
    /// Whether the dispatch cycle is to keep running.
    alive: bool,
    /// Whether the registry has been bound to its owning component.
    communicator_set: bool,
}

impl InterCom {
    /// The ids in the id list, in the order in which they were added.
    pub closed spec fn ids(&self) -> Seq<Seq<char>> {
        texts(self.handler_list@)
    }

    /// The ids under which the channel storage holds channels.
    pub closed spec fn keys(&self) -> Seq<Seq<char>> {
        self.handlers@.map_values(|h: HandlerSlot| h.id@)
    }

    /// Whether the registry has been bound to its owning component.
    pub closed spec fn is_bound(&self) -> bool {
        self.communicator_set
    }

    /// Whether the dispatch cycle is to keep running.
    pub closed spec fn is_running(&self) -> bool {
        self.alive
    }

    /// Whether the console's receiving end is still held.
    pub closed spec fn has_console(&self) -> bool {
        self.receiver is Some
    }

    /// The id list and the channel storage hold the same ids, each once.
    pub open spec fn wf(&self) -> bool {
        &&& self.is_running() ==> self.is_bound()
        &&& forall|i: int| 0 <= i < self.ids().len() ==> valid_handler_type(leading_char(#[trigger] self.ids()[i]))
        &&& self.ids().no_duplicates()
        &&& self.keys().no_duplicates()
        &&& self.ids().to_set() == self.keys().to_set()
    }

    /// After any sequence of additions and removals the id list and the
    /// channel storage hold the same set of ids: every operation that changes
    /// them keeps `wf`, which says so.
    pub proof fn lemma_registry_sets_agree(&self)
        requires
            self.wf(),
        ensures
            self.ids().to_set() == self.keys().to_set(),
            self.ids().len() == self.keys().len(),
    {
        self.ids().unique_seq_to_set();
        self.keys().unique_seq_to_set();
    }

    /// A registry without handlers, not yet bound and not running.
    pub fn new(sender: Sender<Message>, receiver: Receiver<Message>) -> (r: Self)
        ensures
            r.wf(),
            r.ids() == Seq::<Seq<char>>::empty(),
            !r.is_bound(),
            !r.is_running(),
            r.has_console(),
    {
        let r = InterCom {
            sender,
            receiver: Some(receiver),
            handler_list: Vec::new(),
            handlers: Vec::new(),
            alive: false,
            communicator_set: false,
        };
        assert(r.ids() =~= Seq::<Seq<char>>::empty());
        assert(r.keys() =~= Seq::<Seq<char>>::empty());
        r
    }

    /// The registry without handlers that a restart of its owner starts from:
    /// the console's channel ends and the binding are kept.
    pub fn reset(&mut self)
        requires
            old(self).wf(),
        ensures
            final(self).wf(),
            final(self).ids() == Seq::<Seq<char>>::empty(),
            final(self).is_bound() == old(self).is_bound(),
            !final(self).is_running(),
            final(self).has_console() == old(self).has_console(),
    {
        self.handler_list = Vec::new();
        self.handlers = Vec::new();
        self.alive = false;
        assert(self.ids() =~= Seq::<Seq<char>>::empty());
        assert(self.keys() =~= Seq::<Seq<char>>::empty());
    }

    /// Bind the registry to its owning component; handlers can be added from
    /// then on.
    pub fn set_communicator(&mut self)
        requires
            old(self).wf(),
        ensures
            final(self).wf(),
            final(self).is_bound(),
            final(self).ids() == old(self).ids(),
            final(self).is_running() == old(self).is_running(),
            final(self).has_console() == old(self).has_console(),
    {
        self.communicator_set = true;
    }

    /// Mark the dispatch cycle as running. Refused with `NotReady` while the
    /// registry is not bound to its owner.
    pub fn start(&mut self) -> (r: Result<(), MCManageError>)
        requires
            old(self).wf(),
        ensures
            final(self).wf(),
            final(self).ids() == old(self).ids(),
            final(self).is_bound() == old(self).is_bound(),
            final(self).has_console() == old(self).has_console(),
            old(self).is_bound() ==> r is Ok && final(self).is_running(),
            !old(self).is_bound() ==> r == Err::<(), MCManageError>(MCManageError::NotReady)
                && !final(self).is_running(),
    {
        if !self.communicator_set {
            return Err(MCManageError::NotReady);
        }
        self.alive = true;
        Ok(())
    }

    /// Mark the dispatch cycle as stopped; it ends at its next check.
    pub fn stop(&mut self)
        requires
            old(self).wf(),
        ensures
            final(self).wf(),
            final(self).ids() == old(self).ids(),
            final(self).is_bound() == old(self).is_bound(),
            final(self).has_console() == old(self).has_console(),
            !final(self).is_running(),
    {
        self.alive = false;
    }

    /// Whether the dispatch cycle is to keep running.
    pub fn is_alive(&self) -> (r: bool)
        ensures
            r == self.is_running(),
    {
        self.alive
    }

    /// Whether a handler with this id is registered.
    pub fn contains_handler(&self, handler_id: &str) -> (r: bool)
        ensures
            r == self.ids().contains(handler_id@),
    {
        match self.list_position(handler_id) {
            Some(_) => true,
            None => false,
        }
    }

    /// Whether the channel storage holds channels for this id.
    pub fn has_channels(&self, handler_id: &str) -> (r: bool)
        ensures
            r == self.keys().contains(handler_id@),
    {
        match self.slot_position(handler_id) {
            Some(_) => true,
            None => false,
        }
    }

    /// The number of registered handlers.
    pub fn handler_count(&self) -> (r: usize)
        ensures
            r == self.ids().len(),
    {
        self.handler_list.len()
    }

    /// The place of an id in the id list.
    fn list_position(&self, id: &str) -> (r: Option<usize>)
        ensures
            r matches Some(i) ==> i < self.ids().len() && self.ids()[i as int] == id@,
            r is None ==> !self.ids().contains(id@),
    {
        let target = id.to_owned();
        let mut i: usize = 0;
        while i < self.handler_list.len()
            invariant
                i <= self.handler_list@.len(),
                target@ == id@,
                forall|k: int| 0 <= k < i ==> self.ids()[k] != id@,
            decreases self.handler_list@.len() - i,
        {
            if self.handler_list[i].eq(&target) {
                return Some(i);
            }
            i = i + 1;
        }
        None
    }

    /// The place of an id in the channel storage.
    fn slot_position(&self, id: &str) -> (r: Option<usize>)
        ensures
            r matches Some(j) ==> j < self.keys().len() && self.keys()[j as int] == id@,
            r is None ==> !self.keys().contains(id@),
    {
        let target = id.to_owned();
        let mut j: usize = 0;
        while j < self.handlers.len()
            invariant
                j <= self.handlers@.len(),
                target@ == id@,
                forall|k: int| 0 <= k < j ==> self.keys()[k] != id@,
            decreases self.handlers@.len() - j,
        {
            if self.handlers[j].id.eq(&target) {
                return Some(j);
            }
            j = j + 1;
        }
        None
    }

    /// Take the handler at place `i` of the id list and place `j` of the
    /// channel storage out of both.
    fn remove_at(&mut self, i: usize, j: usize)
        requires
            old(self).wf(),
            i < old(self).ids().len(),
            j < old(self).keys().len(),
            old(self).ids()[i as int] == old(self).keys()[j as int],
        ensures
            final(self).wf(),
            final(self).ids() == old(self).ids().remove(i as int),
            final(self).ids().to_set() == old(self).ids().to_set().remove(old(self).ids()[i as int]),
            final(self).is_bound() == old(self).is_bound(),
            final(self).is_running() == old(self).is_running(),
            final(self).has_console() == old(self).has_console(),
    {
        let ghost ids0 = self.ids();
        let ghost keys0 = self.keys();
        self.handler_list.remove(i);
        self.handlers.remove(j);
        proof {
            assert(self.ids() =~= ids0.remove(i as int));
            assert(self.keys() =~= keys0.remove(j as int));
            lemma_remove_unique(ids0, i as int);
            lemma_remove_unique(keys0, j as int);
        }
    }

    /// Register a new handler of type `handler_type` (`r` for a runner, `c`
    /// for a client). It gets the smallest free id of its type and a fresh
    /// pair of channels; the registry keeps one end of each, and the id with
    /// the other ends is returned.
    pub fn add_handler(&mut self, handler_type: char) -> (r: Result<
        (String, Sender<Message>, Receiver<Message>),
        InterComError,
    >)
        requires
            old(self).wf(),
        ensures
            final(self).wf(),
            final(self).is_bound() == old(self).is_bound(),
            final(self).is_running() == old(self).is_running(),
            final(self).has_console() == old(self).has_console(),
            !valid_handler_type(handler_type) ==> (r matches Err(InterComError::InvalidType(c))
                && c == handler_type),
            valid_handler_type(handler_type) && !old(self).is_bound() ==> (r matches Err(
                InterComError::MCManageError(e),
            ) && e == MCManageError::NotReady),
            r is Err ==> final(self).ids() == old(self).ids(),
            valid_handler_type(handler_type) && old(self).is_bound() ==> (r matches Ok(
                (id, _, _),
            ) && id@ == next_id(old(self).ids(), handler_type) && final(self).ids() == old(self).ids().push(id@)),
    {
        if handler_type != 'r' && handler_type != 'c' {
            return Err(InterComError::InvalidType(handler_type));
        }
        if !self.communicator_set {
            return Err(InterComError::MCManageError(MCManageError::NotReady));
        }
        let ghost ids0 = self.ids();
        let count = self.handler_list.len();
        let mut n: usize = 0;
        let mut candidate = handler_id_text(handler_type, n);
        proof {
            lemma_first_free(ids0, handler_type, 0);
        }
        loop
            invariant
                valid_handler_type(handler_type),
                self.ids() == ids0,
                ids0.len() == count,
                n <= ids0.len(),
                candidate@ == handler_id(handler_type, n as nat),
                forall|m: nat| m < n ==> ids0.contains(#[trigger] handler_id(handler_type, m)),
                first_free(ids0, handler_type, n as nat) == first_free(ids0, handler_type, 0),
            ensures
                candidate@ == handler_id(handler_type, n as nat),
                !ids0.contains(handler_id(handler_type, n as nat)),
                first_free(ids0, handler_type, n as nat) == first_free(ids0, handler_type, 0),
            decreases ids0.len() - n,
        {
            match self.list_position(candidate.as_str()) {
                None => {
                    break ;
                },
                Some(_) => {
                    proof {
                        assert forall|m: nat| m <= n implies ids0.contains(
                            #[trigger] handler_id(handler_type, m),
                        ) by {
                            if m < n {
                            }
                        }
                        lemma_free_number_exists(handler_type, ids0, n as nat);
                    }
                    n = n + 1;
                    candidate = handler_id_text(handler_type, n);
                },
            }
        }
        proof {
            assert(first_free(ids0, handler_type, n as nat) == n);
        }
        proof {
            if self.keys().contains(candidate@) {
                assert(self.keys().to_set().contains(candidate@));
                assert(ids0.to_set().contains(candidate@));
            }
        }
        if self.slot_position(candidate.as_str()).is_some() {
            return Err(InterComError::DesyncedChannelStorage(candidate));
        }
        let (intercom_send, handler_receive) = new_channel();
        let (handler_send, intercom_receive) = new_channel();
        let ghost keys0 = self.keys();
        let handler_id = candidate.clone();
        let slot_id = candidate.clone();
        self.handler_list.push(candidate);
        self.handlers.push(
            HandlerSlot { id: slot_id, to_handler: intercom_send, from_handler: intercom_receive },
        );
        proof {
            assert(self.ids() =~= ids0.push(handler_id@));
            assert(self.keys() =~= keys0.push(handler_id@));
            assert(!keys0.contains(handler_id@)) by {
                if keys0.contains(handler_id@) {
                    assert(keys0.to_set().contains(handler_id@));
                }
            }
            ids0.lemma_push_to_set_commute(handler_id@);
            keys0.lemma_push_to_set_commute(handler_id@);
            assert(self.ids().no_duplicates());
            assert(self.keys().no_duplicates());
        }
        Ok((handler_id, handler_send, handler_receive))
    }

    /// Remove the handler with id `handler_id` from the id list and from the
    /// channel storage. The channels of a removed handler are dropped, which
    /// its connection notices.
    pub fn remove_handler(&mut self, handler_id: &str) -> (r: Result<(), InterComError>)
        requires
            old(self).wf(),
        ensures
            final(self).wf(),
            final(self).is_bound() == old(self).is_bound(),
            final(self).is_running() == old(self).is_running(),
            final(self).has_console() == old(self).has_console(),
            !valid_handler_type(leading_char(handler_id@)) ==> (r matches Err(
                InterComError::InvalidType(c),
            ) && c == leading_char(handler_id@)),
            valid_handler_type(leading_char(handler_id@)) && !old(self).is_bound() ==> (r matches Err(
                InterComError::MCManageError(e),
            ) && e == MCManageError::NotReady),
            valid_handler_type(leading_char(handler_id@)) && old(self).is_bound() && !old(self).ids().contains(handler_id@) ==> (r matches Err(InterComError::IDNotFound(id))
                && id@ == handler_id@),
            valid_handler_type(leading_char(handler_id@)) && old(self).is_bound() && old(self).ids().contains(handler_id@) ==> r is Ok,
            old(self).is_bound() && old(self).ids().contains(handler_id@) ==> r is Ok,
            r is Err ==> final(self).ids() == old(self).ids(),
            r is Ok ==> (exists|i: int|
                0 <= i < old(self).ids().len() && old(self).ids()[i] == handler_id@ && final(self).ids() == old(self).ids().remove(i)),
            r is Ok ==> final(self).ids().to_set() == old(self).ids().to_set().remove(handler_id@),
            r is Ok ==> !final(self).ids().contains(handler_id@),
    {
        let first = leading_char_of(handler_id);
        proof {
            if self.ids().contains(handler_id@) {
                let k = choose|k: int| 0 <= k < self.ids().len() && self.ids()[k] == handler_id@;
                assert(valid_handler_type(leading_char(self.ids()[k])));
            }
        }
        if first != 'r' && first != 'c' {
            return Err(InterComError::InvalidType(first));
        }
        if !self.communicator_set {
            return Err(InterComError::MCManageError(MCManageError::NotReady));
        }
        let i = match self.list_position(handler_id) {
            Some(i) => i,
            None => return Err(InterComError::IDNotFound(handler_id.to_owned())),
        };
        proof {
            assert(self.ids().to_set().contains(handler_id@));
            assert(self.keys().to_set().contains(handler_id@));
        }
        let j = match self.slot_position(handler_id) {
            Some(j) => j,
            None => return Err(InterComError::IDNotFound(handler_id.to_owned())),
        };
        self.remove_at(i, j);
        proof {
            assert(!self.ids().to_set().contains(handler_id@));
        }
        Ok(())
    }

    /// Hand a message from the console to the handler whose id is the
    /// message's receiver; drop it when no handler has that id. Only that
    /// handler's channel gets it: ids are unique in the channel storage.
    pub fn deliver(&mut self, msg: Message) -> (r: ConsoleStep)
        requires
            old(self).wf(),
        ensures
            final(self).wf(),
            final(self).ids() == old(self).ids(),
            final(self).is_bound() == old(self).is_bound(),
            final(self).is_running() == old(self).is_running(),
            final(self).has_console() == old(self).has_console(),
            old(self).ids().contains(msg@.receiver) ==> (r matches ConsoleStep::Delivered(id)
                && id@ == msg@.receiver),
            !old(self).ids().contains(msg@.receiver) ==> (r matches ConsoleStep::Dropped(id)
                && id@ == msg@.receiver),
    {
        let target = msg.receiver().clone();
        match self.slot_position(target.as_str()) {
            Some(j) => {
                let _ = send(&self.handlers[j].to_handler, msg);
                proof {
                    assert(self.keys().contains(target@));
                    assert(self.keys().to_set().contains(target@));
                    assert(self.ids().to_set().contains(target@));
                }
                ConsoleStep::Delivered(target)
            },
            None => {
                proof {
                    if self.ids().contains(target@) {
                        assert(self.ids().to_set().contains(target@));
                        assert(self.keys().to_set().contains(target@));
                    }
                }
                ConsoleStep::Dropped(target)
            },
        }
    }

    /// What the console's channel showed, acted on: a waiting message is
    /// delivered; nothing waiting leaves nothing to do; a gone channel is
    /// reported.
    pub fn on_console_poll(&mut self, p: Poll) -> (r: ConsoleStep)
        requires
            old(self).wf(),
        ensures
            final(self).wf(),
            final(self).ids() == old(self).ids(),
            final(self).is_bound() == old(self).is_bound(),
            final(self).is_running() == old(self).is_running(),
            final(self).has_console() == old(self).has_console(),
            p is Empty ==> r is Idle,
            p is Disconnected ==> r is Disconnected,
            p matches Poll::Received(m) ==> (old(self).ids().contains(m@.receiver) ==> (r matches ConsoleStep::Delivered(id)
                && id@ == m@.receiver)),
            p matches Poll::Received(m) ==> (!old(self).ids().contains(m@.receiver) ==> (r matches ConsoleStep::Dropped(id)
                && id@ == m@.receiver)),
    {
        match p {
            Poll::Received(msg) => self.deliver(msg),
            Poll::Empty => ConsoleStep::Idle,
            Poll::Disconnected => ConsoleStep::Disconnected,
        }
    }

    /// The first half of a dispatch cycle: look at the console's channel and
    /// act on what it shows.
    pub fn route_console(&mut self) -> (r: ConsoleStep)
        requires
            old(self).wf(),
        ensures
            final(self).wf(),
            final(self).ids() == old(self).ids(),
            final(self).is_bound() == old(self).is_bound(),
            final(self).is_running() == old(self).is_running(),
            final(self).has_console() == old(self).has_console(),
            !old(self).has_console() ==> r is Disconnected,
            r matches ConsoleStep::Delivered(id) ==> old(self).ids().contains(id@),
            r matches ConsoleStep::Dropped(id) ==> !old(self).ids().contains(id@),
    {
        let polled = match &self.receiver {
            Some(rx) => poll(rx),
            None => return ConsoleStep::Disconnected,
        };
        self.on_console_poll(polled)
    }

    /// What the channel of the handler at place `i` of the id list showed,
    /// acted on: a waiting message is forwarded to the console, and a gone
    /// channel removes the handler. Returns the place of the next handler.
    pub fn on_handler_poll(&mut self, i: usize, p: Poll) -> (r: usize)
        requires
            old(self).wf(),
            i < old(self).ids().len(),
        ensures
            final(self).wf(),
            final(self).is_bound() == old(self).is_bound(),
            final(self).is_running() == old(self).is_running(),
            final(self).has_console() == old(self).has_console(),
            p is Disconnected ==> final(self).ids() == old(self).ids().remove(i as int) && r == i,
            !(p is Disconnected) ==> final(self).ids() == old(self).ids() && r == i + 1,
    {
        let count = self.handler_list.len();
        assert(i < count);
        let j = match self.slot_position(self.handler_list[i].as_str()) {
            Some(j) => j,
            None => {
                proof {
                    let id = self.ids()[i as int];
                    assert(self.ids().contains(id));
                    assert(self.ids().to_set().contains(id));
                    assert(self.keys().to_set().contains(id));
                }
                return i + 1;
            },
        };
        match p {
            Poll::Received(msg) => {
                let _ = send(&self.sender, msg);
                i + 1
            },
            Poll::Empty => i + 1,
            Poll::Disconnected => {
                self.remove_at(i, j);
                i
            },
        }
    }

    /// The second half of a dispatch cycle: look at the channel of every
    /// registered handler and act on what it shows. The ids that are left
    /// keep their order. A handler that is in the id list but has no
    /// channels would be a desync; the registry's invariant rules it out, so
    /// the cycle always goes on.
    pub fn collect_from_handlers(&mut self) -> (r: DispatchOutcome)
        requires
            old(self).wf(),
        ensures
            final(self).wf(),
            ordered_subseq(final(self).ids(), old(self).ids()),
            final(self).is_bound() == old(self).is_bound(),
            final(self).is_running() == old(self).is_running(),
            final(self).has_console() == old(self).has_console(),
            r == DispatchOutcome::Continue,
    {
        let ghost ids0 = self.ids();
        let ghost mut pos: Seq<int> = Seq::new(ids0.len(), |k: int| k);
        let mut i: usize = 0;
        while i < self.handler_list.len()
            invariant
                self.wf(),
                i <= self.ids().len(),
                subseq_witness(self.ids(), ids0, pos),
                self.is_bound() == old(self).is_bound(),
                self.is_running() == old(self).is_running(),
                self.has_console() == old(self).has_console(),
            decreases self.ids().len() - i,
        {
            let j = match self.slot_position(self.handler_list[i].as_str()) {
                Some(j) => j,
                None => {
                    proof {
                        let id = self.ids()[i as int];
                        assert(self.ids().contains(id));
                        assert(self.ids().to_set().contains(id));
                        assert(self.keys().to_set().contains(id));
                    }
                    return DispatchOutcome::RestartOwner;
                },
            };
            let p = poll(&self.handlers[j].from_handler);
            let ghost gone = p is Disconnected;
            let ghost before = self.ids();
            i = self.on_handler_poll(i, p);
            proof {
                if gone {
                    let old_pos = pos;
                    pos = pos.remove(i as int);
                    assert forall|k: int, l: int| 0 <= k < l < pos.len() implies pos[k] < pos[l] by {
                        let k2 = if k < i { k } else { k + 1 };
                        let l2 = if l < i { l } else { l + 1 };
                        assert(old_pos[k2] < old_pos[l2]);
                    }
                    assert forall|k: int| 0 <= k < self.ids().len() implies 0 <= pos[k] < ids0.len()
                        && self.ids()[k] == ids0[pos[k]] by {
                        let k2 = if k < i { k } else { k + 1 };
                        assert(self.ids()[k] == before[k2]);
                    }
                }
            }
        }
        proof {
            assert(subseq_witness(self.ids(), ids0, pos));
        }
        DispatchOutcome::Continue
    }

    /// One full dispatch cycle. The owner sleeps one refresh interval between
    /// cycles and performs the returned outcome: it stops exactly when the
    /// console's channel is gone, and otherwise the handlers are looked at and
    /// the cycle goes on.
    pub fn dispatch_once(&mut self) -> (r: (ConsoleStep, DispatchOutcome))
        requires
            old(self).wf(),
        ensures
            final(self).wf(),
            ordered_subseq(final(self).ids(), old(self).ids()),
            final(self).is_bound() == old(self).is_bound(),
            final(self).is_running() == old(self).is_running(),
            final(self).has_console() == old(self).has_console(),
            !old(self).has_console() ==> r.0 is Disconnected,
            r.1 == DispatchOutcome::StopOwner <==> r.0 is Disconnected,
            r.1 != DispatchOutcome::RestartOwner,
            r.0 matches ConsoleStep::Delivered(id) ==> old(self).ids().contains(id@),
            r.0 matches ConsoleStep::Dropped(id) ==> !old(self).ids().contains(id@),
    {
        let step = self.route_console();
        match step {
            ConsoleStep::Disconnected => {
                proof {
                    lemma_ordered_subseq_refl(self.ids());
                }
                (step, DispatchOutcome::StopOwner)
            },
            _ => {
                let outcome = self.collect_from_handlers();
                (step, outcome)
            },
        }
    }

    /// A message from the console is handed to one handler only: no two
    /// entries of the channel storage have the same id.
    pub proof fn lemma_route_unique(&self, id: Seq<char>, j: int, k: int)
        requires
            self.wf(),
            0 <= j < self.keys().len(),
            0 <= k < self.keys().len(),
            self.keys()[j] == id,
            self.keys()[k] == id,
        ensures
            j == k,
    {
    }
}

/// Removing an id succeeds once: afterwards the id is no longer registered,
/// so a second removal of it is answered with `IDNotFound`.
pub proof fn lemma_removed_id_absent(ids: Seq<Seq<char>>, i: int)
    requires
        ids.no_duplicates(),
        0 <= i < ids.len(),
    ensures
        !ids.remove(i).contains(ids[i]),
{
    lemma_remove_unique(ids, i);
    if ids.remove(i).contains(ids[i]) {
        assert(ids.remove(i).to_set().contains(ids[i]));
    }
}

} // verus!
