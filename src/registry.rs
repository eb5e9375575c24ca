use vstd::prelude::*;
use crate::types::{
    ActorId, EventAction, EventLog, EventLogId, RegistryError, TradingPair, TradingPairAction,
    TradingPairId, TradingPairReply,
};

verus! {

/// Number of entries of `log` that record `action`.
pub open spec fn count_action(log: Seq<EventLog>, action: EventAction) -> nat
    decreases log.len(),
{
    if log.len() == 0 {
        0
    } else {
        count_action(log.drop_last(), action) + if log.last().action == action {
            1nat
        } else {
            0nat
        }
    }
}

/// Appending an entry adds one to the count of its own action and leaves the others.
pub proof fn lemma_count_action_push(log: Seq<EventLog>, e: EventLog, action: EventAction)
    ensures
        count_action(log.push(e), action) == count_action(log, action) + if e.action == action {
            1nat
        } else {
            0nat
        },
{
    assert(log.push(e).drop_last() =~= log);
}

/// `e` is the audit entry numbered `id` for `action` on `subject` by `caller` at `now`.
pub open spec fn records(
    e: EventLog,
    id: nat,
    now: u64,
    caller: ActorId,
    action: EventAction,
    subject: TradingPairId,
) -> bool {
    &&& e.id == id
    &&& e.timestamp == now
    &&& e.account == caller
    &&& e.action == action
    &&& e.trading_pair_id == subject
    &&& e.details@ == action.details_spec()
}

/// The registry: an owner, a set of editors, the trading pairs ordered by id,
/// and the audit log.
pub struct TradingPairState {
    /// The one identity that manages editors; always allowed to write.
    pub owner: ActorId,
    /// The live trading pairs, in increasing order of id.
    pub trading_pairs: Vec<TradingPair>,
    /// Identities besides the owner that may create, update and delete pairs.
    pub authorized_editors: Vec<ActorId>,
    /// The id the next created pair receives.
    pub counter: u64,
    /// Every successful mutation, oldest first; entry `i` has id `i`.
    pub event_logs: Vec<EventLog>,
    /// The id the next audit entry receives: the length of the log.
    pub event_counter: u64,
}

impl TradingPairState {
    /// The registry's invariant.
    pub open spec fn wf(&self) -> bool {
        &&& forall|i: int, j: int|
            0 <= i < j < self.trading_pairs@.len() ==> self.trading_pairs@[i].id
                < self.trading_pairs@[j].id
        &&& forall|i: int|
            0 <= i < self.trading_pairs@.len() ==> self.trading_pairs@[i].id < self.counter
        &&& self.trading_pairs@.len() <= self.counter
        &&& self.counter <= self.event_counter
        &&& self.event_counter == self.event_logs@.len()
        &&& forall|i: int| 0 <= i < self.event_logs@.len() ==> self.event_logs@[i].id == i
        &&& self.authorized_editors@.no_duplicates()
        &&& self.trading_pairs@.len() + count_action(self.event_logs@, EventAction::Delete)
            == count_action(self.event_logs@, EventAction::Create)
    }

    /// There is an audit id left for one more mutation.
    pub open spec fn has_room(&self) -> bool {
        self.event_counter < u64::MAX
    }

    /// `caller` may create, update and delete pairs.
    pub open spec fn can_write(&self, caller: ActorId) -> bool {
        caller == self.owner || self.authorized_editors@.contains(caller)
    }

    pub open spec fn editor_set(&self) -> Set<ActorId> {
        Set::new(|a: ActorId| self.authorized_editors@.contains(a))
    }

    pub open spec fn has_pair(&self, id: TradingPairId) -> bool {
        exists|i: int| 0 <= i < self.trading_pairs@.len() && self.trading_pairs@[i].id == id
    }

    /// Position of the pair with id `id`, where there is one.
    pub open spec fn pair_index(&self, id: TradingPairId) -> int {
        choose|i: int| 0 <= i < self.trading_pairs@.len() && self.trading_pairs@[i].id == id
    }

    /// `new` is `self` with one audit entry appended, numbered next, for `action`
    /// on `subject` by `caller` at `now`; owner and editors untouched.
    pub open spec fn logged(
        &self,
        new: Self,
        caller: ActorId,
        now: u64,
        action: EventAction,
        subject: TradingPairId,
    ) -> bool {
        &&& new.event_logs@.len() == self.event_logs@.len() + 1
        &&& new.event_logs@.drop_last() == self.event_logs@
        &&& records(new.event_logs@.last(), self.event_counter as nat, now, caller, action, subject)
        &&& new.event_counter == self.event_counter + 1
        &&& new.owner == self.owner
        &&& new.authorized_editors@ == self.authorized_editors@
    }

    /// `new` is `self` after `caller` created the pair `symbol`/`notes` at `now`.
    pub open spec fn created(
        &self,
        new: Self,
        caller: ActorId,
        now: u64,
        symbol: String,
        notes: String,
    ) -> bool {
        let id = self.counter;
        &&& new.counter == self.counter + 1
        &&& new.trading_pairs@ == self.trading_pairs@.push(
            TradingPair { id, symbol, notes, timestamp: now, last_modified_by: caller },
        )
        &&& self.logged(new, caller, now, EventAction::Create, id)
    }

    /// `new` is `self` after `caller` overwrote the pair `id` at `now`.
    pub open spec fn updated(
        &self,
        new: Self,
        caller: ActorId,
        now: u64,
        id: TradingPairId,
        symbol: String,
        notes: String,
    ) -> bool {
        &&& new.counter == self.counter
        &&& new.trading_pairs@ == self.trading_pairs@.update(
            self.pair_index(id),
            TradingPair { id, symbol, notes, timestamp: now, last_modified_by: caller },
        )
        &&& self.logged(new, caller, now, EventAction::Update, id)
    }

    /// `new` is `self` after `caller` removed the pair `id` at `now`.
    pub open spec fn deleted(&self, new: Self, caller: ActorId, now: u64, id: TradingPairId) -> bool {
        &&& new.counter == self.counter
        &&& new.trading_pairs@ == self.trading_pairs@.remove(self.pair_index(id))
        &&& self.logged(new, caller, now, EventAction::Delete, id)
    }

    /// `new` differs from `self` in its editors alone.
    pub open spec fn same_but_editors(&self, new: Self) -> bool {
        &&& new.owner == self.owner
        &&& new.trading_pairs@ == self.trading_pairs@
        &&& new.counter == self.counter
        &&& new.event_logs@ == self.event_logs@
        &&& new.event_counter == self.event_counter
    }

    /// An empty registry owned by `owner`: no editors, no pairs, an empty log.
    pub fn new(owner: ActorId) -> (r: TradingPairState)
        ensures
            r.wf(),
            r.owner == owner,
            r.trading_pairs@.len() == 0,
            r.authorized_editors@.len() == 0,
            r.counter == 0,
            r.event_logs@.len() == 0,
            r.event_counter == 0,
    {
        TradingPairState {
            owner,
            trading_pairs: Vec::new(),
            authorized_editors: Vec::new(),
            counter: 0,
            event_logs: Vec::new(),
            event_counter: 0,
        }
    }

    /// Position of `editor` among the editors, if it is one.
    fn find_editor(&self, editor: ActorId) -> (r: Option<usize>)
        ensures
            match r {
                Some(i) => i < self.authorized_editors@.len() && self.authorized_editors@[i as int]
                    == editor,
                None => !self.authorized_editors@.contains(editor),
            },
    {
        let mut i: usize = 0;
        while i < self.authorized_editors.len()
            invariant
                i <= self.authorized_editors@.len(),
                forall|k: int| 0 <= k < i ==> self.authorized_editors@[k] != editor,
            decreases self.authorized_editors@.len() - i,
        {
            if self.authorized_editors[i] == editor {
                return Some(i);
            }
            i = i + 1;
        }
        None
    }

    /// Whether `account` may create, update and delete pairs: the owner always
    /// may, whether or not it is listed as an editor.
    pub fn is_owner_or_editor(&self, account: ActorId) -> (r: bool)
        ensures
            r == self.can_write(account),
    {
        if self.owner == account {
            return true;
        }
        self.find_editor(account).is_some()
    }

    /// Position of the pair with id `id`, if there is one.
    fn find_pair(&self, id: TradingPairId) -> (r: Option<usize>)
        requires
            self.wf(),
        ensures
            match r {
                Some(i) => self.has_pair(id) && i == self.pair_index(id) && i
                    < self.trading_pairs@.len() && self.trading_pairs@[i as int].id == id,
                None => !self.has_pair(id),
            },
    {
        let mut i: usize = 0;
        while i < self.trading_pairs.len()
            invariant
                self.wf(),
                i <= self.trading_pairs@.len(),
                forall|k: int| 0 <= k < i ==> self.trading_pairs@[k].id != id,
            decreases self.trading_pairs@.len() - i,
        {
            if self.trading_pairs[i].id == id {
                assert(self.has_pair(id));
                let ghost j = self.pair_index(id);
                assert(0 <= j < self.trading_pairs@.len() && self.trading_pairs@[j].id == id);
                assert(j == i as int) by {
                    if j < i as int {
                        assert(self.trading_pairs@[j].id < self.trading_pairs@[i as int].id);
                    } else if j > i as int {
                        assert(self.trading_pairs@[i as int].id < self.trading_pairs@[j].id);
                    }
                }
                return Some(i);
            }
            i = i + 1;
        }
        None
    }

    /// Appends the audit entry for `action` on `subject` by `caller` at `now`.
    fn append_event(&mut self, caller: ActorId, now: u64, action: EventAction, subject: TradingPairId)
        requires
            old(self).has_room(),
            old(self).event_counter == old(self).event_logs@.len(),
            forall|i: int| 0 <= i < old(self).event_logs@.len() ==> old(self).event_logs@[i].id == i,
        ensures
            old(self).logged(*final(self), caller, now, action, subject),
            forall|i: int| 0 <= i < final(self).event_logs@.len() ==> final(self).event_logs@[i].id == i,
            final(self).trading_pairs@ == old(self).trading_pairs@,
            final(self).counter == old(self).counter,
            count_action(final(self).event_logs@, EventAction::Create) == count_action(
                old(self).event_logs@,
                EventAction::Create,
            ) + if action == EventAction::Create {
                1nat
            } else {
                0nat
            },
            count_action(final(self).event_logs@, EventAction::Delete) == count_action(
                old(self).event_logs@,
                EventAction::Delete,
            ) + if action == EventAction::Delete {
                1nat
            } else {
                0nat
            },
    {
        let entry = EventLog {
            id: self.event_counter,
            timestamp: now,
            account: caller,
            action,
            trading_pair_id: subject,
            details: action.details(),
        };
        proof {
            lemma_count_action_push(self.event_logs@, entry, EventAction::Create);
            lemma_count_action_push(self.event_logs@, entry, EventAction::Delete);
        }
        self.event_logs.push(entry);
        self.event_counter = self.event_counter + 1;
        assert(self.event_logs@.drop_last() =~= old(self).event_logs@);
        assert forall|i: int| 0 <= i < self.event_logs@.len() implies self.event_logs@[i].id == i by {
            if i < old(self).event_logs@.len() {
                assert(self.event_logs@[i] == old(self).event_logs@[i]);
            }
        }
    }

    /// Creates a pair from `symbol` and `notes` on behalf of `caller` at `now`.
    /// Any owner or editor succeeds and receives the next id; anyone else is
    /// refused and nothing changes.
    pub fn create_trading_pair(
        &mut self,
        caller: ActorId,
        now: u64,
        symbol: String,
        notes: String,
    ) -> (r: Result<TradingPairId, RegistryError>)
        requires
            old(self).wf(),
            old(self).has_room(),
        ensures
            final(self).wf(),
            old(self).can_write(caller) ==> r == Ok::<TradingPairId, RegistryError>(
                old(self).counter,
            ) && old(self).created(*final(self), caller, now, symbol, notes),
            !old(self).can_write(caller) ==> r == Err::<TradingPairId, RegistryError>(
                RegistryError::Unauthorized,
            ) && *final(self) == *old(self),
    {
        if !self.is_owner_or_editor(caller) {
            return Err(RegistryError::Unauthorized);
        }
        let id = self.counter;
        let pair = TradingPair { id, symbol, notes, timestamp: now, last_modified_by: caller };
        self.trading_pairs.push(pair);
        self.counter = self.counter + 1;
        self.append_event(caller, now, EventAction::Create, id);
        Ok(id)
    }

    /// Overwrites symbol and notes of the pair `id` on behalf of `caller` at
    /// `now`, and records `caller` and `now` on it. Refused to anyone but the
    /// owner and the editors; a missing pair is reported. A refusal changes
    /// nothing.
    pub fn update_trading_pair(
        &mut self,
        caller: ActorId,
        now: u64,
        id: TradingPairId,
        symbol: String,
        notes: String,
    ) -> (r: Result<(), RegistryError>)
        requires
            old(self).wf(),
            old(self).has_room(),
        ensures
            final(self).wf(),
            !old(self).can_write(caller) ==> r == Err::<(), RegistryError>(
                RegistryError::Unauthorized,
            ) && *final(self) == *old(self),
            old(self).can_write(caller) && !old(self).has_pair(id) ==> r == Err::<
                (),
                RegistryError,
            >(RegistryError::NotFound) && *final(self) == *old(self),
            old(self).can_write(caller) && old(self).has_pair(id) ==> r == Ok::<(), RegistryError>(())
                && old(self).updated(*final(self), caller, now, id, symbol, notes),
    {
        if !self.is_owner_or_editor(caller) {
            return Err(RegistryError::Unauthorized);
        }
        match self.find_pair(id) {
            None => Err(RegistryError::NotFound),
            Some(i) => {
                let pair = TradingPair { id, symbol, notes, timestamp: now, last_modified_by: caller };
                self.trading_pairs.set(i, pair);
                assert(forall|k: int|
                    0 <= k < self.trading_pairs@.len() ==> self.trading_pairs@[k].id
                        == old(self).trading_pairs@[k].id);
                self.append_event(caller, now, EventAction::Update, id);
                Ok(())
            },
        }
    }

    /// Removes the pair `id` on behalf of `caller` at `now`. Refused to anyone
    /// but the owner and the editors; a missing pair is reported. A refusal
    /// changes nothing. The id is never handed out again.
    pub fn delete_trading_pair(&mut self, caller: ActorId, now: u64, id: TradingPairId) -> (r:
        Result<(), RegistryError>)
        requires
            old(self).wf(),
            old(self).has_room(),
        ensures
            final(self).wf(),
            !old(self).can_write(caller) ==> r == Err::<(), RegistryError>(
                RegistryError::Unauthorized,
            ) && *final(self) == *old(self),
            old(self).can_write(caller) && !old(self).has_pair(id) ==> r == Err::<
                (),
                RegistryError,
            >(RegistryError::NotFound) && *final(self) == *old(self),
            old(self).can_write(caller) && old(self).has_pair(id) ==> r == Ok::<(), RegistryError>(())
                && old(self).deleted(*final(self), caller, now, id),
    {
        if !self.is_owner_or_editor(caller) {
            return Err(RegistryError::Unauthorized);
        }
        match self.find_pair(id) {
            None => Err(RegistryError::NotFound),
            Some(i) => {
                let _removed = self.trading_pairs.remove(i);
                assert(forall|k: int|
                    0 <= k < self.trading_pairs@.len() ==> self.trading_pairs@[k] == if k < i {
                        old(self).trading_pairs@[k]
                    } else {
                        old(self).trading_pairs@[k + 1]
                    });
                self.append_event(caller, now, EventAction::Delete, id);
                Ok(())
            },
        }
    }

    /// Makes `editor` an editor. Only the owner may; an identity that is
    /// already an editor is reported. A refusal changes nothing.
    pub fn add_editor(&mut self, caller: ActorId, editor: ActorId) -> (r: Result<(), RegistryError>)
        requires
            old(self).wf(),
        ensures
            final(self).wf(),
            caller != old(self).owner ==> r == Err::<(), RegistryError>(RegistryError::Unauthorized)
                && *final(self) == *old(self),
            caller == old(self).owner && old(self).editor_set().contains(editor) ==> r == Err::<
                (),
                RegistryError,
            >(RegistryError::AlreadyExists) && *final(self) == *old(self),
            caller == old(self).owner && !old(self).editor_set().contains(editor) ==> r == Ok::<
                (),
                RegistryError,
            >(()) && old(self).same_but_editors(*final(self)) && final(self).editor_set()
                == old(self).editor_set().insert(editor),
    {
        if caller != self.owner {
            return Err(RegistryError::Unauthorized);
        }
        if self.find_editor(editor).is_some() {
            return Err(RegistryError::AlreadyExists);
        }
        self.authorized_editors.push(editor);
        proof {
            let old_eds = old(self).authorized_editors@;
            let eds = self.authorized_editors@;
            assert(eds[old_eds.len() as int] == editor);
            assert forall|a: ActorId| eds.contains(a) <==> old_eds.contains(a) || a == editor by {
                if old_eds.contains(a) {
                    let k = choose|k: int| 0 <= k < old_eds.len() && old_eds[k] == a;
                    assert(eds[k] == a);
                }
                if eds.contains(a) && a != editor {
                    let k = choose|k: int| 0 <= k < eds.len() && eds[k] == a;
                    assert(old_eds[k] == a);
                }
            }
            assert(self.editor_set() =~= old(self).editor_set().insert(editor));
        }
        Ok(())
    }

    /// Takes `editor` off the editors. Only the owner may; an identity that is
    /// not an editor is reported. A refusal changes nothing. The owner keeps
    /// its rights whatever the editors are.
    pub fn remove_editor(&mut self, caller: ActorId, editor: ActorId) -> (r: Result<(), RegistryError>)
        requires
            old(self).wf(),
        ensures
            final(self).wf(),
            caller != old(self).owner ==> r == Err::<(), RegistryError>(RegistryError::Unauthorized)
                && *final(self) == *old(self),
            caller == old(self).owner && !old(self).editor_set().contains(editor) ==> r == Err::<
                (),
                RegistryError,
            >(RegistryError::NotFound) && *final(self) == *old(self),
            caller == old(self).owner && old(self).editor_set().contains(editor) ==> r == Ok::<
                (),
                RegistryError,
            >(()) && old(self).same_but_editors(*final(self)) && final(self).editor_set()
                == old(self).editor_set().remove(editor),
    {
        if caller != self.owner {
            return Err(RegistryError::Unauthorized);
        }
        match self.find_editor(editor) {
            None => Err(RegistryError::NotFound),
            Some(i) => {
                let _removed = self.authorized_editors.remove(i);
                proof {
                    let old_eds = old(self).authorized_editors@;
                    let eds = self.authorized_editors@;
                    assert(forall|k: int|
                        0 <= k < eds.len() ==> eds[k] == if k < i {
                            old_eds[k]
                        } else {
                            old_eds[k + 1]
                        });
                    assert forall|a: ActorId| eds.contains(a) <==> old_eds.contains(a) && a != editor by {
                        if old_eds.contains(a) && a != editor {
                            let k = choose|k: int| 0 <= k < old_eds.len() && old_eds[k] == a;
                            if k < i {
                                assert(eds[k] == a);
                            } else {
                                assert(k != i);
                                assert(eds[k - 1] == a);
                            }
                        }
                        if eds.contains(a) {
                            let k = choose|k: int| 0 <= k < eds.len() && eds[k] == a;
                            if k < i {
                                assert(old_eds[k] == a);
                            } else {
                                assert(old_eds[k + 1] == a);
                            }
                        }
                    }
                    assert(self.editor_set() =~= old(self).editor_set().remove(editor));
                }
                Ok(())
            },
        }
    }

    /// The pair with id `id`, if there is one.
    pub fn trading_pair(&self, id: TradingPairId) -> (r: Option<TradingPair>)
        requires
            self.wf(),
        ensures
            r == self.pair_spec(id),
    {
        match self.find_pair(id) {
            Some(i) => Some(self.trading_pairs[i].duplicate()),
            None => None,
        }
    }

    /// All pairs, in increasing order of id.
    pub fn all_trading_pairs(&self) -> (r: Vec<TradingPair>)
        ensures
            r@ == self.trading_pairs@,
    {
        let mut out: Vec<TradingPair> = Vec::new();
        let mut i: usize = 0;
        while i < self.trading_pairs.len()
            invariant
                i <= self.trading_pairs@.len(),
                out@ == self.trading_pairs@.take(i as int),
            decreases self.trading_pairs@.len() - i,
        {
            out.push(self.trading_pairs[i].duplicate());
            i = i + 1;
            assert(out@ =~= self.trading_pairs@.take(i as int));
        }
        assert(out@ =~= self.trading_pairs@);
        out
    }

    /// Number of live pairs.
    pub fn trading_pair_count(&self) -> (r: u64)
        requires
            self.wf(),
        ensures
            r == self.trading_pairs@.len(),
    {
        self.trading_pairs.len() as u64
    }

    /// The whole audit log, oldest first.
    pub fn all_event_logs(&self) -> (r: Vec<EventLog>)
        ensures
            r@ == self.event_logs@,
    {
        let mut out: Vec<EventLog> = Vec::new();
        let mut i: usize = 0;
        while i < self.event_logs.len()
            invariant
                i <= self.event_logs@.len(),
                out@ == self.event_logs@.take(i as int),
            decreases self.event_logs@.len() - i,
        {
            out.push(self.event_logs[i].duplicate());
            i = i + 1;
            assert(out@ =~= self.event_logs@.take(i as int));
        }
        assert(out@ =~= self.event_logs@);
        out
    }

    /// The audit entry with id `id`, or `NotFound`.
    pub fn event_log(&self, id: EventLogId) -> (r: Result<EventLog, RegistryError>)
        requires
            self.wf(),
        ensures
            r == self.event_log_spec(id),
            r is Ok ==> r->Ok_0.id == id,
    {
        let n = self.event_logs.len();
        if id < n as u64 {
            Ok(self.event_logs[id as usize].duplicate())
        } else {
            Err(RegistryError::NotFound)
        }
    }

    /// Number of audit entries.
    pub fn event_count(&self) -> (r: u64)
        requires
            self.wf(),
        ensures
            r == self.event_logs@.len(),
    {
        self.event_counter
    }

    /// The pair with id `id`, if there is one.
    pub open spec fn pair_spec(&self, id: TradingPairId) -> Option<TradingPair> {
        if self.has_pair(id) {
            Some(self.trading_pairs@[self.pair_index(id)])
        } else {
            None
        }
    }

    /// The audit entry with id `id`, or `NotFound`.
    pub open spec fn event_log_spec(&self, id: EventLogId) -> Result<EventLog, RegistryError> {
        if id < self.event_logs@.len() {
            Ok(self.event_logs@[id as int])
        } else {
            Err(RegistryError::NotFound)
        }
    }

    /// `r` is the answer to the request `action` on `self`, for requests that
    /// only read; the others are answered `NotAQuery`.
    pub open spec fn answers(&self, action: TradingPairAction, r: TradingPairReply) -> bool {
        match action {
            TradingPairAction::QueryTradingPair(id) => r == TradingPairReply::TradingPairInfo(
                self.pair_spec(id),
            ),
            TradingPairAction::QueryAllTradingPairs => match r {
                TradingPairReply::AllTradingPairs(v) => v@ == self.trading_pairs@,
                _ => false,
            },
            TradingPairAction::QueryTradingPairCount => r == TradingPairReply::TradingPairCount(
                self.trading_pairs@.len() as u64,
            ),
            TradingPairAction::QueryEventLogs => match r {
                TradingPairReply::EventLogs(v) => v@ == self.event_logs@,
                _ => false,
            },
            TradingPairAction::QueryEventLog(id) => match self.event_log_spec(id) {
                Ok(e) => r == TradingPairReply::EventLogInfo(e),
                Err(err) => r == TradingPairReply::Error(err),
            },
            TradingPairAction::QueryEventCount => r == TradingPairReply::EventCount(
                self.event_logs@.len() as u64,
            ),
            _ => r == TradingPairReply::NotAQuery,
        }
    }

    /// Answers a request that only reads, without touching the registry and
    /// without regard to who asks. Mutations are answered `NotAQuery`.
    pub fn query(&self, action: TradingPairAction) -> (r: TradingPairReply)
        requires
            self.wf(),
        ensures
            self.answers(action, r),
    {
        match action {
            TradingPairAction::QueryTradingPair(id) => TradingPairReply::TradingPairInfo(
                self.trading_pair(id),
            ),
            TradingPairAction::QueryAllTradingPairs => TradingPairReply::AllTradingPairs(
                self.all_trading_pairs(),
            ),
            TradingPairAction::QueryTradingPairCount => TradingPairReply::TradingPairCount(
                self.trading_pair_count(),
            ),
            TradingPairAction::QueryEventLogs => TradingPairReply::EventLogs(self.all_event_logs()),
            TradingPairAction::QueryEventLog(id) => match self.event_log(id) {
                Ok(e) => TradingPairReply::EventLogInfo(e),
                Err(err) => TradingPairReply::Error(err),
            },
            TradingPairAction::QueryEventCount => TradingPairReply::EventCount(self.event_count()),
            _ => TradingPairReply::NotAQuery,
        }
    }

    /// Applies one request from `caller` at time `now` and returns the reply.
    /// Mutations are checked for permission first; a refused or failed request
    /// changes nothing and logs nothing. Reads are open to every caller.
    pub fn handle(&mut self, caller: ActorId, now: u64, action: TradingPairAction) -> (r:
        TradingPairReply)
        requires
            old(self).wf(),
            old(self).has_room(),
        ensures
            final(self).wf(),
            match action {
                TradingPairAction::CreateTradingPair(symbol, notes) => if old(self).can_write(
                    caller,
                ) {
                    r == TradingPairReply::TradingPairCreated(old(self).counter) && old(
                        self,
                    ).created(*final(self), caller, now, symbol, notes)
                } else {
                    r == TradingPairReply::Error(RegistryError::Unauthorized) && *final(self)
                        == *old(self)
                },
                TradingPairAction::UpdateTradingPair(id, symbol, notes) => if !old(self).can_write(
                    caller,
                ) {
                    r == TradingPairReply::Error(RegistryError::Unauthorized) && *final(self)
                        == *old(self)
                } else if !old(self).has_pair(id) {
                    r == TradingPairReply::Error(RegistryError::NotFound) && *final(self)
                        == *old(self)
                } else {
                    r == TradingPairReply::TradingPairUpdated && old(self).updated(
                        *final(self),
                        caller,
                        now,
                        id,
                        symbol,
                        notes,
                    )
                },
                TradingPairAction::DeleteTradingPair(id) => if !old(self).can_write(caller) {
                    r == TradingPairReply::Error(RegistryError::Unauthorized) && *final(self)
                        == *old(self)
                } else if !old(self).has_pair(id) {
                    r == TradingPairReply::Error(RegistryError::NotFound) && *final(self)
                        == *old(self)
                } else {
                    r == TradingPairReply::TradingPairDeleted && old(self).deleted(
                        *final(self),
                        caller,
                        now,
                        id,
                    )
                },
                TradingPairAction::AddEditor(editor) => if caller != old(self).owner {
                    r == TradingPairReply::Error(RegistryError::Unauthorized) && *final(self)
                        == *old(self)
                } else if old(self).editor_set().contains(editor) {
                    r == TradingPairReply::Error(RegistryError::AlreadyExists) && *final(self)
                        == *old(self)
                } else {
                    r == TradingPairReply::EditorAdded && old(self).same_but_editors(*final(self))
                        && final(self).editor_set() == old(self).editor_set().insert(editor)
                },
                TradingPairAction::RemoveEditor(editor) => if caller != old(self).owner {
                    r == TradingPairReply::Error(RegistryError::Unauthorized) && *final(self)
                        == *old(self)
                } else if !old(self).editor_set().contains(editor) {
                    r == TradingPairReply::Error(RegistryError::NotFound) && *final(self)
                        == *old(self)
                } else {
                    r == TradingPairReply::EditorRemoved && old(self).same_but_editors(*final(self))
                        && final(self).editor_set() == old(self).editor_set().remove(editor)
                },
                _ => *final(self) == *old(self) && old(self).answers(action, r),
            },
    {
        match action {
            TradingPairAction::CreateTradingPair(symbol, notes) => {
                match self.create_trading_pair(caller, now, symbol, notes) {
                    Ok(id) => TradingPairReply::TradingPairCreated(id),
                    Err(e) => TradingPairReply::Error(e),
                }
            },
            TradingPairAction::UpdateTradingPair(id, symbol, notes) => {
                match self.update_trading_pair(caller, now, id, symbol, notes) {
                    Ok(()) => TradingPairReply::TradingPairUpdated,
                    Err(e) => TradingPairReply::Error(e),
                }
            },
            TradingPairAction::DeleteTradingPair(id) => {
                match self.delete_trading_pair(caller, now, id) {
                    Ok(()) => TradingPairReply::TradingPairDeleted,
                    Err(e) => TradingPairReply::Error(e),
                }
            },
            TradingPairAction::AddEditor(editor) => match self.add_editor(caller, editor) {
                Ok(()) => TradingPairReply::EditorAdded,
                Err(e) => TradingPairReply::Error(e),
            },
            TradingPairAction::RemoveEditor(editor) => match self.remove_editor(caller, editor) {
                Ok(()) => TradingPairReply::EditorRemoved,
                Err(e) => TradingPairReply::Error(e),
            },
            _ => self.query(action),
        }
    }
}

} // verus!
