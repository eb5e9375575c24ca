use vstd::prelude::*;

verus! {

/// Identifier of a trading pair, handed out from zero upwards and never reused.
pub type TradingPairId = u64;

/// Identifier of an audit entry: its position in the log.
pub type EventLogId = u64;

/// A 32-byte account identifier, held as two 128-bit halves:
/// `high` holds the first sixteen bytes (big-endian), `low` the last sixteen.
#[derive(Clone, Copy, Debug, PartialEq, Eq, Structural, PartialOrd, Ord, Hash)]
pub struct ActorId {
    pub high: u128,
    pub low: u128,
}

impl ActorId {
    pub fn new(high: u128, low: u128) -> (r: ActorId)
        ensures
            r.high == high,
            r.low == low,
    {
        ActorId { high, low }
    }
}

/// The kind of mutation an audit entry records.
#[derive(Clone, Copy, Debug, PartialEq, Eq, Structural)]
pub enum EventAction {
    Create,
    Update,
    Delete,
}

impl EventAction {
    /// The name under which the action is reported.
    pub open spec fn name_spec(self) -> Seq<char> {
        match self {
            EventAction::Create => "Create"@,
            EventAction::Update => "Update"@,
            EventAction::Delete => "Delete"@,
        }
    }

    /// The summary that an audit entry of this action carries.
    pub open spec fn details_spec(self) -> Seq<char> {
        match self {
            EventAction::Create => "Created new trading pair"@,
            EventAction::Update => "Updated trading pair"@,
            EventAction::Delete => "Deleted trading pair"@,
        }
    }

    pub fn name(self) -> (r: String)
        ensures
            r@ == self.name_spec(),
    {
        match self {
            EventAction::Create => "Create".to_owned(),
            EventAction::Update => "Update".to_owned(),
            EventAction::Delete => "Delete".to_owned(),
        }
    }

    pub fn details(self) -> (r: String)
        ensures
            r@ == self.details_spec(),
    {
        match self {
            EventAction::Create => "Created new trading pair".to_owned(),
            EventAction::Update => "Updated trading pair".to_owned(),
            EventAction::Delete => "Deleted trading pair".to_owned(),
        }
    }
}

/// A tracked market instrument.
#[derive(Clone, Debug, PartialEq, Eq)]
pub struct TradingPair {
    pub id: TradingPairId,
    pub symbol: String,
    pub notes: String,
    /// Time of the last create or update.
    pub timestamp: u64,
    /// Caller of the last create or update.
    pub last_modified_by: ActorId,
}

impl TradingPair {
    /// A field-by-field copy, with the copy's contents stated.
    pub fn duplicate(&self) -> (r: TradingPair)
        ensures
            r == *self,
    {
        TradingPair {
            id: self.id,
            symbol: self.symbol.clone(),
            notes: self.notes.clone(),
            timestamp: self.timestamp,
            last_modified_by: self.last_modified_by,
        }
    }
}

/// One entry of the audit log: a record of one successful mutation.
#[derive(Clone, Debug, PartialEq, Eq)]
pub struct EventLog {
    pub id: EventLogId,
    pub timestamp: u64,
    /// The caller that made the mutation.
    pub account: ActorId,
    pub action: EventAction,
    /// The trading pair the mutation touched.
    pub trading_pair_id: TradingPairId,
    pub details: String,
}

impl EventLog {
    /// A field-by-field copy, with the copy's contents stated.
    pub fn duplicate(&self) -> (r: EventLog)
        ensures
            r == *self,
    {
        EventLog {
            id: self.id,
            timestamp: self.timestamp,
            account: self.account,
            action: self.action,
            trading_pair_id: self.trading_pair_id,
            details: self.details.clone(),
        }
    }
}

/// What the registry is constructed with.
#[derive(Clone, Copy, Debug, PartialEq, Eq)]
pub struct TmgInit {
    pub owner: ActorId,
}

/// A request to the registry.
#[derive(Clone, Debug, PartialEq, Eq)]
pub enum TradingPairAction {
    /// Symbol and notes of a new pair.
    CreateTradingPair(String, String),
    /// Id, new symbol and new notes.
    UpdateTradingPair(TradingPairId, String, String),
    DeleteTradingPair(TradingPairId),
    QueryTradingPair(TradingPairId),
    QueryAllTradingPairs,
    QueryTradingPairCount,
    QueryEventLogs,
    QueryEventLog(EventLogId),
    QueryEventCount,
    AddEditor(ActorId),
    RemoveEditor(ActorId),
}

/// Why a request was turned down.
#[derive(Clone, Copy, Debug, PartialEq, Eq, Structural)]
pub enum RegistryError {
    /// The caller may not perform this operation.
    Unauthorized,
    /// The trading pair, audit entry or editor named does not exist.
    NotFound,
    /// The editor to add is already one.
    AlreadyExists,
}

/// The registry's answer to a request.
#[derive(Clone, Debug, PartialEq, Eq)]
pub enum TradingPairReply {
    TradingPairCreated(TradingPairId),
    TradingPairUpdated,
    TradingPairDeleted,
    TradingPairInfo(Option<TradingPair>),
    /// All pairs, ordered by id.
    AllTradingPairs(Vec<TradingPair>),
    TradingPairCount(u64),
    /// The whole audit log, oldest first.
    EventLogs(Vec<EventLog>),
    EventLogInfo(EventLog),
    EventCount(u64),
    EditorAdded,
    EditorRemoved,
    /// A mutation sent to the read-only entry point.
    NotAQuery,
    Error(RegistryError),
}

} // verus!
