//! What the store in memory holds, and how its operations are delayed.

use vstd::prelude::*;
use vstd::string::*;
use crate::entry::{Entry, EntryPayload};
use crate::log_id::LogId;
use crate::membership::MembershipView;
use crate::testing::mem_log_store::MemLogStore;
use crate::testing::mem_state_machine::MemStateMachine;
use crate::text;
use crate::time::Duration;

verus! {

/// A request of a client: its status is set.
#[derive(Clone, Debug, PartialEq, Eq)]
pub struct ClientRequest {
    /// The client.
    pub client: String,
    /// The number of the request.
    pub serial: u64,
    /// The new status of the client.
    pub status: String,
}

/// A request as mathematics.
pub struct ClientRequestView {
    pub client: Seq<char>,
    pub serial: u64,
    pub status: Seq<char>,
}

impl View for ClientRequest {
    type V = ClientRequestView;

    open spec fn view(&self) -> ClientRequestView {
        ClientRequestView { client: self.client@, serial: self.serial, status: self.status@ }
    }
}

impl ClientRequest {
    /// `ClientRequest{client:<client>, serial:<serial>, status:<status>}`.
    pub open spec fn text(self) -> Seq<char> {
        "ClientRequest{client:"@ + self.client@ + ", serial:"@ + text::decimal(self.serial as nat)
            + ", status:"@ + self.status@ + "}"@
    }

    /// `ClientRequest{client:<client>, serial:<serial>, status:<status>}`.
    pub fn to_string(&self) -> (r: String)
        ensures
            r@ == self.text(),
    {
        let n = text::u64_text(self.serial);
        "ClientRequest{client:".to_owned().concat(self.client.as_str()).concat(", serial:").concat(
            n.as_str(),
        ).concat(", status:").concat(self.status.as_str()).concat("}")
    }

    /// A copy.
    pub fn duplicate(&self) -> (r: ClientRequest)
        ensures
            r@ == self@,
    {
        ClientRequest {
            client: self.client.as_str().to_owned(),
            serial: self.serial,
            status: self.status.as_str().to_owned(),
        }
    }
}

/// Makes a request of a client and a number.
pub trait IntoMemClientRequest<T> {
    /// The request, as mathematics.
    spec fn request_spec(r: T, client: Seq<char>, serial: u64) -> bool;

    /// The request.
    fn make_request(client_id: &str, serial: u64) -> (r: T)
        ensures
            Self::request_spec(r, client_id@, serial),
    ;
}

impl IntoMemClientRequest<ClientRequest> for ClientRequest {
    /// The status is `request-<serial>`.
    open spec fn request_spec(r: ClientRequest, client: Seq<char>, serial: u64) -> bool {
        r@ == (ClientRequestView {
            client,
            serial,
            status: "request-"@ + text::decimal(serial as nat),
        })
    }

    fn make_request(client_id: &str, serial: u64) -> (r: ClientRequest) {
        let n = text::u64_text(serial);
        ClientRequest {
            client: client_id.to_owned(),
            serial,
            status: "request-".to_owned().concat(n.as_str()),
        }
    }
}

/// The response to a request: the status that the client had before.
#[derive(Clone, Debug, PartialEq, Eq)]
pub struct ClientResponse(pub Option<String>);

impl View for ClientResponse {
    type V = Option<Seq<char>>;

    open spec fn view(&self) -> Option<Seq<char>> {
        match self.0 {
            Some(s) => Some(s@),
            None => None,
        }
    }
}

/// The payload of an entry.
pub type MemPayload = EntryPayload<ClientRequest, ()>;

/// The payload of an entry, as mathematics.
#[verifier::ext_equal]
pub enum MemPayloadView {
    Blank,
    Normal(ClientRequestView),
    Membership(MembershipView<()>),
}

/// An entry as mathematics.
#[verifier::ext_equal]
pub struct MemEntryView {
    pub log_id: LogId,
    pub payload: MemPayloadView,
}

/// An entry as mathematics.
pub open spec fn entry_view(e: Entry<MemPayload>) -> MemEntryView {
    MemEntryView {
        log_id: e.log_id,
        payload: match e.payload {
            EntryPayload::Blank => MemPayloadView::Blank,
            EntryPayload::Normal(r) => MemPayloadView::Normal(r@),
            EntryPayload::Membership(m) => MemPayloadView::Membership(m@),
        },
    }
}

/// A copy of an entry.
pub fn entry_duplicate(e: &Entry<MemPayload>) -> (r: Entry<MemPayload>)
    ensures
        entry_view(r) == entry_view(*e),
{
    Entry {
        log_id: e.log_id,
        payload: match &e.payload {
            EntryPayload::Blank => EntryPayload::Blank,
            EntryPayload::Normal(r) => EntryPayload::Normal(r.duplicate()),
            EntryPayload::Membership(m) => EntryPayload::Membership(m.duplicate()),
        },
    }
}

/// An operation that can be delayed.
#[derive(Clone, Copy, Debug, PartialEq, Eq, PartialOrd, Ord, Structural)]
pub enum BlockOperation {
    /// Before a snapshot is built.
    DelayBuildingSnapshot,
    /// While a snapshot is built.
    BuildSnapshot,
    /// Before the log is purged.
    PurgeLog,
}

/// How long each operation is delayed.
#[derive(Debug, PartialEq, Eq, Structural)]
pub struct BlockDelays {
    delay_building_snapshot: Option<Duration>,
    build_snapshot: Option<Duration>,
    purge_log: Option<Duration>,
}

impl View for BlockDelays {
    type V = Map<BlockOperation, Duration>;

    closed spec fn view(&self) -> Map<BlockOperation, Duration> {
        Map::new(|op: BlockOperation| self.of(op) is Some, |op: BlockOperation| self.of(op)->0)
    }
}

impl BlockDelays {
    spec fn of(&self, op: BlockOperation) -> Option<Duration> {
        match op {
            BlockOperation::DelayBuildingSnapshot => self.delay_building_snapshot,
            BlockOperation::BuildSnapshot => self.build_snapshot,
            BlockOperation::PurgeLog => self.purge_log,
        }
    }

    /// How long an operation is delayed, if it is.
    pub open spec fn delay(self, block: BlockOperation) -> Option<Duration> {
        if self@.contains_key(block) {
            Some(self@[block])
        } else {
            None
        }
    }
}

impl Default for BlockDelays {
    /// No operation is delayed.
    fn default() -> (r: BlockDelays)
        ensures
            r@ == Map::<BlockOperation, Duration>::empty(),
    {
        let r = BlockDelays {
            delay_building_snapshot: None,
            build_snapshot: None,
            purge_log: None,
        };
        assert(r@ =~= Map::<BlockOperation, Duration>::empty());
        r
    }
}

/// A handle on the delays of a node.  Its clones share them: what is set through one is read through
/// all.
///
/// The delays themselves are handed to each method.
#[derive(Clone, Copy, Debug, PartialEq, Eq, Structural)]
pub struct BlockConfig;

impl BlockConfig {
    /// Delays that delay no operation, and a handle on them.
    pub fn new() -> (r: (BlockDelays, BlockConfig))
        ensures
            r.0@ == Map::<BlockOperation, Duration>::empty(),
    {
        (BlockDelays::default(), BlockConfig)
    }

    /// Delay an operation.
    pub fn set_blocking(&self, delays: &mut BlockDelays, block: BlockOperation, d: Duration)
        ensures
            final(delays)@ == old(delays)@.insert(block, d),
    {
        let ghost before = *delays;
        match block {
            BlockOperation::DelayBuildingSnapshot => delays.delay_building_snapshot = Some(d),
            BlockOperation::BuildSnapshot => delays.build_snapshot = Some(d),
            BlockOperation::PurgeLog => delays.purge_log = Some(d),
        }
        assert(delays@ =~= before@.insert(block, d));
    }

    /// How long an operation is delayed, if it is.
    pub fn get_blocking(&self, delays: &BlockDelays, block: &BlockOperation) -> (r: Option<Duration>)
        ensures
            r == delays.delay(*block),
    {
        match block {
            BlockOperation::DelayBuildingSnapshot => delays.delay_building_snapshot,
            BlockOperation::BuildSnapshot => delays.build_snapshot,
            BlockOperation::PurgeLog => delays.purge_log,
        }
    }

    /// Do not delay an operation any more.
    pub fn clear_blocking(&self, delays: &mut BlockDelays, block: BlockOperation)
        ensures
            final(delays)@ == old(delays)@.remove(block),
    {
        let ghost before = *delays;
        match block {
            BlockOperation::DelayBuildingSnapshot => delays.delay_building_snapshot = None,
            BlockOperation::BuildSnapshot => delays.build_snapshot = None,
            BlockOperation::PurgeLog => delays.purge_log = None,
        }
        assert(delays@ =~= before@.remove(block));
    }
}

/// The delay that was set last is read, through whichever handle, until it is cleared; the delays of
/// other operations stay.
pub proof fn delays_are_shared(
    before: BlockDelays,
    set: BlockDelays,
    cleared: BlockDelays,
    block: BlockOperation,
    d: Duration,
    other: BlockOperation,
)
    requires
        set@ == before@.insert(block, d),
        cleared@ == set@.remove(block),
        other != block,
    ensures
        set.delay(block) == Some(d),
        set.delay(other) == before.delay(other),
        cleared.delay(block) is None,
        cleared.delay(other) == before.delay(other),
{
}

/// A log store and a state machine that hold nothing, and the delays that they share.
pub fn new_mem_store() -> (r: (MemLogStore, MemStateMachine, BlockDelays))
    ensures
        r.0.fresh(),
        r.1.fresh(),
        r.0.block == r.1.block,
        r.2@ == Map::<BlockOperation, Duration>::empty(),
{
    let (delays, block) = BlockConfig::new();
    (MemLogStore::new(block), MemStateMachine::new(block), delays)
}

/// What is seen of an entry is its log id and what its payload holds: nothing, the client, number
/// and status of a request, or the voter sets and nodes of a membership.
pub proof fn entries_show_their_payload(e: Entry<MemPayload>)
    ensures
        entry_view(e).log_id == e.log_id,
        e.payload is Blank <==> entry_view(e).payload is Blank,
        e.payload matches EntryPayload::Normal(r) ==> (entry_view(
            e,
        ).payload matches MemPayloadView::Normal(v) && v.client == r.client@ && v.serial == r.serial
            && v.status == r.status@),
        e.payload matches EntryPayload::Membership(m) ==> (entry_view(
            e,
        ).payload matches MemPayloadView::Membership(v) && v == m@),
{
}

/// The request of a client and a number is that client's, has that number, and sets a status that
/// tells the number.
pub proof fn requests_tell_their_number(a: ClientRequest, b: ClientRequest, client: Seq<char>, x: u64, y: u64)
    requires
        <ClientRequest as IntoMemClientRequest<ClientRequest>>::request_spec(a, client, x),
        <ClientRequest as IntoMemClientRequest<ClientRequest>>::request_spec(b, client, y),
    ensures
        a.client@ == client,
        a.serial == x,
        a.status@ == b.status@ ==> x == y,
{
    if a.status@ == b.status@ {
        let p = "request-"@;
        let s = text::decimal(x as nat);
        let t = text::decimal(y as nat);
        assert(s =~= (p + s).skip(p.len() as int));
        assert(t =~= (p + t).skip(p.len() as int));
        text::decimal_is_injective(x as nat, y as nat);
    }
}

/// A new pair of stores holds nothing and delays nothing.
pub proof fn fresh_stores_hold_nothing(
    r: (MemLogStore, MemStateMachine, BlockDelays),
    i: u64,
    op: BlockOperation,
)
    requires
        call_ensures(new_mem_store, (), r),
    ensures
        !r.0.log@.contains_key(i),
        r.0.vote is None,
        r.0.committed is None,
        r.0.last_purged_log_id is None,
        r.1.sm.last_applied_log is None,
        r.1.current_snapshot is None,
        r.1.allow_build_snapshot,
        r.2.delay(op) is None,
{
    assert(r.1.sm@.last_applied_log is None);
}

/// Each delay is set, read and cleared for its own operation.
pub proof fn delay_calls(
    handle: BlockConfig,
    delays: &mut BlockDelays,
    block: BlockOperation,
    d: Duration,
    done: (),
    other: BlockOperation,
    r: Option<Duration>,
)
    ensures
        call_ensures(BlockConfig::set_blocking, (&handle, delays, block, d), done) ==> final(delays).delay(block) == Some(d) && (other != block ==> final(delays).delay(other) == old(delays).delay(other)),
        call_ensures(BlockConfig::clear_blocking, (&handle, delays, block), done) ==> final(delays).delay(block) is None && (other != block ==> final(delays).delay(other) == old(delays).delay(other)),
        call_ensures(BlockConfig::get_blocking, (&handle, old(delays), &block), r) ==> r == old(delays).delay(block),
{
}

} // verus!
