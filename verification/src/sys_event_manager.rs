//! The boundary adapter: fixed-layout wire structures for watch and query
//! rules, delivered records, the capability traits through which the
//! boundary and the caller's callbacks are reached, and the four operations
//! that assemble encoded structures and invoke the boundary's entry points.

use vstd::prelude::*;

use crate::sys_event::HiSysEventParamWrapper;
use crate::utils::{
    TransferArena, copy_bytes, copy_len, encode_field, encoded_bytes_field, encoded_field,
    str_bytes, zeroed_buf,
};
use crate::{QueryArg, QueryRule, WatchRule, spec_event_type_code, spec_rule_type_code};

verus! {

use vstd::string::StrSliceExecFns;

/// Length limit for event domain definition.
pub const MAX_LENGTH_OF_EVENT_DOMAIN: usize = 17;

/// Length limit for event name definition.
pub const MAX_LENGTH_OF_EVENT_NAME: usize = 33;

/// Length limit for event tag definition.
pub const MAX_LENGTH_OF_EVENT_TAG: usize = 85;

/// Length limit for timezone definition.
pub const MAX_LENGTH_OF_TIME_ZONE: usize = 6;

/// Most event names one query rule serializes.
pub const MAX_NUMBER_OF_EVENT_LIST: usize = 10;

/// Byte capacity of a query rule's serialized event list.
pub const MAX_EVENT_LIST_LEN: usize = 594;

/// The byte that separates event names in a serialized list: `|`.
pub const EVENT_LIST_SEPARATOR: u8 = 124;

/// The fixed-layout wire form of one watch rule.
#[derive(Clone, PartialEq, Debug)]
pub struct HiSysEventWatchRule {
    /// The domain of the event, truncated into a fixed field.
    pub domain: Vec<u8>,
    /// The name of the event, truncated into a fixed field.
    pub name: Vec<u8>,
    /// The tag of the event, truncated into a fixed field.
    pub tag: Vec<u8>,
    /// Wire code of the rule type.
    pub rule_type: i32,
    /// Wire code of the matched event type.
    pub event_type: i32,
}

/// The wire form `w` encodes the watch rule `r`.
pub open spec fn watch_rule_encodes(w: HiSysEventWatchRule, r: WatchRule) -> bool {
    &&& encoded_field(w.domain@, r.domain@, MAX_LENGTH_OF_EVENT_DOMAIN as int)
    &&& encoded_field(w.name@, r.name@, MAX_LENGTH_OF_EVENT_NAME as int)
    &&& encoded_field(w.tag@, r.tag@, MAX_LENGTH_OF_EVENT_TAG as int)
    &&& w.rule_type as int == spec_rule_type_code(r.rule_type)
    &&& w.event_type as int == spec_event_type_code(r.event_type)
}

/// Translate watch rules into their fixed-layout wire forms, in order:
/// each bounded string is cut to its field width and zero-padded, and the
/// rule and event types become their wire codes.
pub fn convert_watch_rule_to_wrapper(src: &Vec<WatchRule>) -> (dest: Vec<HiSysEventWatchRule>)
    requires
        forall|i: int| 0 <= i < src@.len() ==> (#[trigger] src@[i]).wf(),
    ensures
        dest@.len() == src@.len(),
        forall|i: int| 0 <= i < src@.len() ==> watch_rule_encodes(#[trigger] dest@[i], src@[i]),
{
    let mut dest: Vec<HiSysEventWatchRule> = Vec::new();
    let mut i: usize = 0;
    while i < src.len()
        invariant
            i <= src@.len(),
            dest@.len() == i,
            forall|j: int| 0 <= j < src@.len() ==> (#[trigger] src@[j]).wf(),
            forall|j: int| 0 <= j < i ==> watch_rule_encodes(#[trigger] dest@[j], src@[j]),
        decreases src@.len() - i,
    {
        let r = &src[i];
        let w = HiSysEventWatchRule {
            domain: encode_field(r.domain.as_str(), MAX_LENGTH_OF_EVENT_DOMAIN),
            name: encode_field(r.name.as_str(), MAX_LENGTH_OF_EVENT_NAME),
            tag: encode_field(r.tag.as_str(), MAX_LENGTH_OF_EVENT_TAG),
            rule_type: r.rule_type.as_code(),
            event_type: r.event_type.as_code(),
        };
        dest.push(w);
        i = i + 1;
    }
    dest
}

/// The fixed-layout wire form of the query arguments.
#[derive(Copy, Clone, PartialEq, Eq, Structural, Debug)]
pub struct HiSysEventQueryArg {
    /// Begin time.
    pub begin_time: i64,
    /// End time.
    pub end_time: i64,
    /// Max number of system events to receive.
    pub max_events: i32,
}

/// Translate the query arguments into their fixed-layout wire form: every
/// field is copied by value, unchanged.
pub fn convert_query_arg_to_wrapper(src: &QueryArg) -> (w: HiSysEventQueryArg)
    ensures
        w.begin_time == src.begin_time,
        w.end_time == src.end_time,
        w.max_events == src.max_events,
{
    HiSysEventQueryArg {
        begin_time: src.begin_time,
        end_time: src.end_time,
        max_events: src.max_events,
    }
}

/// The fixed-layout wire form of one query rule.
#[derive(Clone, PartialEq, Debug)]
pub struct HiSysEventQueryRuleWrapper {
    /// The domain of the event, truncated into a fixed field.
    pub domain: Vec<u8>,
    /// The serialized event-name list.
    pub event_list: Vec<u8>,
    /// How many event names were serialized.
    pub event_list_size: i32,
    /// Handle of the condition string transferred to the boundary.
    pub condition: usize,
    /// The NUL-terminated bytes of that transferred buffer, carried beside
    /// the handle so an adapter can materialize exactly the buffer whose
    /// ownership the handle stands for.
    pub condition_bytes: Vec<u8>,
}

/// How many event names of a list of length `n` are serialized: at most
/// the configured maximum; excess names are silently dropped.
pub open spec fn spec_event_count(n: int) -> int {
    if n <= MAX_NUMBER_OF_EVENT_LIST as int {
        n
    } else {
        MAX_NUMBER_OF_EVENT_LIST as int
    }
}

/// The serialized form of the first `count` names of an event list: their
/// bytes joined with the separator.
pub open spec fn joined_event_list(elems: Seq<Seq<char>>, count: int) -> Seq<u8>
    decreases count,
{
    if count <= 0 {
        Seq::empty()
    } else if count == 1 {
        str_bytes(elems[0])
    } else {
        joined_event_list(elems, count - 1) + seq![EVENT_LIST_SEPARATOR] + str_bytes(
            elems[count - 1],
        )
    }
}

/// Serialize an event-name list into its fixed buffer and count field: the
/// first `min(len, MAX_NUMBER_OF_EVENT_LIST)` names are joined with the
/// separator and the joined bytes are cut to the buffer's width, which
/// never changes.
pub fn convert_str_vec_to_array(src: &Vec<String>, dest: &mut Vec<u8>, len: &mut i32)
    requires
        forall|i: int| 0 <= i < src@.len() ==> crate::utils::nul_free(#[trigger] src@[i]@),
    ensures
        *final(len) as int == spec_event_count(src@.len() as int),
        final(dest)@.len() == old(dest)@.len(),
        forall|i: int|
            0 <= i < copy_len(
                joined_event_list(src.deep_view(), spec_event_count(src@.len() as int)).len()
                    as int,
                old(dest)@.len() as int,
            ) ==> final(dest)@[i] == joined_event_list(
                src.deep_view(),
                spec_event_count(src@.len() as int),
            )[i],
        forall|i: int|
            copy_len(
                joined_event_list(src.deep_view(), spec_event_count(src@.len() as int)).len()
                    as int,
                old(dest)@.len() as int,
            ) <= i < old(dest)@.len() ==> final(dest)@[i] == old(dest)@[i],
{
    let total_cnt = if src.len() <= MAX_NUMBER_OF_EVENT_LIST {
        src.len()
    } else {
        MAX_NUMBER_OF_EVENT_LIST
    };
    *len = total_cnt as i32;
    let mut joined: Vec<u8> = Vec::new();
    let mut i: usize = 0;
    while i < total_cnt
        invariant
            i <= total_cnt,
            total_cnt as int == spec_event_count(src@.len() as int),
            total_cnt <= src@.len(),
            joined@ == joined_event_list(src.deep_view(), i as int),
        decreases total_cnt - i,
    {
        if i > 0 {
            joined.push(EVENT_LIST_SEPARATOR);
        }
        let mut eb = src[i].as_str().as_bytes_vec();
        joined.append(&mut eb);
        proof {
            assert(src.deep_view()[i as int] == src@[i as int]@);
            assert(joined@ =~= joined_event_list(src.deep_view(), i as int + 1));
        }
        i = i + 1;
    }
    crate::utils::copy_bytes_truncated(&joined, dest);
}

/// The wire form `w` encodes the query rule `r`, with its condition string
/// transferred under handle `cond_handle`.
pub open spec fn query_rule_encodes(
    w: HiSysEventQueryRuleWrapper,
    r: QueryRule,
    cond_handle: int,
) -> bool {
    &&& encoded_field(w.domain@, r.domain@, MAX_LENGTH_OF_EVENT_DOMAIN as int)
    &&& encoded_bytes_field(
        w.event_list@,
        joined_event_list(
            r.event_list.deep_view(),
            spec_event_count(r.event_list@.len() as int),
        ).subrange(
            0,
            copy_len(
                joined_event_list(
                    r.event_list.deep_view(),
                    spec_event_count(r.event_list@.len() as int),
                ).len() as int,
                MAX_EVENT_LIST_LEN as int,
            ),
        ),
        MAX_EVENT_LIST_LEN as int,
    )
    &&& w.event_list_size as int == spec_event_count(r.event_list@.len() as int)
    &&& w.condition as int == cond_handle
    &&& w.condition_bytes@ == str_bytes(r.condition@).push(0u8)
}

/// Translate query rules into their fixed-layout wire forms, in order. Each
/// rule's condition string is heap-transferred to the boundary: the arena
/// grows by one NUL-terminated buffer per rule, in rule order, and each
/// wire form holds its rule's handle.
pub fn convert_query_rule_to_wrapper(arena: &mut TransferArena, src: &Vec<QueryRule>) -> (dest: Vec<
    HiSysEventQueryRuleWrapper,
>)
    requires
        old(arena).wf(),
        forall|i: int| 0 <= i < src@.len() ==> (#[trigger] src@[i]).wf(),
    ensures
        final(arena).wf(),
        final(arena).blocks_view() == old(arena).blocks_view(),
        final(arena).strings_view().len() == old(arena).strings_view().len() + src@.len(),
        forall|i: int|
            0 <= i < old(arena).strings_view().len() ==> final(arena).strings_view()[i] == old(
                arena,
            ).strings_view()[i],
        forall|i: int|
            0 <= i < src@.len() ==> final(arena).strings_view()[old(
                arena,
            ).strings_view().len() + i] == Some(str_bytes((#[trigger] src@[i]).condition@).push(0u8)),
        dest@.len() == src@.len(),
        forall|i: int|
            0 <= i < src@.len() ==> query_rule_encodes(
                #[trigger] dest@[i],
                src@[i],
                old(arena).strings_view().len() + i,
            ),
{
    let ghost base = old(arena).strings_view().len() as int;
    let mut dest: Vec<HiSysEventQueryRuleWrapper> = Vec::new();
    let mut i: usize = 0;
    while i < src.len()
        invariant
            i <= src@.len(),
            forall|j: int| 0 <= j < src@.len() ==> (#[trigger] src@[j]).wf(),
            arena.wf(),
            base == old(arena).strings_view().len() as int,
            arena.blocks_view() == old(arena).blocks_view(),
            arena.strings_view().len() == base + i,
            forall|j: int|
                0 <= j < base ==> arena.strings_view()[j] == old(arena).strings_view()[j],
            forall|j: int|
                0 <= j < i ==> arena.strings_view()[base + j] == Some(
                    str_bytes((#[trigger] src@[j]).condition@).push(0u8),
                ),
            dest@.len() == i,
            forall|j: int|
                0 <= j < i ==> query_rule_encodes(#[trigger] dest@[j], src@[j], base + j),
        decreases src@.len() - i,
    {
        let r = &src[i];
        let mut event_list_buf = zeroed_buf(MAX_EVENT_LIST_LEN);
        let mut event_list_size: i32 = 0;
        convert_str_vec_to_array(&r.event_list, &mut event_list_buf, &mut event_list_size);
        let h = arena.transfer_str(r.condition.as_str());
        let mut condition_bytes = r.condition.as_str().as_bytes_vec();
        condition_bytes.push(0u8);
        let w = HiSysEventQueryRuleWrapper {
            domain: encode_field(r.domain.as_str(), MAX_LENGTH_OF_EVENT_DOMAIN),
            event_list: event_list_buf,
            event_list_size,
            condition: h,
            condition_bytes,
        };
        dest.push(w);
        i = i + 1;
    }
    dest
}

/// One delivered system event, copied out of the boundary's record array.
#[derive(Clone, PartialEq, Debug)]
pub struct HiSysEventRecord {
    /// Domain.
    pub domain: Vec<u8>,
    /// Event name.
    pub event_name: Vec<u8>,
    /// Event type.
    pub type_: i32,
    /// Timestamp.
    pub time: u64,
    /// Timezone.
    pub tz: Vec<u8>,
    /// Process id.
    pub pid: i64,
    /// Thread id.
    pub tid: i64,
    /// User id.
    pub uid: i64,
    /// Trace id.
    pub trace_id: u64,
    /// Span id.
    pub spand_id: u64,
    /// Parent span id.
    pub pspan_id: u64,
    /// Trace flag.
    pub trace_flag: i32,
    /// Level.
    pub level: String,
    /// Tag.
    pub tag: String,
    /// Event content as serialized text.
    pub json_str: String,
}

/// The two records carry the same data, field by field.
pub open spec fn record_matches(a: &HiSysEventRecord, b: &HiSysEventRecord) -> bool {
    &&& a.domain@ == b.domain@
    &&& a.event_name@ == b.event_name@
    &&& a.type_ == b.type_
    &&& a.time == b.time
    &&& a.tz@ == b.tz@
    &&& a.pid == b.pid
    &&& a.tid == b.tid
    &&& a.uid == b.uid
    &&& a.trace_id == b.trace_id
    &&& a.spand_id == b.spand_id
    &&& a.pspan_id == b.pspan_id
    &&& a.trace_flag == b.trace_flag
    &&& a.level@ == b.level@
    &&& a.tag@ == b.tag@
    &&& a.json_str@ == b.json_str@
}

/// Copy the record at `index` out of a boundary-owned record array of
/// `total` entries. The caller must respect the bounds: a record array is
/// valid only for the duration of the callback that carries it, so the
/// copy is what may be retained.
pub fn get_hisysevent_record_by_index(
    records: &Vec<HiSysEventRecord>,
    total: i32,
    index: i32,
) -> (r: HiSysEventRecord)
    requires
        0 <= index < total,
        total as int <= records@.len(),
    ensures
        record_matches(&r, &records@[index as int]),
{
    let src = &records[index as usize];
    HiSysEventRecord {
        domain: copy_bytes(&src.domain),
        event_name: copy_bytes(&src.event_name),
        type_: src.type_,
        time: src.time,
        tz: copy_bytes(&src.tz),
        pid: src.pid,
        tid: src.tid,
        uid: src.uid,
        trace_id: src.trace_id,
        spand_id: src.spand_id,
        pspan_id: src.pspan_id,
        trace_flag: src.trace_flag,
        level: src.level.as_str().to_owned(),
        tag: src.tag.as_str().to_owned(),
        json_str: src.json_str.as_str().to_owned(),
    }
}

/// The boundary's entry points. Implementations are supplied by the
/// embedder (the native adapter, or a test double); their status codes are
/// opaque to this layer and are propagated unchanged, so nothing is assumed
/// of them here.
pub trait SysEventBoundary {
    /// Write one encoded event, with its call-site metadata.
    fn write_entry(
        &mut self,
        func: &str,
        line: u64,
        event_domain: &str,
        event_name: &str,
        event_type: i32,
        params: &Vec<HiSysEventParamWrapper>,
    ) -> i32;

    /// Register the encoded watch rules under a watcher handle.
    fn add_watcher_entry(
        &mut self,
        watcher_handle: usize,
        watch_rules: &Vec<HiSysEventWatchRule>,
    ) -> i32;

    /// Drop the registration of a watcher handle.
    fn remove_watcher_entry(&mut self, watcher_handle: usize) -> i32;

    /// Start a query; results arrive later through the querier's callbacks.
    fn query_entry(
        &mut self,
        query_arg: &HiSysEventQueryArg,
        query_rules: &Vec<HiSysEventQueryRuleWrapper>,
        querier_handle: usize,
    ) -> i32;
}

/// Caller-supplied watcher callbacks: the capability through which watched
/// events and service loss are delivered.
pub trait HiSysEventWatcher {
    /// Receive one system event. The record is valid only for the duration
    /// of this call; copy out what must be retained.
    fn on_event(&mut self, record: &HiSysEventRecord);

    /// The event service shut down: the whole registration is lost.
    fn on_service_died(&mut self);
}

/// Caller-supplied querier callbacks: the capability through which query
/// results and completion are delivered.
pub trait HiSysEventQueryCallback {
    /// Handle one batch of query results. The records are valid only for
    /// the duration of this call; copy out what must be retained.
    fn on_query(&mut self, records: &Vec<HiSysEventRecord>);

    /// The query finished, with a completion reason and a total count.
    fn on_complete(&mut self, reason: i32, total: i32);
}

/// Registration states of one watcher handle.
#[derive(Copy, Clone, PartialEq, Eq, Structural, Debug)]
pub enum WatchState {
    /// Not registered: no events are delivered.
    Unregistered,
    /// Registered with the boundary: events are delivered.
    Registered,
    /// The service died while registered: treated as unregistered.
    ServiceLost,
}

struct WatchEntry<W> {
    watcher: W,
    state: WatchState,
}

/// Keeps caller-supplied watchers alive while the boundary holds their
/// handles — the boundary keeps only a handle, so the storage must outlive
/// the registration — and tracks each handle's registration state.
pub struct WatcherRegistry<W> {
    entries: Vec<WatchEntry<W>>,
}

/// The state of handle `h` after a remove: unregistered, whatever it was.
pub open spec fn spec_remove(states: Seq<WatchState>, h: int) -> Seq<WatchState> {
    states.update(h, WatchState::Unregistered)
}

/// Law: removing a watcher is idempotent — a second remove of the same
/// handle leaves every handle's state exactly as the first remove did.
pub proof fn lemma_remove_idempotent(states: Seq<WatchState>, h: int)
    requires
        0 <= h < states.len(),
    ensures
        spec_remove(spec_remove(states, h), h) == spec_remove(states, h),
{
    assert(spec_remove(spec_remove(states, h), h) =~= spec_remove(states, h));
}

impl<W: HiSysEventWatcher> WatcherRegistry<W> {
    /// The registration state of each handle.
    pub closed spec fn states(&self) -> Seq<WatchState> {
        Seq::new(self.entries@.len(), |i: int| self.entries@[i].state)
    }

    /// The stored watcher of each handle.
    pub closed spec fn watchers(&self) -> Seq<W> {
        Seq::new(self.entries@.len(), |i: int| self.entries@[i].watcher)
    }

    /// A registry with no watchers.
    pub fn new() -> (r: WatcherRegistry<W>)
        ensures
            r.states().len() == 0,
    {
        WatcherRegistry { entries: Vec::new() }
    }

    /// Take ownership of a watcher — the storage the boundary's handle
    /// refers to — under a fresh, still unregistered handle.
    fn register(&mut self, watcher: W) -> (h: usize)
        ensures
            h == old(self).states().len(),
            final(self).states() == old(self).states().push(WatchState::Unregistered),
            final(self).watchers() == old(self).watchers().push(watcher),
    {
        let h = self.entries.len();
        self.entries.push(WatchEntry { watcher, state: WatchState::Unregistered });
        proof {
            assert(self.states() =~= old(self).states().push(WatchState::Unregistered));
            assert(self.watchers() =~= old(self).watchers().push(watcher));
        }
        h
    }

    /// Note that the boundary accepted the registration of `h`.
    fn mark_registered(&mut self, h: usize)
        requires
            h < old(self).states().len(),
        ensures
            final(self).states() == old(self).states().update(h as int, WatchState::Registered),
            final(self).watchers() == old(self).watchers(),
    {
        let entry = &mut self.entries[h];
        entry.state = WatchState::Registered;
        proof {
            assert(self.states() =~= old(self).states().update(h as int, WatchState::Registered));
            assert(self.watchers() =~= old(self).watchers());
        }
    }

    /// Note that `h` is no longer registered.
    fn note_removed(&mut self, h: usize)
        requires
            h < old(self).states().len(),
        ensures
            final(self).states() == spec_remove(old(self).states(), h as int),
            final(self).watchers() == old(self).watchers(),
    {
        let entry = &mut self.entries[h];
        entry.state = WatchState::Unregistered;
        proof {
            assert(self.states() =~= spec_remove(old(self).states(), h as int));
            assert(self.watchers() =~= old(self).watchers());
        }
    }

    /// The registration state of handle `h`.
    pub fn state_of(&self, h: usize) -> (s: WatchState)
        requires
            h < self.states().len(),
        ensures
            s == self.states()[h as int],
    {
        self.entries[h].state
    }

    /// How many handles this registry has given out.
    pub fn len(&self) -> (n: usize)
        ensures
            n == self.states().len(),
    {
        self.entries.len()
    }

    /// Read the watcher stored under handle `h`.
    pub fn watcher_at(&self, h: usize) -> (w: &W)
        requires
            h < self.states().len(),
        ensures
            *w == self.watchers()[h as int],
    {
        &self.entries[h].watcher
    }

    /// Forward one event from the boundary to the watcher of handle `h`.
    /// Only a registered watcher receives it: after a remove or a service
    /// loss, delivery stops. Reports whether the event was delivered.
    pub fn deliver_event(&mut self, h: usize, record: &HiSysEventRecord) -> (delivered: bool)
        ensures
            final(self).states() == old(self).states(),
            delivered == (h < old(self).states().len() && old(self).states()[h as int]
                is Registered),
            forall|i: int|
                0 <= i < old(self).watchers().len() && i != h ==> final(self).watchers()[i] == old(
                    self,
                ).watchers()[i],
    {
        if h >= self.entries.len() {
            return false;
        }
        let registered = match self.entries[h].state {
            WatchState::Registered => true,
            _ => false,
        };
        if registered {
            let entry = &mut self.entries[h];
            entry.watcher.on_event(record);
            proof {
                assert(self.states() =~= old(self).states());
            }
            true
        } else {
            false
        }
    }

    /// Forward a service-death notice to the watcher of handle `h`. A
    /// registered watcher is notified and its registration is lost; any
    /// other state is left alone. Reports whether the notice was delivered.
    pub fn deliver_service_died(&mut self, h: usize) -> (delivered: bool)
        ensures
            delivered == (h < old(self).states().len() && old(self).states()[h as int]
                is Registered),
            final(self).states() == if h < old(self).states().len() && old(self).states()[h as int]
                is Registered {
                old(self).states().update(h as int, WatchState::ServiceLost)
            } else {
                old(self).states()
            },
            forall|i: int|
                0 <= i < old(self).watchers().len() && i != h ==> final(self).watchers()[i] == old(
                    self,
                ).watchers()[i],
    {
        if h >= self.entries.len() {
            return false;
        }
        let registered = match self.entries[h].state {
            WatchState::Registered => true,
            _ => false,
        };
        if registered {
            let entry = &mut self.entries[h];
            entry.watcher.on_service_died();
            entry.state = WatchState::ServiceLost;
            proof {
                assert(self.states() =~= old(self).states().update(
                    h as int,
                    WatchState::ServiceLost,
                ));
            }
            true
        } else {
            false
        }
    }
}

/// Lifecycle states of one querier handle.
#[derive(Copy, Clone, PartialEq, Eq, Structural, Debug)]
pub enum QueryCallbackState {
    /// The query runs: result batches may still arrive.
    Active,
    /// The query completed: nothing more is delivered.
    Completed,
}

struct QueryEntry<Q> {
    querier: Q,
    state: QueryCallbackState,
}

/// Keeps caller-supplied queriers alive until their query completes — the
/// boundary keeps only a handle — and tracks each handle's lifecycle.
pub struct QuerierRegistry<Q> {
    entries: Vec<QueryEntry<Q>>,
}

/// Completion of querier handle `h`: an active querier becomes completed
/// and the callback fires; anything else is refused.
pub open spec fn spec_complete(states: Seq<QueryCallbackState>, h: int) -> (Seq<
    QueryCallbackState,
>, bool) {
    if 0 <= h < states.len() && states[h] is Active {
        (states.update(h, QueryCallbackState::Completed), true)
    } else {
        (states, false)
    }
}

/// Law: a querier completes exactly once — once a completion was
/// delivered, a second one for the same handle is refused and changes
/// nothing.
pub proof fn lemma_complete_exactly_once(states: Seq<QueryCallbackState>, h: int)
    requires
        0 <= h < states.len(),
        states[h] is Active,
    ensures
        ({
            let (s1, d1) = spec_complete(states, h);
            let (s2, d2) = spec_complete(s1, h);
            d1 && !d2 && s2 == s1
        }),
{
}

impl<Q: HiSysEventQueryCallback> QuerierRegistry<Q> {
    /// The lifecycle state of each handle.
    pub closed spec fn states(&self) -> Seq<QueryCallbackState> {
        Seq::new(self.entries@.len(), |i: int| self.entries@[i].state)
    }

    /// The stored querier of each handle.
    pub closed spec fn queriers(&self) -> Seq<Q> {
        Seq::new(self.entries@.len(), |i: int| self.entries@[i].querier)
    }

    /// A registry with no queriers.
    pub fn new() -> (r: QuerierRegistry<Q>)
        ensures
            r.states().len() == 0,
    {
        QuerierRegistry { entries: Vec::new() }
    }

    /// Take ownership of a querier — the storage the boundary's handle
    /// refers to — under a fresh, active handle.
    fn register(&mut self, querier: Q) -> (h: usize)
        ensures
            h == old(self).states().len(),
            final(self).states() == old(self).states().push(QueryCallbackState::Active),
            final(self).queriers() == old(self).queriers().push(querier),
    {
        let h = self.entries.len();
        self.entries.push(QueryEntry { querier, state: QueryCallbackState::Active });
        proof {
            assert(self.states() =~= old(self).states().push(QueryCallbackState::Active));
            assert(self.queriers() =~= old(self).queriers().push(querier));
        }
        h
    }

    /// Read the querier stored under handle `h`.
    pub fn querier_at(&self, h: usize) -> (q: &Q)
        requires
            h < self.states().len(),
        ensures
            *q == self.queriers()[h as int],
    {
        &self.entries[h].querier
    }

    /// The lifecycle state of handle `h`.
    pub fn state_of(&self, h: usize) -> (s: QueryCallbackState)
        requires
            h < self.states().len(),
        ensures
            s == self.states()[h as int],
    {
        self.entries[h].state
    }

    /// How many handles this registry has given out.
    pub fn len(&self) -> (n: usize)
        ensures
            n == self.states().len(),
    {
        self.entries.len()
    }

    /// Forward one batch of query results to the querier of handle `h`.
    /// Only an active querier receives it: after completion, delivery
    /// stops. Reports whether the batch was delivered.
    pub fn deliver_query_result(&mut self, h: usize, records: &Vec<HiSysEventRecord>) -> (delivered:
        bool)
        ensures
            final(self).states() == old(self).states(),
            delivered == (h < old(self).states().len() && old(self).states()[h as int] is Active),
            forall|i: int|
                0 <= i < old(self).queriers().len() && i != h ==> final(self).queriers()[i] == old(
                    self,
                ).queriers()[i],
    {
        if h >= self.entries.len() {
            return false;
        }
        let active = match self.entries[h].state {
            QueryCallbackState::Active => true,
            _ => false,
        };
        if active {
            let entry = &mut self.entries[h];
            entry.querier.on_query(records);
            proof {
                assert(self.states() =~= old(self).states());
            }
            true
        } else {
            false
        }
    }

    /// Forward the terminal completion to the querier of handle `h`: an
    /// active querier is told once and becomes completed; a second
    /// completion is refused. Reports whether the completion was delivered.
    pub fn deliver_complete(&mut self, h: usize, reason: i32, total: i32) -> (delivered: bool)
        ensures
            final(self).states() == spec_complete(old(self).states(), h as int).0,
            delivered == spec_complete(old(self).states(), h as int).1,
            forall|i: int|
                0 <= i < old(self).queriers().len() && i != h ==> final(self).queriers()[i] == old(
                    self,
                ).queriers()[i],
    {
        if h >= self.entries.len() {
            return false;
        }
        let active = match self.entries[h].state {
            QueryCallbackState::Active => true,
            _ => false,
        };
        if active {
            let entry = &mut self.entries[h];
            entry.querier.on_complete(reason, total);
            entry.state = QueryCallbackState::Completed;
            proof {
                assert(self.states() =~= spec_complete(old(self).states(), h as int).0);
            }
            true
        } else {
            false
        }
    }
}

/// Register a watcher: encode the rules, store the watcher under a fresh
/// handle (the storage the boundary will refer to), and invoke the
/// boundary's registration entry point. The boundary's status is returned
/// unchanged beside the handle; the handle counts as registered exactly
/// when the boundary accepted it.
pub fn add_watcher<B: SysEventBoundary, W: HiSysEventWatcher>(
    boundary: &mut B,
    watchers: &mut WatcherRegistry<W>,
    watcher: W,
    watch_rules: &Vec<WatchRule>,
) -> (r: (i32, usize))
    requires
        forall|i: int| 0 <= i < watch_rules@.len() ==> (#[trigger] watch_rules@[i]).wf(),
    ensures
        r.1 == old(watchers).states().len(),
        final(watchers).states().len() == old(watchers).states().len() + 1,
        forall|i: int|
            0 <= i < old(watchers).states().len() ==> final(watchers).states()[i] == old(
                watchers,
            ).states()[i],
        final(watchers).states()[r.1 as int] == if r.0 == 0 {
            WatchState::Registered
        } else {
            WatchState::Unregistered
        },
        final(watchers).watchers() == old(watchers).watchers().push(watcher),
{
    let rules_wrapper = convert_watch_rule_to_wrapper(watch_rules);
    let h = watchers.register(watcher);
    let ret = boundary.add_watcher_entry(h, &rules_wrapper);
    if ret == 0 {
        watchers.mark_registered(h);
    }
    (ret, h)
}

/// Remove a watcher: invoke the boundary's removal entry point and treat
/// the handle as unregistered from now on, whatever its state was — also
/// when it was already removed, which must be safe. The boundary's status
/// is returned unchanged. The stored watchers stay untouched: once handed
/// over, their storage is not freed by a removal.
pub fn remove_watcher<B: SysEventBoundary, W: HiSysEventWatcher>(
    boundary: &mut B,
    watchers: &mut WatcherRegistry<W>,
    watcher_handle: usize,
) -> (status: i32)
    requires
        watcher_handle < old(watchers).states().len(),
    ensures
        final(watchers).states() == spec_remove(old(watchers).states(), watcher_handle as int),
        final(watchers).watchers() == old(watchers).watchers(),
{
    let ret = boundary.remove_watcher_entry(watcher_handle);
    watchers.note_removed(watcher_handle);
    ret
}

/// Query past events: encode the arguments and rules — transferring each
/// rule's condition string to the boundary — store the querier under a
/// fresh active handle, and invoke the boundary's query entry point. The
/// boundary's status is returned unchanged beside the handle; results
/// arrive later through the querier's callbacks.
pub fn query<B: SysEventBoundary, Q: HiSysEventQueryCallback>(
    boundary: &mut B,
    arena: &mut TransferArena,
    queriers: &mut QuerierRegistry<Q>,
    query_arg: &QueryArg,
    query_rules: &Vec<QueryRule>,
    querier: Q,
) -> (r: (i32, usize))
    requires
        old(arena).wf(),
        forall|i: int| 0 <= i < query_rules@.len() ==> (#[trigger] query_rules@[i]).wf(),
    ensures
        final(arena).wf(),
        final(arena).blocks_view() == old(arena).blocks_view(),
        final(arena).strings_view().len() == old(arena).strings_view().len()
            + query_rules@.len(),
        forall|i: int|
            0 <= i < old(arena).strings_view().len() ==> final(arena).strings_view()[i] == old(
                arena,
            ).strings_view()[i],
        forall|i: int|
            0 <= i < query_rules@.len() ==> final(arena).strings_view()[old(
                arena,
            ).strings_view().len() + i] == Some(
                str_bytes((#[trigger] query_rules@[i]).condition@).push(0u8),
            ),
        r.1 == old(queriers).states().len(),
        final(queriers).states() == old(queriers).states().push(QueryCallbackState::Active),
        final(queriers).queriers() == old(queriers).queriers().push(querier),
{
    let query_arg_wrapper = convert_query_arg_to_wrapper(query_arg);
    let rules_wrapper = convert_query_rule_to_wrapper(arena, query_rules);
    let h = queriers.register(querier);
    let ret = boundary.query_entry(&query_arg_wrapper, &rules_wrapper, h);
    (ret, h)
}

} // verus!
