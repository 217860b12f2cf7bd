//! Verified marshalling core for a system event service reached through a
//! flat, fixed-layout boundary.
//!
//! Callers describe events with a typed, variable-length parameter model;
//! this library derives wire type tags, encodes parameters and watch/query
//! rules into fixed-capacity structures with byte-level truncation, and
//! models the ownership handoff of heap buffers that cross the boundary.
//! The boundary itself is reached through the [`SysEventBoundary`]
//! capability, and delivers results through caller-supplied watcher and
//! querier callbacks.

use vstd::prelude::*;

pub mod sys_event;
pub mod sys_event_manager;
pub mod utils;

pub use utils::{
    TransferArena, copy_bytes_truncated, encode_field, free_allocated_str, trans_slice_to_array,
    zeroed_buf,
};

pub use sys_event::{
    HiSysEventParam, HiSysEventParamType, HiSysEventParamValue, HiSysEventParamWrapper,
    MAX_LENGTH_OF_PARAM_NAME, build_string_arrays, convert_param_to_wrapper, parse_type_len,
};

pub use sys_event_manager::{
    EVENT_LIST_SEPARATOR, HiSysEventQueryArg, HiSysEventQueryCallback, HiSysEventQueryRuleWrapper,
    HiSysEventRecord, HiSysEventWatchRule, HiSysEventWatcher, MAX_EVENT_LIST_LEN,
    MAX_LENGTH_OF_EVENT_DOMAIN, MAX_LENGTH_OF_EVENT_NAME, MAX_LENGTH_OF_EVENT_TAG,
    MAX_LENGTH_OF_TIME_ZONE, MAX_NUMBER_OF_EVENT_LIST, QueryCallbackState, QuerierRegistry,
    SysEventBoundary, WatchState, WatcherRegistry, convert_query_arg_to_wrapper,
    convert_str_vec_to_array, convert_watch_rule_to_wrapper, get_hisysevent_record_by_index,
};

verus! {

/// Kinds of system events.
#[derive(Copy, Clone, PartialEq, Eq, Structural, Debug)]
pub enum EventType {
    /// Fault event.
    Fault,
    /// Statistic event.
    Statistic,
    /// Security event.
    Security,
    /// System behavior event.
    Behavior,
}

/// The wire code of an event type.
pub open spec fn spec_event_type_code(t: EventType) -> int {
    match t {
        EventType::Fault => 1,
        EventType::Statistic => 2,
        EventType::Security => 3,
        EventType::Behavior => 4,
    }
}

impl EventType {
    /// The wire code of this event type.
    pub fn as_code(&self) -> (c: i32)
        ensures
            c as int == spec_event_type_code(*self),
    {
        match self {
            EventType::Fault => 1,
            EventType::Statistic => 2,
            EventType::Security => 3,
            EventType::Behavior => 4,
        }
    }
}

/// Translate an event type into its wire code.
impl From<EventType> for i32 {
    fn from(src: EventType) -> (r: i32) {
        src.as_code()
    }
}

impl vstd::std_specs::convert::FromSpecImpl<EventType> for i32 {
    open spec fn obeys_from_spec() -> bool {
        true
    }

    open spec fn from_spec(t: EventType) -> i32 {
        spec_event_type_code(t) as i32
    }
}

/// How a watch rule matches event names.
#[derive(Copy, Clone, PartialEq, Eq, Structural, Debug)]
pub enum RuleType {
    /// Whole word match.
    WholeWord,
    /// Prefix match.
    Prefix,
    /// Regular expression match.
    Regular,
}

/// The wire code of a rule type.
pub open spec fn spec_rule_type_code(t: RuleType) -> int {
    match t {
        RuleType::WholeWord => 1,
        RuleType::Prefix => 2,
        RuleType::Regular => 3,
    }
}

impl RuleType {
    /// The wire code of this rule type.
    pub fn as_code(&self) -> (c: i32)
        ensures
            c as int == spec_rule_type_code(*self),
    {
        match self {
            RuleType::WholeWord => 1,
            RuleType::Prefix => 2,
            RuleType::Regular => 3,
        }
    }
}

/// Translate a rule type into its wire code.
impl From<RuleType> for i32 {
    fn from(src: RuleType) -> (r: i32) {
        src.as_code()
    }
}

impl vstd::std_specs::convert::FromSpecImpl<RuleType> for i32 {
    open spec fn obeys_from_spec() -> bool {
        true
    }

    open spec fn from_spec(t: RuleType) -> i32 {
        spec_rule_type_code(t) as i32
    }
}

/// Arguments restricting a query of past system events.
#[derive(Copy, Clone, PartialEq, Eq, Structural, Debug)]
pub struct QueryArg {
    /// Begin time, or -1 for unbounded.
    pub begin_time: i64,
    /// End time, or -1 for unbounded.
    pub end_time: i64,
    /// Max number of system events to receive.
    pub max_events: i32,
}

/// A predicate restricting which past events a query returns.
#[derive(Clone, PartialEq, Debug)]
pub struct QueryRule {
    /// The domain of the event.
    pub domain: String,
    /// List of event names.
    pub event_list: Vec<String>,
    /// Extra condition for the event query; its buffer is heap-transferred
    /// to the boundary for the duration of the call.
    pub condition: String,
}

impl QueryRule {
    /// Strings put on the wire must be NUL-free.
    pub open spec fn wf(&self) -> bool {
        &&& utils::nul_free(self.domain@)
        &&& utils::nul_free(self.condition@)
        &&& forall|i: int|
            0 <= i < self.event_list@.len() ==> utils::nul_free(#[trigger] self.event_list@[i]@)
    }
}

/// A predicate registered so the boundary notifies the caller when matching
/// events occur.
#[derive(Clone, PartialEq, Debug)]
pub struct WatchRule {
    /// The domain of the event.
    pub domain: String,
    /// The name of the event.
    pub name: String,
    /// The tag of the event.
    pub tag: String,
    /// How the rule matches system events.
    pub rule_type: RuleType,
    /// The type of matched system events.
    pub event_type: EventType,
}

impl WatchRule {
    /// Strings put on the wire must be NUL-free.
    pub open spec fn wf(&self) -> bool {
        &&& utils::nul_free(self.domain@)
        &&& utils::nul_free(self.name@)
        &&& utils::nul_free(self.tag@)
    }
}

/// Write one system event: encode the parameters and invoke the boundary's
/// write entry point with the call-site metadata. The boundary's status
/// code is opaque to this layer and returned unchanged.
pub fn write<B: SysEventBoundary>(
    boundary: &mut B,
    func: &str,
    line: u64,
    event_domain: &str,
    event_name: &str,
    event_type: EventType,
    event_params: Vec<HiSysEventParam>,
) -> (status: i32)
    requires
        utils::nul_free(func@),
        utils::nul_free(event_domain@),
        utils::nul_free(event_name@),
        forall|i: int| 0 <= i < event_params@.len() ==> (#[trigger] event_params@[i]).wf(),
{
    sys_event::write(
        boundary,
        func,
        line,
        event_domain,
        event_name,
        i32::from(event_type),
        event_params,
    )
}

/// Query past system events; see [`sys_event_manager::query`]. The querier
/// is stored under the returned handle and its callbacks deliver the
/// results; the boundary's status is returned unchanged beside the handle.
pub fn query<B: SysEventBoundary, Q: HiSysEventQueryCallback>(
    boundary: &mut B,
    arena: &mut TransferArena,
    queriers: &mut QuerierRegistry<Q>,
    query_arg: &QueryArg,
    query_rules: &Vec<QueryRule>,
    querier: Q,
) -> (r: (i32, usize))
    requires
        old(arena).wf(),
        forall|i: int| 0 <= i < query_rules@.len() ==> (#[trigger] query_rules@[i]).wf(),
    ensures
        final(arena).wf(),
        final(arena).blocks_view() == old(arena).blocks_view(),
        final(arena).strings_view().len() == old(arena).strings_view().len()
            + query_rules@.len(),
        forall|i: int|
            0 <= i < old(arena).strings_view().len() ==> final(arena).strings_view()[i] == old(
                arena,
            ).strings_view()[i],
        forall|i: int|
            0 <= i < query_rules@.len() ==> final(arena).strings_view()[old(
                arena,
            ).strings_view().len() + i] == Some(
                utils::str_bytes((#[trigger] query_rules@[i]).condition@).push(0u8),
            ),
        r.1 == old(queriers).states().len(),
        final(queriers).states() == old(queriers).states().push(QueryCallbackState::Active),
        final(queriers).queriers() == old(queriers).queriers().push(querier),
{
    sys_event_manager::query(boundary, arena, queriers, query_arg, query_rules, querier)
}

/// Register a watcher for live system events; see
/// [`sys_event_manager::add_watcher`]. The watcher is stored under the
/// returned handle, which counts as registered exactly when the boundary
/// accepted it; the boundary's status is returned unchanged beside it.
pub fn add_watcher<B: SysEventBoundary, W: HiSysEventWatcher>(
    boundary: &mut B,
    watchers: &mut WatcherRegistry<W>,
    watcher: W,
    watch_rules: &Vec<WatchRule>,
) -> (r: (i32, usize))
    requires
        forall|i: int| 0 <= i < watch_rules@.len() ==> (#[trigger] watch_rules@[i]).wf(),
    ensures
        r.1 == old(watchers).states().len(),
        final(watchers).states().len() == old(watchers).states().len() + 1,
        forall|i: int|
            0 <= i < old(watchers).states().len() ==> final(watchers).states()[i] == old(
                watchers,
            ).states()[i],
        final(watchers).states()[r.1 as int] == if r.0 == 0 {
            WatchState::Registered
        } else {
            WatchState::Unregistered
        },
        final(watchers).watchers() == old(watchers).watchers().push(watcher),
{
    sys_event_manager::add_watcher(boundary, watchers, watcher, watch_rules)
}

/// Remove a watcher; see [`sys_event_manager::remove_watcher`]. The handle
/// is treated as unregistered from now on — also when it already was,
/// which must be safe; the boundary's status is returned unchanged.
pub fn remove_watcher<B: SysEventBoundary, W: HiSysEventWatcher>(
    boundary: &mut B,
    watchers: &mut WatcherRegistry<W>,
    watcher_handle: usize,
) -> (status: i32)
    requires
        watcher_handle < old(watchers).states().len(),
    ensures
        final(watchers).states() == sys_event_manager::spec_remove(
            old(watchers).states(),
            watcher_handle as int,
        ),
        final(watchers).watchers() == old(watchers).watchers(),
{
    sys_event_manager::remove_watcher(boundary, watchers, watcher_handle)
}

} // verus!
