//! Scenario tests against a recording test-double boundary, plus the
//! original write / watcher / query flows.

use hisysevent::{
    EventType, HiSysEventParam, HiSysEventParamType, HiSysEventParamValue,
    HiSysEventParamWrapper, HiSysEventQueryArg, HiSysEventQueryCallback,
    HiSysEventQueryRuleWrapper, HiSysEventRecord, HiSysEventWatchRule, HiSysEventWatcher,
    QuerierRegistry, QueryArg, QueryRule, RuleType, SysEventBoundary, TransferArena, WatchRule,
    WatchState, WatcherRegistry, add_watcher, build_string_arrays, query, remove_watcher,
};

/// A boundary double: records every entry-point call, accepts everything,
/// and tracks which watcher handles it considers registered.
struct FakeBoundary {
    write_calls: Vec<(String, String, i32, Vec<HiSysEventParamWrapper>)>,
    watch_registrations: Vec<(usize, Vec<HiSysEventWatchRule>)>,
    query_calls: Vec<(HiSysEventQueryArg, Vec<HiSysEventQueryRuleWrapper>, usize)>,
    registered: Vec<usize>,
}

impl FakeBoundary {
    fn new() -> FakeBoundary {
        FakeBoundary {
            write_calls: Vec::new(),
            watch_registrations: Vec::new(),
            query_calls: Vec::new(),
            registered: Vec::new(),
        }
    }
}

impl SysEventBoundary for FakeBoundary {
    fn write_entry(
        &mut self,
        _func: &str,
        _line: u64,
        event_domain: &str,
        event_name: &str,
        event_type: i32,
        params: &Vec<HiSysEventParamWrapper>,
    ) -> i32 {
        self.write_calls.push((
            event_domain.to_string(),
            event_name.to_string(),
            event_type,
            params.clone(),
        ));
        0
    }

    fn add_watcher_entry(
        &mut self,
        watcher_handle: usize,
        watch_rules: &Vec<HiSysEventWatchRule>,
    ) -> i32 {
        self.watch_registrations
            .push((watcher_handle, watch_rules.clone()));
        self.registered.push(watcher_handle);
        0
    }

    fn remove_watcher_entry(&mut self, watcher_handle: usize) -> i32 {
        match self.registered.iter().position(|h| *h == watcher_handle) {
            Some(pos) => {
                self.registered.remove(pos);
                0
            }
            None => -1, // not found
        }
    }

    fn query_entry(
        &mut self,
        query_arg: &HiSysEventQueryArg,
        query_rules: &Vec<HiSysEventQueryRuleWrapper>,
        querier_handle: usize,
    ) -> i32 {
        self.query_calls
            .push((*query_arg, query_rules.clone(), querier_handle));
        0
    }
}

/// A watcher double that copies out what it is told.
struct RecordingWatcher {
    events: Vec<(Vec<u8>, Vec<u8>)>,
    service_deaths: usize,
}

impl RecordingWatcher {
    fn new() -> RecordingWatcher {
        RecordingWatcher {
            events: Vec::new(),
            service_deaths: 0,
        }
    }
}

impl HiSysEventWatcher for RecordingWatcher {
    fn on_event(&mut self, record: &HiSysEventRecord) {
        self.events
            .push((record.domain.clone(), record.event_name.clone()));
    }

    fn on_service_died(&mut self) {
        self.service_deaths += 1;
    }
}

/// A querier double that counts batches and completions.
struct RecordingQuerier {
    batches: Vec<usize>,
    completions: Vec<(i32, i32)>,
}

impl RecordingQuerier {
    fn new() -> RecordingQuerier {
        RecordingQuerier {
            batches: Vec::new(),
            completions: Vec::new(),
        }
    }
}

impl HiSysEventQueryCallback for RecordingQuerier {
    fn on_query(&mut self, records: &Vec<HiSysEventRecord>) {
        self.batches.push(records.len());
    }

    fn on_complete(&mut self, reason: i32, total: i32) {
        self.completions.push((reason, total));
    }
}

fn bool_param(name: &str, v: bool) -> HiSysEventParam {
    HiSysEventParam {
        param_name: name.to_string(),
        param_type: HiSysEventParamType::Bool,
        param_value: HiSysEventParamValue::Bool(v),
        array_size: 0,
    }
}

fn i32_param(name: &str, v: i32) -> HiSysEventParam {
    HiSysEventParam {
        param_name: name.to_string(),
        param_type: HiSysEventParamType::Int32,
        param_value: HiSysEventParamValue::Int32(v),
        array_size: 0,
    }
}

fn f32_param(name: &str, v: f32) -> HiSysEventParam {
    HiSysEventParam {
        param_name: name.to_string(),
        param_type: HiSysEventParamType::Float,
        param_value: HiSysEventParamValue::FloatBits(v.to_bits()),
        array_size: 0,
    }
}

fn str_param(name: &str, v: &str) -> HiSysEventParam {
    HiSysEventParam {
        param_name: name.to_string(),
        param_type: HiSysEventParamType::ParamTypeString,
        param_value: HiSysEventParamValue::Str(v.to_string()),
        array_size: 0,
    }
}

fn i32_array_param(name: &str, v: Vec<i32>) -> HiSysEventParam {
    let n = v.len();
    HiSysEventParam {
        param_name: name.to_string(),
        param_type: HiSysEventParamType::Int32Array,
        param_value: HiSysEventParamValue::Int32Array(v),
        array_size: n,
    }
}

fn bool_array_param(name: &str, v: Vec<bool>) -> HiSysEventParam {
    let n = v.len();
    HiSysEventParam {
        param_name: name.to_string(),
        param_type: HiSysEventParamType::BoolArray,
        param_value: HiSysEventParamValue::BoolArray(v),
        array_size: n,
    }
}

fn f32_array_param(name: &str, v: Vec<f32>) -> HiSysEventParam {
    let n = v.len();
    HiSysEventParam {
        param_name: name.to_string(),
        param_type: HiSysEventParamType::FloatArray,
        param_value: HiSysEventParamValue::FloatBitsArray(
            v.iter().map(|x| x.to_bits()).collect(),
        ),
        array_size: n,
    }
}

/// A record as the boundary would deliver it: fixed-width domain and name
/// fields, everything else zeroed or empty.
fn make_record(domain: &str, event_name: &str) -> HiSysEventRecord {
    let mut d = vec![0u8; 17];
    for (i, b) in domain.as_bytes().iter().take(17).enumerate() {
        d[i] = *b;
    }
    let mut n = vec![0u8; 33];
    for (i, b) in event_name.as_bytes().iter().take(33).enumerate() {
        n[i] = *b;
    }
    HiSysEventRecord {
        domain: d,
        event_name: n,
        type_: 4,
        time: 0,
        tz: vec![0u8; 6],
        pid: 0,
        tid: 0,
        uid: 0,
        trace_id: 0,
        spand_id: 0,
        pspan_id: 0,
        trace_flag: 0,
        level: String::new(),
        tag: String::new(),
        json_str: String::new(),
    }
}

#[test]
fn test_hisysevent_write_001() {
    let mut boundary = FakeBoundary::new();
    let mut arena = TransferArena::new();
    let ret = hisysevent::write(
        &mut boundary,
        "write",
        0,
        "HIVIEWDFX",
        "PLUGIN_LOAD",
        EventType::Behavior,
        vec![
            i32_param("INT32_SINGLE", 100i32),
            str_param("STRING_SINGLE", "test_hisysevent_write_001"),
            bool_param("BOOL_SINGLE", true),
            f32_param("FLOAT_SINGLE", 4.03f32),
            build_string_arrays(
                &mut arena,
                "STRING_ARRAY",
                &vec!["STRING1".to_string(), "STRING2".to_string()],
            ),
            i32_array_param("INT32_ARRAY", vec![8i32, 9i32]),
            bool_array_param("BOOL_ARRAY", vec![true, false, true]),
            f32_array_param("FLOAT_ARRAY", vec![1.55f32, 2.33f32, 4.88f32]),
        ],
    );
    assert!(ret == 0);
}

#[test]
fn test_hisysevent_add_remove_watcher_001() {
    let mut boundary = FakeBoundary::new();
    let mut watchers: WatcherRegistry<RecordingWatcher> = WatcherRegistry::new();
    let watcher = RecordingWatcher::new();
    let watch_rules = vec![
        WatchRule {
            domain: "HIVIEWDFX".to_string(),
            name: "PLUGIN_LOAD".to_string(),
            tag: "".to_string(),
            rule_type: RuleType::WholeWord,
            event_type: EventType::Behavior,
        },
        WatchRule {
            domain: "HIVIEWDFX".to_string(),
            name: "PLUGIN_UNLOAD".to_string(),
            tag: "".to_string(),
            rule_type: RuleType::WholeWord,
            event_type: EventType::Behavior,
        },
    ];
    let (mut ret, handle) = add_watcher(&mut boundary, &mut watchers, watcher, &watch_rules);
    assert!(ret == 0);
    ret = hisysevent::write(
        &mut boundary,
        "write",
        0,
        "HIVIEWDFX",
        "PLUGIN_LOAD",
        EventType::Behavior,
        vec![str_param(
            "STRING_SINGLE",
            "test_hisysevent_add_remove_watcher_001",
        )],
    );
    assert!(ret == 0);
    ret = hisysevent::write(
        &mut boundary,
        "write",
        0,
        "HIVIEWDFX",
        "PLUGIN_UNLOAD",
        EventType::Behavior,
        vec![str_param(
            "STRING_SINGLE",
            "test_hisysevent_add_remove_watcher_001",
        )],
    );
    assert!(ret == 0);
    ret = remove_watcher(&mut boundary, &mut watchers, handle);
    assert!(ret == 0);
}

#[test]
fn test_hisysevent_query_001() {
    let mut boundary = FakeBoundary::new();
    // write two events at first.
    let mut ret = hisysevent::write(
        &mut boundary,
        "write",
        0,
        "HIVIEWDFX",
        "PLUGIN_LOAD",
        EventType::Behavior,
        vec![str_param("STRING_SINGLE", "test_hisysevent_query_001")],
    );
    assert!(ret == 0);
    ret = hisysevent::write(
        &mut boundary,
        "write",
        0,
        "HIVIEWDFX",
        "PLUGIN_UNLOAD",
        EventType::Behavior,
        vec![str_param("STRING_SINGLE", "test_hisysevent_query_001")],
    );
    assert!(ret == 0);
    // query events
    let query_arg = QueryArg {
        begin_time: -1,
        end_time: -1,
        max_events: 2,
    };
    let query_rules = vec![
        QueryRule {
            domain: "HIVIEWDFX".to_string(),
            event_list: vec!["PLUGIN_LOAD".to_string(), "PLUGIN_UNLOAD".to_string()],
            condition: "{\"version\":\"V1\",\"condition\":{\"and\":[{\"param\":\"NAME\",\"op\":\"=\",\"value\":\"SysEventService\"}]}}".to_string(),
        },
        QueryRule {
            domain: "HIVIEWDFX".to_string(),
            event_list: vec!["PLUGIN_LOAD".to_string()],
            condition: "".to_string(),
        },
    ];
    let mut arena = TransferArena::new();
    let mut queriers: QuerierRegistry<RecordingQuerier> = QuerierRegistry::new();
    let querier = RecordingQuerier::new();
    let (ret, _handle) = query(
        &mut boundary,
        &mut arena,
        &mut queriers,
        &query_arg,
        &query_rules,
        querier,
    );
    assert!(ret == 0);
}

#[test]
fn write_sends_two_params_with_their_tags() {
    let mut boundary = FakeBoundary::new();
    let ret = hisysevent::write(
        &mut boundary,
        "write",
        0,
        "HIVIEWDFX",
        "PLUGIN_LOAD",
        EventType::Behavior,
        vec![
            i32_param("INT32_SINGLE", 100i32),
            str_param("STRING_SINGLE", "x"),
        ],
    );
    assert_eq!(ret, 0);
    assert_eq!(boundary.write_calls.len(), 1);
    let (domain, name, event_type, params) = &boundary.write_calls[0];
    assert_eq!(domain, "HIVIEWDFX");
    assert_eq!(name, "PLUGIN_LOAD");
    assert_eq!(*event_type, 4); // Behavior
    assert_eq!(params.len(), 2);
    assert_eq!(params[0].param_type, 6); // Int32
    assert_eq!(params[1].param_type, 12); // String
    assert_eq!(params[0].array_size, 0);
    assert_eq!(params[0].param_value, HiSysEventParamValue::Int32(100));
    assert_eq!(
        params[1].param_value,
        HiSysEventParamValue::Str("x".to_string())
    );
    // the name field is fixed-width, cut and zero-padded
    assert_eq!(params[0].param_name.len(), 33);
    assert_eq!(&params[0].param_name[..12], b"INT32_SINGLE");
    assert!(params[0].param_name[12..].iter().all(|b| *b == 0));
}

#[test]
fn watcher_gets_matching_event_then_is_removed() {
    let mut boundary = FakeBoundary::new();
    let mut watchers: WatcherRegistry<RecordingWatcher> = WatcherRegistry::new();
    let watch_rules = vec![WatchRule {
        domain: "HIVIEWDFX".to_string(),
        name: "PLUGIN_LOAD".to_string(),
        tag: "".to_string(),
        rule_type: RuleType::WholeWord,
        event_type: EventType::Behavior,
    }];
    let (ret, handle) = add_watcher(
        &mut boundary,
        &mut watchers,
        RecordingWatcher::new(),
        &watch_rules,
    );
    assert_eq!(ret, 0);
    assert_eq!(watchers.state_of(handle), WatchState::Registered);
    // a matching write reaches the boundary ...
    let ret = hisysevent::write(
        &mut boundary,
        "write",
        0,
        "HIVIEWDFX",
        "PLUGIN_LOAD",
        EventType::Behavior,
        vec![str_param("STRING_SINGLE", "x")],
    );
    assert_eq!(ret, 0);
    let (domain, name, _, _) = &boundary.write_calls[0];
    // ... and matches the registered rule, so the boundary notifies the watcher
    let rule = &boundary.watch_registrations[0].1[0];
    assert_eq!(&rule.domain[..domain.len()], domain.as_bytes());
    assert_eq!(&rule.name[..name.len()], name.as_bytes());
    let record = make_record(domain, name);
    let delivered = watchers.deliver_event(handle, &record);
    assert!(delivered);
    {
        let w = watchers.watcher_at(handle);
        assert_eq!(w.events.len(), 1);
        assert_eq!(&w.events[0].0[..9], b"HIVIEWDFX");
        assert_eq!(&w.events[0].1[..11], b"PLUGIN_LOAD");
    }
    // after the remove, nothing is delivered any more
    let ret = remove_watcher(&mut boundary, &mut watchers, handle);
    assert_eq!(ret, 0);
    assert!(!watchers.deliver_event(handle, &record));
    assert_eq!(watchers.watcher_at(handle).events.len(), 1);
}

#[test]
fn query_completes_exactly_once() {
    let mut boundary = FakeBoundary::new();
    let mut arena = TransferArena::new();
    let mut queriers: QuerierRegistry<RecordingQuerier> = QuerierRegistry::new();
    let query_arg = QueryArg {
        begin_time: -1,
        end_time: -1,
        max_events: 2,
    };
    let query_rules = vec![QueryRule {
        domain: "HIVIEWDFX".to_string(),
        event_list: vec!["PLUGIN_LOAD".to_string(), "PLUGIN_UNLOAD".to_string()],
        condition: "".to_string(),
    }];
    let (ret, handle) = query(
        &mut boundary,
        &mut arena,
        &mut queriers,
        &query_arg,
        &query_rules,
        RecordingQuerier::new(),
    );
    assert_eq!(ret, 0);
    // some batches arrive, then exactly one completion
    let batch = vec![
        make_record("HIVIEWDFX", "PLUGIN_LOAD"),
        make_record("HIVIEWDFX", "PLUGIN_UNLOAD"),
    ];
    assert!(queriers.deliver_query_result(handle, &batch));
    assert!(queriers.deliver_complete(handle, 0, 2));
    // a second completion is refused, and no further batch is delivered
    assert!(!queriers.deliver_complete(handle, 0, 2));
    assert!(!queriers.deliver_query_result(handle, &batch));
    let q = queriers.len();
    assert_eq!(q, 1);
    // the boundary received the argument copied field for field
    let (arg, rules, h) = &boundary.query_calls[0];
    assert_eq!(arg.begin_time, -1);
    assert_eq!(arg.end_time, -1);
    assert_eq!(arg.max_events, 2);
    assert_eq!(*h, handle);
    assert_eq!(rules[0].event_list_size, 2);
    // the stored querier saw one batch and one completion with total >= 0
    let stored = queriers.querier_at(handle);
    assert_eq!(stored.batches, vec![2]);
    assert_eq!(stored.completions.len(), 1);
    let (_, total) = stored.completions[0];
    assert!(total >= 0);
}

#[test]
fn query_arg_wire_form_copies_every_field() {
    let arg = QueryArg {
        begin_time: 123,
        end_time: 456,
        max_events: 7,
    };
    let w = hisysevent::convert_query_arg_to_wrapper(&arg);
    assert_eq!(w.begin_time, 123);
    assert_eq!(w.end_time, 456);
    assert_eq!(w.max_events, 7);
}

#[test]
fn remove_watcher_twice_is_safe() {
    let mut boundary = FakeBoundary::new();
    let mut watchers: WatcherRegistry<RecordingWatcher> = WatcherRegistry::new();
    let (ret, handle) = add_watcher(
        &mut boundary,
        &mut watchers,
        RecordingWatcher::new(),
        &vec![WatchRule {
            domain: "HIVIEWDFX".to_string(),
            name: "PLUGIN_LOAD".to_string(),
            tag: "".to_string(),
            rule_type: RuleType::WholeWord,
            event_type: EventType::Behavior,
        }],
    );
    assert_eq!(ret, 0);
    let first = remove_watcher(&mut boundary, &mut watchers, handle);
    assert_eq!(first, 0);
    assert_eq!(watchers.state_of(handle), WatchState::Unregistered);
    // removing again must not crash: the boundary may report "not found",
    // and the handle's state stays unregistered
    let second = remove_watcher(&mut boundary, &mut watchers, handle);
    assert_eq!(second, -1);
    assert_eq!(watchers.state_of(handle), WatchState::Unregistered);
    assert_eq!(watchers.len(), 1);
}

#[test]
fn service_death_is_delivered_once_and_loses_the_registration() {
    let mut boundary = FakeBoundary::new();
    let mut watchers: WatcherRegistry<RecordingWatcher> = WatcherRegistry::new();
    let (ret, handle) = add_watcher(
        &mut boundary,
        &mut watchers,
        RecordingWatcher::new(),
        &vec![WatchRule {
            domain: "HIVIEWDFX".to_string(),
            name: "PLUGIN_LOAD".to_string(),
            tag: "".to_string(),
            rule_type: RuleType::WholeWord,
            event_type: EventType::Behavior,
        }],
    );
    assert_eq!(ret, 0);
    assert!(watchers.deliver_service_died(handle));
    assert_eq!(watchers.state_of(handle), WatchState::ServiceLost);
    assert_eq!(watchers.watcher_at(handle).service_deaths, 1);
    // the registration is lost: no events, no second notice
    assert!(!watchers.deliver_event(handle, &make_record("HIVIEWDFX", "PLUGIN_LOAD")));
    assert!(!watchers.deliver_service_died(handle));
    assert_eq!(watchers.watcher_at(handle).service_deaths, 1);
}
