use panopticon_tui::dashboard::App;
use panopticon_tui::dashboard::EnterAction;
use panopticon_tui::dashboard::JmxConnectOutcome;
use panopticon_tui::fetch::FetchRequest;
use panopticon_tui::fetch::FetchResponse;
use panopticon_tui::fetch::FetchWorker;
use panopticon_tui::fetch::PortData;
use panopticon_tui::fetch::WorkerPlan;
use panopticon_tui::fetch::complete;
use panopticon_tui::model::Fiber;
use panopticon_tui::model::FiberStatus;
use panopticon_tui::model::HikariMetrics;
use panopticon_tui::model::jmx_settings_from;
use panopticon_tui::model::JMXConnectionSettings;
use panopticon_tui::model::SlickConfig;
use panopticon_tui::model::SlickMetrics;
use panopticon_tui::slick::SlickInitData;
use panopticon_tui::slick::SlickTab;
use panopticon_tui::tabs::TabKind;

fn jmx_settings() -> JMXConnectionSettings {
    JMXConnectionSettings {
        address: "localhost:9010".to_owned(),
        username: None,
        password: None,
        db_pool_name: "pool".to_owned(),
    }
}

fn sample(active_threads: u64, queue_size: u64) -> SlickMetrics {
    SlickMetrics { active_threads, queue_size }
}

fn hikari(active: u64) -> HikariMetrics {
    HikariMetrics { active, idle: 0, waiting: 0, total: active }
}

#[test]
fn degraded_worker_answers_every_request_with_the_construction_error() {
    let worker = FetchWorker::new(Some("pool endpoint unreachable".to_owned()));
    let requests = [
        FetchRequest::FiberDump,
        FetchRequest::RegularFiberDump,
        FetchRequest::SlickMetrics,
        FetchRequest::HikariMetrics,
    ];
    for req in requests {
        match worker.plan(req) {
            WorkerPlan::Reply(FetchResponse::FatalFailure(e)) => {
                assert_eq!(e, "pool endpoint unreachable");
            }
            _ => panic!("degraded worker must reply with the construction error"),
        }
    }
}

#[test]
fn operational_worker_performs_each_request() {
    let worker = FetchWorker::new(None);
    assert!(matches!(
        worker.plan(FetchRequest::SlickMetrics),
        WorkerPlan::Fetch(FetchRequest::SlickMetrics)
    ));
    assert!(matches!(
        worker.plan(FetchRequest::FiberDump),
        WorkerPlan::Fetch(FetchRequest::FiberDump)
    ));
}

#[test]
fn responses_carry_the_kind_of_their_request() {
    let resp = complete(FetchRequest::SlickMetrics, PortData::Slick(Ok(sample(1, 2))));
    assert!(matches!(resp, FetchResponse::SlickMetrics(Ok(m)) if m == sample(1, 2)));
    let resp = complete(FetchRequest::RegularFiberDump, PortData::Fibers(Ok(vec![])));
    assert!(matches!(resp, FetchResponse::RegularFiberDump(Ok(v)) if v.is_empty()));
    let resp = complete(
        FetchRequest::HikariMetrics,
        PortData::Hikari(Err("gone".to_owned())),
    );
    assert!(matches!(resp, FetchResponse::HikariMetrics(Err(e)) if e == "gone"));
}

#[test]
fn app_builds_one_tab_per_configured_source() {
    let app = App::new("dash", Some("localhost:6789".to_owned()), Some(jmx_settings()));
    assert_eq!(app.tabs.tabs.len(), 2);
    assert!(matches!(app.tabs.tabs[0].kind, TabKind::ZMX));
    assert!(matches!(app.tabs.tabs[1].kind, TabKind::Slick));
    assert!(app.zmx.is_some());
    assert!(app.slick.is_none());
    assert!(!app.should_quit);
    assert_eq!(app.jmx_connection_error, Some("Not connected yet".to_owned()));

    let fiber_only = App::new("dash", Some("localhost:6789".to_owned()), None);
    assert_eq!(fiber_only.tabs.tabs.len(), 1);
    assert!(matches!(fiber_only.tabs.tabs[0].kind, TabKind::ZMX));
}

#[test]
fn active_tab_wraps_around_both_ways() {
    let mut app = App::new("dash", Some("localhost:6789".to_owned()), Some(jmx_settings()));
    assert_eq!(app.tabs.index, 0);
    app.on_right();
    assert_eq!(app.tabs.index, 1);
    app.on_right();
    assert_eq!(app.tabs.index, 0);
    app.on_left();
    assert_eq!(app.tabs.index, 1);
    app.on_left();
    assert_eq!(app.tabs.index, 0);
}

#[test]
fn quit_key_raises_the_flag_and_other_keys_do_not() {
    let mut app = App::new("dash", Some("localhost:6789".to_owned()), None);
    app.on_key('x');
    assert!(!app.should_quit);
    app.on_key('q');
    assert!(app.should_quit);
}

#[test]
fn enter_asks_for_the_active_tab_action() {
    let mut app = App::new("dash", Some("localhost:6789".to_owned()), Some(jmx_settings()));
    assert!(matches!(app.on_enter(), EnterAction::DumpFibers));
    app.on_right();
    assert!(matches!(app.on_enter(), EnterAction::ConnectJmx));
}

#[test]
fn fatal_failure_quits_with_the_message() {
    let mut app = App::new("dash", Some("localhost:6789".to_owned()), None);
    app.on_fetch_response(FetchResponse::FatalFailure("source gone".to_owned()));
    assert!(app.should_quit);
    assert_eq!(app.exit_reason, Some("source gone".to_owned()));
}

#[test]
fn fiber_dump_error_quits_the_session() {
    let mut app = App::new("dash", Some("localhost:6789".to_owned()), None);
    app.on_fetch_response(FetchResponse::FiberDump(Err("connection refused".to_owned())));
    assert!(app.should_quit);
    assert_eq!(app.exit_reason, Some("connection refused".to_owned()));
}

#[test]
fn fiber_dump_response_replaces_the_tree_and_resets_selection() {
    let mut app = App::new("dash", Some("localhost:6789".to_owned()), None);
    let fibers = vec![
        Fiber { id: 1, parent_id: None, status: FiberStatus::Running, dump: "one".to_owned() },
        Fiber { id: 2, parent_id: Some(1), status: FiberStatus::Done, dump: "two".to_owned() },
    ];
    app.on_fetch_response(FetchResponse::FiberDump(Ok(fibers)));
    let tab = app.zmx.as_ref().unwrap();
    assert_eq!(tab.fibers.items, vec!["└─#1         Running", "  └─#2       Done"]);
    assert_eq!(tab.fibers.selected, 0);
    assert_eq!(tab.selected_fiber_dump.0, "one");
    assert!(!app.should_quit);
}

#[test]
fn routine_dump_response_appends_one_count_sample() {
    let mut app = App::new("dash", Some("localhost:6789".to_owned()), None);
    let fibers = vec![
        Fiber { id: 1, parent_id: None, status: FiberStatus::Running, dump: String::new() },
        Fiber { id: 2, parent_id: None, status: FiberStatus::Running, dump: String::new() },
    ];
    app.on_fetch_response(FetchResponse::RegularFiberDump(Ok(fibers)));
    let tab = app.zmx.as_ref().unwrap();
    assert_eq!(tab.fiber_counts.len(), 1);
    assert_eq!(tab.fiber_counts[0].running, 2);
    assert_eq!(tab.fiber_counts[0].done, 0);
}

#[test]
fn connect_failure_records_the_error() {
    let mut app = App::new("dash", None, Some(jmx_settings()));
    app.connect_to_jmx(Some(JmxConnectOutcome::ConnectFailed("no route".to_owned())));
    assert_eq!(app.jmx_connection_error, Some("no route".to_owned()));
    assert!(app.slick.is_none());
}

#[test]
fn successful_connect_seeds_the_metrics_window() {
    let mut app = App::new("dash", None, Some(jmx_settings()));
    app.connect_to_jmx(Some(JmxConnectOutcome::Connected(SlickInitData {
        config: Some(SlickConfig { max_threads: 8, max_queue_size: 100 }),
        first_metrics: Some(sample(3, 5)),
        hikari_available: true,
    })));
    assert!(app.jmx_connection_error.is_none());
    let tab = app.slick.as_ref().unwrap();
    assert!(tab.slick_error.is_none());
    assert_eq!(tab.slick_config, SlickConfig { max_threads: 8, max_queue_size: 100 });
    // a full chart width of zero samples, then the first real one
    assert_eq!(tab.slick_metrics.len(), SlickTab::MAX_SLICK_MEASURES + 1);
    assert!(tab.slick_metrics.iter().take(SlickTab::MAX_SLICK_MEASURES).all(
        |m| *m == sample(0, 0)
    ));
    assert_eq!(*tab.slick_metrics.back().unwrap(), sample(3, 5));
    assert!(tab.has_hikari);
}

#[test]
fn failed_config_read_records_the_fixed_diagnostic() {
    let mut app = App::new("dash", None, Some(jmx_settings()));
    app.connect_to_jmx(Some(JmxConnectOutcome::Connected(SlickInitData {
        config: None,
        first_metrics: None,
        hikari_available: false,
    })));
    let tab = app.slick.as_ref().unwrap();
    assert_eq!(
        tab.slick_error,
        Some(
            "No slick jmx metrics found. Are you sure you have registerMbeans=true in your slick config?"
                .to_owned()
        )
    );
    assert_eq!(tab.slick_metrics.len(), 0);
    assert!(!tab.has_hikari);
}

#[test]
fn secondary_family_error_flips_availability_off_without_quitting() {
    let mut app = App::new("dash", None, Some(jmx_settings()));
    app.connect_to_jmx(Some(JmxConnectOutcome::Connected(SlickInitData {
        config: Some(SlickConfig { max_threads: 1, max_queue_size: 1 }),
        first_metrics: Some(sample(0, 0)),
        hikari_available: true,
    })));
    app.on_fetch_response(FetchResponse::HikariMetrics(Err("bean gone".to_owned())));
    assert!(!app.should_quit);
    assert!(!app.slick.as_ref().unwrap().has_hikari);

    app.on_fetch_response(FetchResponse::HikariMetrics(Ok(hikari(4))));
    let tab = app.slick.as_ref().unwrap();
    assert!(tab.has_hikari);
    assert_eq!(tab.hikari_metrics.len(), 1);
    assert_eq!(tab.hikari_metrics[0], hikari(4));
}

#[test]
fn tick_requests_follow_the_configured_sources() {
    let mut app = App::new("dash", Some("localhost:6789".to_owned()), Some(jmx_settings()));
    assert_eq!(app.on_tick(), vec![FetchRequest::RegularFiberDump]);

    app.connect_to_jmx(Some(JmxConnectOutcome::Connected(SlickInitData {
        config: Some(SlickConfig { max_threads: 1, max_queue_size: 1 }),
        first_metrics: Some(sample(0, 0)),
        hikari_available: true,
    })));
    assert_eq!(
        app.on_tick(),
        vec![
            FetchRequest::RegularFiberDump,
            FetchRequest::SlickMetrics,
            FetchRequest::HikariMetrics
        ]
    );

    app.on_fetch_response(FetchResponse::HikariMetrics(Err("gone".to_owned())));
    assert_eq!(
        app.on_tick(),
        vec![FetchRequest::RegularFiberDump, FetchRequest::SlickMetrics]
    );
}

#[test]
fn slick_metrics_window_is_bounded() {
    let mut app = App::new("dash", None, Some(jmx_settings()));
    app.connect_to_jmx(Some(JmxConnectOutcome::Connected(SlickInitData {
        config: Some(SlickConfig { max_threads: 1, max_queue_size: 1 }),
        first_metrics: Some(sample(0, 0)),
        hikari_available: false,
    })));
    for k in 0..100 {
        app.on_fetch_response(FetchResponse::SlickMetrics(Ok(sample(k, k))));
    }
    let tab = app.slick.as_ref().unwrap();
    assert_eq!(tab.slick_metrics.len(), SlickTab::MAX_SLICK_MEASURES + 1);
    assert_eq!(*tab.slick_metrics.back().unwrap(), sample(99, 99));
}

#[test]
fn navigation_moves_and_clamps_the_fiber_selection() {
    let mut app = App::new("dash", Some("localhost:6789".to_owned()), None);
    let fibers = vec![
        Fiber { id: 1, parent_id: None, status: FiberStatus::Running, dump: "one".to_owned() },
        Fiber { id: 2, parent_id: None, status: FiberStatus::Done, dump: "two".to_owned() },
    ];
    app.on_fetch_response(FetchResponse::FiberDump(Ok(fibers)));
    app.on_down();
    assert_eq!(app.zmx.as_ref().unwrap().fibers.selected, 1);
    assert_eq!(app.zmx.as_ref().unwrap().selected_fiber_dump.0, "two");
    app.on_down();
    assert_eq!(app.zmx.as_ref().unwrap().fibers.selected, 1);
    app.on_up();
    assert_eq!(app.zmx.as_ref().unwrap().fibers.selected, 0);
    assert_eq!(app.zmx.as_ref().unwrap().selected_fiber_dump.0, "one");
    app.on_up();
    assert_eq!(app.zmx.as_ref().unwrap().fibers.selected, 0);
}

#[test]
fn page_keys_scroll_the_dump_pane() {
    let mut app = App::new("dash", Some("localhost:6789".to_owned()), None);
    let fibers = vec![Fiber {
        id: 1,
        parent_id: None,
        status: FiberStatus::Running,
        dump: "a\nb\nc".to_owned(),
    }];
    app.on_fetch_response(FetchResponse::FiberDump(Ok(fibers)));
    assert_eq!(app.zmx.as_ref().unwrap().selected_fiber_dump.1, 3);
    app.on_page_down();
    assert_eq!(app.zmx.as_ref().unwrap().scroll, 1);
    app.on_page_up();
    app.on_page_up();
    assert_eq!(app.zmx.as_ref().unwrap().scroll, 0);
}

#[test]
fn jmx_settings_need_an_address_and_a_pool_name() {
    let s = jmx_settings_from(
        Some("localhost:9010".to_owned()),
        Some("user".to_owned()),
        None,
        Some("pool".to_owned()),
    )
    .unwrap();
    assert_eq!(s.address, "localhost:9010");
    assert_eq!(s.username, Some("user".to_owned()));
    assert_eq!(s.password, None);
    assert_eq!(s.db_pool_name, "pool");

    assert!(jmx_settings_from(Some("localhost:9010".to_owned()), None, None, None).is_none());
    assert!(jmx_settings_from(None, None, None, Some("pool".to_owned())).is_none());
}

#[test]
fn connect_without_settings_records_the_diagnostic() {
    let mut app = App::new("dash", Some("localhost:6789".to_owned()), None);
    app.connect_to_jmx(None);
    assert_eq!(
        app.jmx_connection_error,
        Some("No jmx connection settings specified".to_owned())
    );
}
