use std::collections::VecDeque;

use panopticon_tui::list::ListState;
use panopticon_tui::model::Fiber;
use panopticon_tui::model::FiberStatus;
use panopticon_tui::tabs::Tab;
use panopticon_tui::tabs::TabKind;
use panopticon_tui::tabs::TabsState;
use panopticon_tui::tree::printable_tree;
use panopticon_tui::window::window_push;
use panopticon_tui::zmx::ZMXTab;
use panopticon_tui::zmx::count_fibers;

fn fiber(id: u64, parent_id: Option<u64>, status: FiberStatus, dump: &str) -> Fiber {
    Fiber { id, parent_id, status, dump: dump.to_owned() }
}

#[test]
fn zmx_tab_dumps_fibers() {
    let fiber1 = Fiber {
        id: 1,
        parent_id: None,
        status: FiberStatus::Running,
        dump: "1".to_owned(),
    };
    let fiber2 = Fiber {
        id: 2,
        parent_id: Some(1),
        status: FiberStatus::Suspended,
        dump: "2".to_owned(),
    };
    let fiber4 = Fiber {
        id: 4,
        parent_id: None,
        status: FiberStatus::Done,
        dump: "4".to_owned(),
    };

    let fibers = vec![fiber1, fiber2, fiber4];

    let mut tab = ZMXTab {
        zmx_addr: "localhost:6789".to_owned(),
        fibers: ListState::new(vec!["Fiber #1".to_owned()]),
        selected_fiber_dump: ("".to_string(), 0),
        fiber_dump_all: vec![],
        scroll: 0,
        fiber_counts: VecDeque::new(),
    };

    tab.dump_fibers(fibers);

    assert_eq!(tab.fiber_dump_all, vec!["1", "2", "4"]);
    assert_eq!(tab.fibers.items, vec![
        "├─#1         Running",
        "│ └─#2       Suspended",
        "└─#4         Done"
    ]);
    assert_eq!(tab.fibers.selected, 0);
}

#[test]
fn orphan_record_is_rendered_as_root() {
    // parent id 99 is not present in the input, so the record is a root
    let fibers = vec![fiber(7, Some(99), FiberStatus::Done, "seven")];
    let lines = printable_tree(&fibers);
    assert_eq!(lines.len(), 1);
    assert_eq!(lines[0].label, "└─#7         Done");
    assert_eq!(lines[0].dump, "seven");
}

#[test]
fn rendering_pads_wider_ids_to_the_same_column() {
    let fibers = vec![
        fiber(1, None, FiberStatus::Running, "a"),
        fiber(42, Some(1), FiberStatus::Finishing, "b"),
        fiber(12345, Some(1), FiberStatus::Suspended, "c"),
    ];
    let lines = printable_tree(&fibers);
    assert_eq!(lines[0].label, "└─#1         Running");
    assert_eq!(lines[1].label, "  ├─#42      Finishing");
    assert_eq!(lines[2].label, "  └─#12345   Suspended");
}

#[test]
fn rendering_is_deterministic() {
    let make = || {
        vec![
            fiber(3, None, FiberStatus::Running, "x"),
            fiber(1, Some(3), FiberStatus::Suspended, "y"),
            fiber(2, None, FiberStatus::Done, "z"),
        ]
    };
    let a = make();
    let b = make();
    let la = printable_tree(&a);
    let lb = printable_tree(&b);
    assert_eq!(la.len(), lb.len());
    for k in 0..la.len() {
        assert_eq!(la[k].label, lb[k].label);
        assert_eq!(la[k].dump, lb[k].dump);
    }
}

#[test]
fn children_keep_first_seen_order_not_id_order() {
    let fibers = vec![
        fiber(1, None, FiberStatus::Running, "r"),
        fiber(9, Some(1), FiberStatus::Running, "first child"),
        fiber(2, Some(1), FiberStatus::Running, "second child"),
    ];
    let lines = printable_tree(&fibers);
    assert_eq!(lines[1].dump, "first child");
    assert_eq!(lines[2].dump, "second child");
    assert_eq!(lines[1].label, "  ├─#9       Running");
    assert_eq!(lines[2].label, "  └─#2       Running");
}

#[test]
fn window_keeps_most_recent_samples_oldest_first() {
    let max_size: usize = 3;
    let mut buf: VecDeque<u64> = VecDeque::new();
    // max_size + 2 pushes leave exactly max_size + 1 samples behind
    for x in 0..(max_size as u64 + 2) {
        window_push(&mut buf, max_size, x);
    }
    assert_eq!(buf.len(), max_size + 1);
    assert_eq!(buf, VecDeque::from(vec![1, 2, 3, 4]));
}

#[test]
fn window_below_bound_evicts_nothing() {
    let mut buf: VecDeque<u64> = VecDeque::new();
    window_push(&mut buf, 5, 10);
    window_push(&mut buf, 5, 20);
    assert_eq!(buf, VecDeque::from(vec![10, 20]));
}

#[test]
fn selection_clamps_at_both_ends() {
    let mut list = ListState::new(vec!["a", "b"]);
    list.select_previous();
    assert_eq!(list.selected, 0);
    list.select_next();
    assert_eq!(list.selected, 1);
    list.select_next();
    assert_eq!(list.selected, 1);
    list.select_previous();
    assert_eq!(list.selected, 0);
}

#[test]
fn selection_on_empty_list_stays_parked() {
    let mut list: ListState<&str> = ListState::new(vec![]);
    list.select_next();
    assert_eq!(list.selected, 0);
    list.select_previous();
    assert_eq!(list.selected, 0);
}

#[test]
fn tabs_wrap_around_both_ways() {
    let tabs = vec![
        Tab { kind: TabKind::ZMX, title: "ZMX" },
        Tab { kind: TabKind::Slick, title: "Slick" },
    ];
    let mut state = TabsState::new(tabs);
    assert_eq!(state.index, 0);
    state.next();
    assert_eq!(state.index, 1);
    state.next();
    assert_eq!(state.index, 0);
    state.previous();
    assert_eq!(state.index, 1);
    state.previous();
    assert_eq!(state.index, 0);
    assert!(matches!(state.current().kind, TabKind::ZMX));
    assert_eq!(state.titles(), vec!["ZMX", "Slick"]);
}

#[test]
fn prepare_dump_counts_terminal_lines() {
    assert_eq!(ZMXTab::prepare_dump("".to_owned()).1, 0);
    assert_eq!(ZMXTab::prepare_dump("one line".to_owned()).1, 1);
    assert_eq!(ZMXTab::prepare_dump("a\nb".to_owned()).1, 2);
    assert_eq!(ZMXTab::prepare_dump("a\nb\n".to_owned()).1, 2);
    let (body, height) = ZMXTab::prepare_dump("x\ny\nz".to_owned());
    assert_eq!(body, "x\ny\nz");
    assert_eq!(height, 3);
}

#[test]
fn full_dump_resets_selection_and_scroll() {
    let mut tab = ZMXTab::new("localhost:1".to_owned());
    tab.dump_fibers(vec![
        fiber(1, None, FiberStatus::Running, "a\nb\nc\nd\ne\nf\ng\nh"),
        fiber(2, None, FiberStatus::Done, "x"),
    ]);
    tab.select_next_fiber();
    tab.scroll_down();
    assert_eq!(tab.fibers.selected, 1);
    assert_eq!(tab.scroll, 1);

    tab.dump_fibers(vec![fiber(3, None, FiberStatus::Suspended, "y")]);
    assert_eq!(tab.fibers.selected, 0);
    assert_eq!(tab.scroll, 0);
    assert_eq!(tab.selected_fiber_dump.0, "y");
}

#[test]
fn count_fibers_tallies_each_status() {
    let fibers = vec![
        fiber(1, None, FiberStatus::Running, ""),
        fiber(2, None, FiberStatus::Done, ""),
        fiber(3, None, FiberStatus::Done, ""),
        fiber(4, None, FiberStatus::Suspended, ""),
        fiber(5, None, FiberStatus::Finishing, ""),
        fiber(6, None, FiberStatus::Running, ""),
    ];
    let c = count_fibers(&fibers);
    assert_eq!(c.running, 2);
    assert_eq!(c.done, 2);
    assert_eq!(c.suspended, 1);
    assert_eq!(c.finishing, 1);
}

#[test]
fn scrolling_clamps_to_dump_height() {
    let mut tab = ZMXTab::new("localhost:1".to_owned());
    tab.selected_fiber_dump = ("a\nb".to_owned(), 2);
    tab.scroll_up();
    assert_eq!(tab.scroll, 0);
    tab.scroll_down();
    tab.scroll_down();
    assert_eq!(tab.scroll, 2);
    tab.scroll_down();
    assert_eq!(tab.scroll, 2);
    tab.scroll_up();
    assert_eq!(tab.scroll, 1);
}
