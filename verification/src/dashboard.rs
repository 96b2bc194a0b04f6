//! The dashboard controller: the top-level state machine that owns the
//! tab list, one monitor state per configured source, the quit flag and
//! the recorded exit message.  It alone mutates monitor state, driven by
//! navigation input, timer ticks and fetch responses; the concurrency
//! around it only produces immutable values onto queues.

use vstd::prelude::*;
use vstd::string::StringExecFns;
use crate::fetch::FetchRequest;
use crate::fetch::FetchResponse;
use crate::model::JMXConnectionSettings;
use crate::model::SlickConfig;
use crate::model::settings_like;
use crate::slick::SlickInitData;
use crate::slick::SlickTab;
use crate::slick::hikari_appended;
use crate::slick::slick_appended;
use crate::tabs::Tab;
use crate::tabs::TabKind;
use crate::tabs::TabsState;
use crate::zmx::ZMXTab;
use crate::zmx::dumped;
use crate::zmx::selection_moved;
use crate::zmx::ticked;

verus! {

/// What the operator's activation key asks for on the active tab.
///
/// On the pool tab the key (re)attempts the connection and
/// initialization on demand; the metric refreshes themselves remain
/// timer-driven.  A dashboard whose pool source connects at startup
/// instead would make that arm a no-op and call `connect_to_jmx` once
/// from its setup.
#[derive(Clone, Copy, PartialEq, Eq, Structural, Debug)]
pub enum EnterAction {
    /// Fiber tab: demand a full fiber dump.
    DumpFibers,
    /// Pool tab: attempt the connection and initialization.
    ConnectJmx,
}

/// What attempting the pool connection came to: the connect itself
/// failed, or it succeeded and initialization data was gathered.
pub enum JmxConnectOutcome {
    ConnectFailed(String),
    Connected(SlickInitData),
}

/// The whole dashboard.
pub struct App<'a> {
    pub title: &'a str,
    pub should_quit: bool,
    pub exit_reason: Option<String>,
    pub tabs: TabsState<'a>,
    pub zmx: Option<ZMXTab>,
    pub jmx_settings: Option<JMXConnectionSettings>,
    pub jmx_connection_error: Option<String>,
    pub slick: Option<SlickTab>,
}

/// Everything but the fiber tab reads unchanged.
pub open spec fn same_but_zmx<'a>(a0: App<'a>, a1: App<'a>) -> bool {
    &&& a1.title == a0.title
    &&& a1.should_quit == a0.should_quit
    &&& a1.exit_reason == a0.exit_reason
    &&& a1.tabs.tabs@ == a0.tabs.tabs@
    &&& a1.tabs.index == a0.tabs.index
    &&& a1.jmx_settings == a0.jmx_settings
    &&& a1.jmx_connection_error == a0.jmx_connection_error
    &&& a1.slick == a0.slick
}

/// Everything but the quit flag and exit message reads unchanged.
pub open spec fn same_but_quit<'a>(a0: App<'a>, a1: App<'a>) -> bool {
    &&& a1.title == a0.title
    &&& a1.tabs.tabs@ == a0.tabs.tabs@
    &&& a1.tabs.index == a0.tabs.index
    &&& a1.jmx_settings == a0.jmx_settings
    &&& a1.jmx_connection_error == a0.jmx_connection_error
    &&& a1.zmx == a0.zmx
    &&& a1.slick == a0.slick
}

impl<'a> App<'a> {
    /// The monitors back the tabs: the tab bar is consistent, every
    /// fiber tab has its monitor behind it, and each monitor is itself
    /// well formed.
    pub open spec fn wf(self) -> bool {
        &&& self.tabs.wf()
        &&& (self.zmx matches Some(t) ==> t.wf())
        &&& (forall|k: int|
            0 <= k < self.tabs.tabs@.len() && self.tabs.tabs@[k].kind == TabKind::ZMX
                ==> self.zmx is Some)
    }

    /// The kind of the active tab.
    pub open spec fn active_kind(self) -> TabKind {
        self.tabs.tabs@[self.tabs.index as int].kind
    }

    /// A fresh dashboard: one tab per configured source, fiber tab
    /// first, nothing connected yet, not quitting.
    pub fn new(title: &'a str, zio_zmx_addr: Option<String>, jmx: Option<JMXConnectionSettings>)
        -> (r: App<'a>)
        ensures
            r.title == title,
            !r.should_quit,
            r.exit_reason is None,
            r.slick is None,
            r.jmx_connection_error matches Some(m) && m@ == "Not connected yet"@,
            r.jmx_settings == jmx,
            r.tabs.index == 0,
            r.tabs.tabs@.len() == (if zio_zmx_addr is Some {
                1int
            } else {
                0int
            }) + (if jmx is Some {
                1int
            } else {
                0int
            }),
            zio_zmx_addr is Some ==> r.tabs.tabs@[0].kind == TabKind::ZMX
                && r.tabs.tabs@[0].title@ == "ZMX"@,
            jmx is Some ==> r.tabs.tabs@[r.tabs.tabs@.len() - 1].kind == TabKind::Slick
                && r.tabs.tabs@[r.tabs.tabs@.len() - 1].title@ == "Slick"@,
            zio_zmx_addr matches Some(a) ==> (r.zmx matches Some(t) && t.zmx_addr@ == a@
                && t.fibers.items@.len() == 0 && t.fibers.selected == 0
                && t.fiber_dump_all@.len() == 0 && t.scroll == 0 && t.fiber_counts@.len() == 0
                && t.selected_fiber_dump.0@ == Seq::<char>::empty()
                && t.selected_fiber_dump.1 == 1),
            zio_zmx_addr is None ==> r.zmx is None,
            r.wf(),
    {
        let mut tabs: Vec<Tab<'a>> = Vec::new();
        if zio_zmx_addr.is_some() {
            tabs.push(Tab { kind: TabKind::ZMX, title: "ZMX" });
        }
        if jmx.is_some() {
            tabs.push(Tab { kind: TabKind::Slick, title: "Slick" });
        }
        let zmx = match zio_zmx_addr {
            Some(a) => Some(ZMXTab::new(a)),
            None => None,
        };
        App {
            title,
            should_quit: false,
            exit_reason: None,
            tabs: TabsState::new(tabs),
            zmx,
            jmx_settings: jmx,
            jmx_connection_error: Some(String::from_str("Not connected yet")),
            slick: None,
        }
    }

    /// Raises the quit flag and records the exit message, if any; the
    /// session ends once the current cycle completes.
    pub fn quit(&mut self, reason: Option<String>)
        ensures
            final(self).should_quit,
            final(self).exit_reason == reason,
            same_but_quit(*old(self), *final(self)),
            old(self).wf() ==> final(self).wf(),
    {
        self.should_quit = true;
        self.exit_reason = reason;
    }

    /// Folds the outcome of the pool connection attempt in.  With no
    /// settings configured nothing was attempted and a fixed diagnostic
    /// is recorded; a failed connect records its error; a successful one
    /// clears the error and installs a freshly initialized pool tab.
    pub fn connect_to_jmx(&mut self, outcome: Option<JmxConnectOutcome>)
        requires
            old(self).jmx_settings is Some <==> outcome is Some,
            outcome matches Some(JmxConnectOutcome::Connected(d)) ==> (d.config is Some
                ==> d.first_metrics is Some),
        ensures
            final(self).title == old(self).title,
            final(self).should_quit == old(self).should_quit,
            final(self).exit_reason == old(self).exit_reason,
            final(self).tabs.tabs@ == old(self).tabs.tabs@,
            final(self).tabs.index == old(self).tabs.index,
            final(self).jmx_settings == old(self).jmx_settings,
            final(self).zmx == old(self).zmx,
            old(self).wf() ==> final(self).wf(),
            outcome is None ==> (final(self).jmx_connection_error matches Some(m) && m@
                == "No jmx connection settings specified"@) && final(self).slick == old(self).slick,
            outcome matches Some(JmxConnectOutcome::ConnectFailed(e)) ==> final(self).jmx_connection_error == Some(e) && final(self).slick == old(self).slick,
            outcome matches Some(JmxConnectOutcome::Connected(d)) ==> final(self).jmx_connection_error is None && (final(self).slick matches Some(st) && {
                &&& settings_like(st.jmx_connection_settings, old(self).jmx_settings.unwrap())
                &&& st.hikari_metrics@.len() == 0
                &&& st.has_hikari == d.hikari_available
                &&& (d.config matches Some(c) ==> st.slick_error is None && st.slick_config == c
                    && st.slick_metrics@ == Seq::new(
                    SlickTab::MAX_SLICK_MEASURES as nat,
                    |i: int| crate::slick::zero_metrics(),
                ).push(d.first_metrics.unwrap()))
                &&& (d.config is None ==> (st.slick_error matches Some(m) && m@
                    == "No slick jmx metrics found. Are you sure you have registerMbeans=true in your slick config?"@)
                    && st.slick_config == (SlickConfig { max_queue_size: 0, max_threads: 0 })
                    && st.slick_metrics@.len() == 0)
            }),
    {
        match outcome {
            None => {
                self.jmx_connection_error = Some(
                    String::from_str("No jmx connection settings specified"),
                );
            },
            Some(JmxConnectOutcome::ConnectFailed(e)) => {
                self.jmx_connection_error = Some(e);
            },
            Some(JmxConnectOutcome::Connected(d)) => {
                self.jmx_connection_error = None;
                let settings = match &self.jmx_settings {
                    Some(s) => s.duplicate(),
                    None => vstd::pervasive::unreached(),
                };
                let mut st = SlickTab {
                    jmx_connection_settings: settings,
                    has_hikari: false,
                    slick_error: None,
                    slick_metrics: std::collections::VecDeque::new(),
                    slick_config: SlickConfig { max_queue_size: 0, max_threads: 0 },
                    hikari_metrics: std::collections::VecDeque::new(),
                };
                st.initialize(d);
                self.slick = Some(st);
            },
        }
    }

    /// Selection up within the active tab's list; only the fiber tab
    /// has one.
    pub fn on_up(&mut self)
        requires
            old(self).wf(),
            old(self).tabs.tabs@.len() > 0,
        ensures
            final(self).wf(),
            same_but_zmx(*old(self), *final(self)),
            old(self).active_kind() == TabKind::ZMX ==> (old(self).zmx matches Some(t0) && final(self).zmx matches Some(t1) && selection_moved(
                t0,
                t1,
                if t0.fibers.selected > 0 {
                    (t0.fibers.selected - 1) as int
                } else {
                    0int
                },
            )),
            old(self).active_kind() != TabKind::ZMX ==> final(self).zmx == old(self).zmx,
    {
        match self.tabs.current().kind {
            TabKind::ZMX => {
                let mut t = self.zmx.take().unwrap();
                t.select_prev_fiber();
                self.zmx = Some(t);
            },
            TabKind::Slick => {},
        }
    }

    /// Selection down within the active tab's list; only the fiber tab
    /// has one.
    pub fn on_down(&mut self)
        requires
            old(self).wf(),
            old(self).tabs.tabs@.len() > 0,
        ensures
            final(self).wf(),
            same_but_zmx(*old(self), *final(self)),
            old(self).active_kind() == TabKind::ZMX ==> (old(self).zmx matches Some(t0) && final(self).zmx matches Some(t1) && selection_moved(
                t0,
                t1,
                if t0.fibers.selected + 1 < t0.fibers.items@.len() {
                    t0.fibers.selected + 1
                } else {
                    t0.fibers.selected as int
                },
            )),
            old(self).active_kind() != TabKind::ZMX ==> final(self).zmx == old(self).zmx,
    {
        match self.tabs.current().kind {
            TabKind::ZMX => {
                let mut t = self.zmx.take().unwrap();
                t.select_next_fiber();
                self.zmx = Some(t);
            },
            TabKind::Slick => {},
        }
    }

    /// Activates the tab to the right, wrapping around past the last.
    pub fn on_right(&mut self)
        requires
            old(self).wf(),
            old(self).tabs.tabs@.len() > 0,
        ensures
            final(self).wf(),
            final(self).tabs.tabs@ == old(self).tabs.tabs@,
            final(self).tabs.index == (old(self).tabs.index + 1) % (old(self).tabs.tabs@.len() as int),
            final(self).title == old(self).title,
            final(self).should_quit == old(self).should_quit,
            final(self).exit_reason == old(self).exit_reason,
            final(self).zmx == old(self).zmx,
            final(self).jmx_settings == old(self).jmx_settings,
            final(self).jmx_connection_error == old(self).jmx_connection_error,
            final(self).slick == old(self).slick,
    {
        self.tabs.next();
    }

    /// Activates the tab to the left, wrapping around past the first.
    pub fn on_left(&mut self)
        requires
            old(self).wf(),
            old(self).tabs.tabs@.len() > 0,
        ensures
            final(self).wf(),
            final(self).tabs.tabs@ == old(self).tabs.tabs@,
            final(self).tabs.index == if old(self).tabs.index > 0 {
                old(self).tabs.index - 1
            } else {
                old(self).tabs.tabs@.len() - 1
            },
            final(self).title == old(self).title,
            final(self).should_quit == old(self).should_quit,
            final(self).exit_reason == old(self).exit_reason,
            final(self).zmx == old(self).zmx,
            final(self).jmx_settings == old(self).jmx_settings,
            final(self).jmx_connection_error == old(self).jmx_connection_error,
            final(self).slick == old(self).slick,
    {
        self.tabs.previous();
    }

    /// The on-demand action the activation key triggers on the active
    /// tab: a full fiber dump on the fiber tab, the connection attempt
    /// on the pool tab.
    pub fn on_enter(&self) -> (a: EnterAction)
        requires
            self.wf(),
            self.tabs.tabs@.len() > 0,
        ensures
            self.active_kind() == TabKind::ZMX ==> a == EnterAction::DumpFibers,
            self.active_kind() == TabKind::Slick ==> a == EnterAction::ConnectJmx,
    {
        match self.tabs.current().kind {
            TabKind::ZMX => EnterAction::DumpFibers,
            TabKind::Slick => EnterAction::ConnectJmx,
        }
    }

    /// The designated quit key raises the quit flag; every other key is
    /// ignored.
    pub fn on_key(&mut self, c: char)
        ensures
            c == 'q' ==> final(self).should_quit && final(self).exit_reason == old(self).exit_reason,
            c != 'q' ==> final(self).should_quit == old(self).should_quit && final(self).exit_reason == old(self).exit_reason,
            same_but_quit(*old(self), *final(self)),
            old(self).wf() ==> final(self).wf(),
    {
        if c == 'q' {
            self.should_quit = true;
        }
    }

    /// Scrolls the active tab's detail pane one line up, stopping at the
    /// top; only the fiber tab has one.
    pub fn on_page_up(&mut self)
        requires
            old(self).wf(),
            old(self).tabs.tabs@.len() > 0,
        ensures
            final(self).wf(),
            same_but_zmx(*old(self), *final(self)),
            old(self).active_kind() == TabKind::ZMX ==> (old(self).zmx matches Some(t0) && final(self).zmx matches Some(t1) && t1.scroll == (if t0.scroll > 0 {
                t0.scroll - 1
            } else {
                0int
            }) && t1.fibers == t0.fibers && t1.fiber_dump_all == t0.fiber_dump_all
                && t1.fiber_counts == t0.fiber_counts && t1.selected_fiber_dump
                == t0.selected_fiber_dump && t1.zmx_addr == t0.zmx_addr),
            old(self).active_kind() != TabKind::ZMX ==> final(self).zmx == old(self).zmx,
    {
        match self.tabs.current().kind {
            TabKind::ZMX => {
                let mut t = self.zmx.take().unwrap();
                t.scroll_up();
                self.zmx = Some(t);
            },
            TabKind::Slick => {},
        }
    }

    /// Scrolls the active tab's detail pane one line down, stopping at
    /// the dump's height; only the fiber tab has one.
    pub fn on_page_down(&mut self)
        requires
            old(self).wf(),
            old(self).tabs.tabs@.len() > 0,
        ensures
            final(self).wf(),
            same_but_zmx(*old(self), *final(self)),
            old(self).active_kind() == TabKind::ZMX ==> (old(self).zmx matches Some(t0) && final(self).zmx matches Some(t1) && t1.scroll == (if t0.scroll < t0.selected_fiber_dump.1 {
                t0.scroll + 1
            } else {
                t0.scroll as int
            }) && t1.fibers == t0.fibers && t1.fiber_dump_all == t0.fiber_dump_all
                && t1.fiber_counts == t0.fiber_counts && t1.selected_fiber_dump
                == t0.selected_fiber_dump && t1.zmx_addr == t0.zmx_addr),
            old(self).active_kind() != TabKind::ZMX ==> final(self).zmx == old(self).zmx,
    {
        match self.tabs.current().kind {
            TabKind::ZMX => {
                let mut t = self.zmx.take().unwrap();
                t.scroll_down();
                self.zmx = Some(t);
            },
            TabKind::Slick => {},
        }
    }

    /// The routine refresh requests of one timer tick: a fiber dump for
    /// the counts while the fiber source is configured, then whatever
    /// the pool tab currently wants.
    pub fn on_tick(&self) -> (r: Vec<FetchRequest>)
        ensures
            r@ == (if self.zmx is Some {
                seq![FetchRequest::RegularFiberDump]
            } else {
                Seq::<FetchRequest>::empty()
            }) + (match self.slick {
                Some(st) => (if st.slick_error is None {
                    seq![FetchRequest::SlickMetrics]
                } else {
                    Seq::<FetchRequest>::empty()
                }) + (if st.has_hikari {
                    seq![FetchRequest::HikariMetrics]
                } else {
                    Seq::<FetchRequest>::empty()
                }),
                None => Seq::<FetchRequest>::empty(),
            }),
    {
        let mut r: Vec<FetchRequest> = Vec::new();
        if self.zmx.is_some() {
            r.push(FetchRequest::RegularFiberDump);
        }
        match &self.slick {
            Some(st) => {
                let mut more = st.tick();
                r.append(&mut more);
            },
            None => {},
        }
        proof {
            assert(r@ =~= (if self.zmx is Some {
                seq![FetchRequest::RegularFiberDump]
            } else {
                Seq::<FetchRequest>::empty()
            }) + (match self.slick {
                Some(st) => (if st.slick_error is None {
                    seq![FetchRequest::SlickMetrics]
                } else {
                    Seq::<FetchRequest>::empty()
                }) + (if st.has_hikari {
                    seq![FetchRequest::HikariMetrics]
                } else {
                    Seq::<FetchRequest>::empty()
                }),
                None => Seq::<FetchRequest>::empty(),
            }));
        }
        r
    }

    /// Routes one fetch response to the monitor that owns it.  A fatal
    /// failure, or any error of a required source, ends the session with
    /// the error recorded; a full dump replaces the fiber forest and
    /// resets selection and scroll; count and metric responses append to their
    /// rolling windows; an error of the optional secondary family merely
    /// flips its availability off.
    pub fn on_fetch_response(&mut self, r: FetchResponse)
        requires
            old(self).wf(),
            (r matches FetchResponse::FiberDump(_) || r matches FetchResponse::RegularFiberDump(
                _,
            )) ==> old(self).zmx is Some,
            (r matches FetchResponse::SlickMetrics(_) || r matches FetchResponse::HikariMetrics(
                _,
            )) ==> old(self).slick is Some,
        ensures
            final(self).wf(),
            final(self).title == old(self).title,
            final(self).tabs.tabs@ == old(self).tabs.tabs@,
            final(self).tabs.index == old(self).tabs.index,
            final(self).jmx_settings == old(self).jmx_settings,
            final(self).jmx_connection_error == old(self).jmx_connection_error,
            r matches FetchResponse::FatalFailure(e) ==> final(self).should_quit && final(self).exit_reason == Some(e) && final(self).zmx == old(self).zmx && final(self).slick
                == old(self).slick,
            r matches FetchResponse::FiberDump(d) ==> match d {
                Ok(fd) => (old(self).zmx matches Some(t0) && final(self).zmx matches Some(t1)
                    && dumped(t0, t1, fd@)) && final(self).slick == old(self).slick && final(self).should_quit == old(self).should_quit && final(self).exit_reason == old(self).exit_reason,
                Err(e) => final(self).should_quit && final(self).exit_reason == Some(e) && final(self).zmx == old(self).zmx && final(self).slick == old(self).slick,
            },
            r matches FetchResponse::RegularFiberDump(d) ==> match d {
                Ok(fd) => (old(self).zmx matches Some(t0) && final(self).zmx matches Some(t1)
                    && ticked(t0, t1, fd@)) && final(self).slick == old(self).slick && final(self).should_quit == old(self).should_quit && final(self).exit_reason == old(self).exit_reason,
                Err(e) => final(self).should_quit && final(self).exit_reason == Some(e) && final(self).zmx == old(self).zmx && final(self).slick == old(self).slick,
            },
            r matches FetchResponse::SlickMetrics(d) ==> match d {
                Ok(m) => (old(self).slick matches Some(s0) && final(self).slick matches Some(s1)
                    && slick_appended(s0, s1, m)) && final(self).zmx == old(self).zmx && final(self).should_quit == old(self).should_quit && final(self).exit_reason == old(self).exit_reason,
                Err(e) => final(self).should_quit && final(self).exit_reason == Some(e) && final(self).zmx == old(self).zmx && final(self).slick == old(self).slick,
            },
            r matches FetchResponse::HikariMetrics(d) ==> final(self).zmx == old(self).zmx
                && final(self).should_quit == old(self).should_quit && final(self).exit_reason
                == old(self).exit_reason && match d {
                Ok(m) => old(self).slick matches Some(s0) && final(self).slick matches Some(s1)
                    && s1.has_hikari && hikari_appended(
                    SlickTab { has_hikari: true, ..s0 },
                    s1,
                    m,
                ),
                Err(_) => old(self).slick matches Some(s0) && final(self).slick matches Some(s1)
                    && s1 == SlickTab { has_hikari: false, ..s0 },
            },
    {
        match r {
            FetchResponse::FatalFailure(e) => {
                self.quit(Some(e));
            },
            FetchResponse::FiberDump(d) => match d {
                Ok(fd) => {
                    let mut t = self.zmx.take().unwrap();
                    t.dump_fibers(fd);
                    self.zmx = Some(t);
                },
                Err(e) => {
                    self.quit(Some(e));
                },
            },
            FetchResponse::RegularFiberDump(d) => match d {
                Ok(fd) => {
                    let mut t = self.zmx.take().unwrap();
                    t.tick(&fd);
                    self.zmx = Some(t);
                },
                Err(e) => {
                    self.quit(Some(e));
                },
            },
            FetchResponse::SlickMetrics(d) => match d {
                Ok(m) => {
                    let mut s = self.slick.take().unwrap();
                    s.append_slick_metrics(m);
                    self.slick = Some(s);
                },
                Err(e) => {
                    self.quit(Some(e));
                },
            },
            FetchResponse::HikariMetrics(d) => match d {
                Ok(m) => {
                    let mut s = self.slick.take().unwrap();
                    s.has_hikari = true;
                    s.append_hikari_metrics(m);
                    self.slick = Some(s);
                },
                Err(_) => {
                    let mut s = self.slick.take().unwrap();
                    s.has_hikari = false;
                    self.slick = Some(s);
                },
            },
        }
    }
}

} // verus!
