//! The pool monitor: the tab that owns the rolling windows of primary
//! pool metrics and of the optional secondary metric family, the static
//! pool configuration, and the initialization outcome.

use vstd::prelude::*;
use std::collections::VecDeque;
use crate::fetch::FetchRequest;
use crate::model::HikariMetrics;
use crate::model::JMXConnectionSettings;
use crate::model::SlickMetrics;
use crate::model::SlickConfig;
use crate::window::window_push;
use crate::window::window_pushed;

verus! {

/// The zero-valued sample the metrics window is seeded with.
pub open spec fn zero_metrics() -> SlickMetrics {
    SlickMetrics { active_threads: 0, queue_size: 0 }
}

/// What initializing the pool monitor found: the configuration if it
/// could be read, the first metrics sample that followed, and whether
/// the secondary metric family answered its one-time probe.
pub struct SlickInitData {
    pub config: Option<SlickConfig>,
    pub first_metrics: Option<SlickMetrics>,
    pub hikari_available: bool,
}

/// How appending one primary metrics sample relates the tab after to
/// the tab before: one evict-before-insert push, everything else
/// untouched.
pub open spec fn slick_appended(s0: SlickTab, s1: SlickTab, m: SlickMetrics) -> bool {
    &&& s1.slick_metrics@ == window_pushed(
        s0.slick_metrics@,
        SlickTab::MAX_SLICK_MEASURES as nat,
        m,
    )
    &&& s1.jmx_connection_settings == s0.jmx_connection_settings
    &&& s1.has_hikari == s0.has_hikari
    &&& s1.slick_error == s0.slick_error
    &&& s1.slick_config == s0.slick_config
    &&& s1.hikari_metrics == s0.hikari_metrics
}

/// How appending one secondary metrics sample relates the tab after to
/// the tab before.
pub open spec fn hikari_appended(s0: SlickTab, s1: SlickTab, m: HikariMetrics) -> bool {
    &&& s1.hikari_metrics@ == window_pushed(
        s0.hikari_metrics@,
        SlickTab::MAX_HIKARI_MEASURES as nat,
        m,
    )
    &&& s1.jmx_connection_settings == s0.jmx_connection_settings
    &&& s1.has_hikari == s0.has_hikari
    &&& s1.slick_error == s0.slick_error
    &&& s1.slick_config == s0.slick_config
    &&& s1.slick_metrics == s0.slick_metrics
}

/// How `initialize` relates the tab after folding the initialization
/// outcome in to the tab before it.
pub open spec fn initialized(s0: SlickTab, s1: SlickTab, init: SlickInitData) -> bool {
    &&& s1.jmx_connection_settings == s0.jmx_connection_settings
    &&& s1.hikari_metrics == s0.hikari_metrics
    &&& s1.has_hikari == init.hikari_available
    &&& (init.config matches Some(c) ==> {
        &&& s1.slick_error is None
        &&& s1.slick_config == c
        &&& s1.slick_metrics@ == Seq::new(
            SlickTab::MAX_SLICK_MEASURES as nat,
            |i: int| zero_metrics(),
        ).push(init.first_metrics.unwrap())
    })
    &&& (init.config is None ==> {
        &&& (s1.slick_error matches Some(m) && m@
            == "No slick jmx metrics found. Are you sure you have registerMbeans=true in your slick config?"@)
        &&& s1.slick_config == s0.slick_config
        &&& s1.slick_metrics == s0.slick_metrics
    })
}

/// State of the pool tab.
pub struct SlickTab {
    pub jmx_connection_settings: JMXConnectionSettings,
    pub has_hikari: bool,
    pub slick_error: Option<String>,
    pub slick_metrics: VecDeque<SlickMetrics>,
    pub slick_config: SlickConfig,
    pub hikari_metrics: VecDeque<HikariMetrics>,
}

impl SlickTab {
    /// How many primary metric samples the rolling window is bounded by.
    pub const MAX_SLICK_MEASURES: usize = 25;

    /// How many secondary metric samples the rolling window is bounded by.
    pub const MAX_HIKARI_MEASURES: usize = 100;

    /// Appends one primary metrics sample, evicting the oldest first
    /// once the window already holds more than the bound.
    pub fn append_slick_metrics(&mut self, m: SlickMetrics)
        ensures
            slick_appended(*old(self), *final(self), m),
    {
        window_push(&mut self.slick_metrics, SlickTab::MAX_SLICK_MEASURES, m);
    }

    /// Appends one secondary metrics sample, evicting the oldest first
    /// once the window already holds more than the bound.
    pub fn append_hikari_metrics(&mut self, m: HikariMetrics)
        ensures
            hikari_appended(*old(self), *final(self), m),
    {
        window_push(&mut self.hikari_metrics, SlickTab::MAX_HIKARI_MEASURES, m);
    }

    /// Folds the initialization outcome in.  A read configuration clears
    /// the error, is stored, and seeds the metrics window with a full
    /// width of zero samples before the first real one, so charts render
    /// a baseline immediately; a failed read records the fixed diagnostic
    /// and leaves the window empty.  The secondary family's availability
    /// is whatever its one-time probe said.
    pub fn initialize(&mut self, init: SlickInitData)
        requires
            init.config is Some ==> init.first_metrics is Some,
        ensures
            initialized(*old(self), *final(self), init),
    {
        match init.config {
            Some(config) => {
                self.slick_error = None;
                self.slick_config = config;
                let first = init.first_metrics.unwrap();
                let mut seeded: VecDeque<SlickMetrics> = VecDeque::new();
                let mut k: usize = 0;
                while k < SlickTab::MAX_SLICK_MEASURES
                    invariant
                        k <= SlickTab::MAX_SLICK_MEASURES,
                        seeded@ =~= Seq::new(k as nat, |i: int| zero_metrics()),
                    decreases SlickTab::MAX_SLICK_MEASURES - k,
                {
                    seeded.push_back(SlickMetrics::zero());
                    proof {
                        assert(seeded@ =~= Seq::new((k + 1) as nat, |i: int| zero_metrics()));
                    }
                    k = k + 1;
                }
                self.slick_metrics = seeded;
                self.append_slick_metrics(first);
            },
            None => {
                self.slick_error = Some(String::from_str(
                    "No slick jmx metrics found. Are you sure you have registerMbeans=true in your slick config?",
                ));
            },
        }
        self.has_hikari = init.hikari_available;
    }

    /// The routine refresh requests this tab wants each timer tick: a
    /// primary metrics sample while initialization succeeded, and a
    /// secondary one while that family is believed available.
    pub fn tick(&self) -> (r: Vec<FetchRequest>)
        ensures
            r@ == (if self.slick_error is None {
                seq![FetchRequest::SlickMetrics]
            } else {
                Seq::<FetchRequest>::empty()
            }) + (if self.has_hikari {
                seq![FetchRequest::HikariMetrics]
            } else {
                Seq::<FetchRequest>::empty()
            }),
    {
        let mut r: Vec<FetchRequest> = Vec::new();
        if self.slick_error.is_none() {
            r.push(FetchRequest::SlickMetrics);
        }
        if self.has_hikari {
            r.push(FetchRequest::HikariMetrics);
        }
        proof {
            assert(r@ =~= (if self.slick_error is None {
                seq![FetchRequest::SlickMetrics]
            } else {
                Seq::<FetchRequest>::empty()
            }) + (if self.has_hikari {
                seq![FetchRequest::HikariMetrics]
            } else {
                Seq::<FetchRequest>::empty()
            }));
        }
        r
    }
}

} // verus!
