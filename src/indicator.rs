use vstd::prelude::*;

use crate::unit::{unit_of, RawUnitInfo, UnitInfo};

verus! {

/// Seconds the poll loop waits after one tick ends before the next begins.
pub const POLL_INTERVAL_SECS: u64 = 60;

/// The identifier under which the indicator registers with the tray host.
pub fn tray_id() -> (r: String)
    ensures
        r@ == "com.micksayson.systemd-status"@,
{
    "com.micksayson.systemd-status".to_owned()
}

/// The three icons the indicator can show.
#[derive(PartialEq, Eq, Structural, Clone, Copy, Debug)]
pub enum IconKind {
    /// No poll has succeeded yet, or the latest one failed.
    Stale,
    /// The latest poll succeeded and reported no failed unit.
    Healthy,
    /// The latest poll succeeded and reported at least one failed unit.
    Degraded,
}

impl IconKind {
    /// The icon's file name, without extension, in the icon directory.
    pub open spec fn name_spec(self) -> Seq<char> {
        match self {
            IconKind::Stale => "stale"@,
            IconKind::Healthy => "ok"@,
            IconKind::Degraded => "err"@,
        }
    }

    /// The icon's name, as the tray host looks it up.
    pub fn name(&self) -> (r: String)
        ensures
            r@ == self.name_spec(),
    {
        match self {
            IconKind::Stale => "stale".to_owned(),
            IconKind::Healthy => "ok".to_owned(),
            IconKind::Degraded => "err".to_owned(),
        }
    }
}

/// The abstract content of an [`IndicatorState`].
pub struct IndicatorView {
    pub stale: bool,
    pub failed_units: Seq<UnitInfo>,
}

/// What one tick of the poll loop learned from the service manager.
pub enum PollEvent {
    /// The query answered with these records, in the manager's order.
    Listed(Vec<RawUnitInfo>),
    /// The query failed (transport or protocol error).
    Failed,
}

/// The state before any poll.
pub open spec fn initial_view() -> IndicatorView {
    IndicatorView { stale: true, failed_units: Seq::empty() }
}

/// A successful poll replaces the whole unit list and clears staleness.
pub open spec fn after_success(v: IndicatorView, units: Seq<UnitInfo>) -> IndicatorView {
    IndicatorView { stale: false, failed_units: units }
}

/// A failed poll marks the state stale and keeps the last known units.
pub open spec fn after_failure(v: IndicatorView) -> IndicatorView {
    IndicatorView { stale: true, failed_units: v.failed_units }
}

/// The records of a query answer, converted one for one.
pub open spec fn units_of(raw: Seq<RawUnitInfo>) -> Seq<UnitInfo> {
    raw.map_values(|x: RawUnitInfo| unit_of(x))
}

/// The state after one tick whose outcome is `e`.
pub open spec fn after_event(v: IndicatorView, e: PollEvent) -> IndicatorView {
    match e {
        PollEvent::Listed(raw) => after_success(v, units_of(raw@)),
        PollEvent::Failed => after_failure(v),
    }
}

/// The icon a state is shown with.
pub open spec fn classify(v: IndicatorView) -> IconKind {
    if v.stale {
        IconKind::Stale
    } else if v.failed_units.len() == 0 {
        IconKind::Healthy
    } else {
        IconKind::Degraded
    }
}

/// The menu labels of a state: each unit's name, in stored order.
pub open spec fn menu_of(v: IndicatorView) -> Seq<Seq<char>> {
    v.failed_units.map_values(|u: UnitInfo| u.name@)
}

/// The indicator's shared state: whether it is stale, and the failed
/// units of the latest successful poll.
pub struct IndicatorState {
    stale: bool,
    failed_units: Vec<UnitInfo>,
}

impl View for IndicatorState {
    type V = IndicatorView;

    closed spec fn view(&self) -> IndicatorView {
        IndicatorView { stale: self.stale, failed_units: self.failed_units@ }
    }
}

/// Converts the records of a query answer, keeping their order.
pub fn units_from_raw(raw: Vec<RawUnitInfo>) -> (r: Vec<UnitInfo>)
    ensures
        r@ == units_of(raw@),
{
    let ghost all = raw@;
    let mut out: Vec<UnitInfo> = Vec::new();
    for x in it: raw.into_iter()
        invariant
            it.seq() == all,
            out@ == units_of(all.take(it.index() as int)),
    {
        assert(all.take(it.index() + 1) == all.take(it.index() as int).push(x));
        out.push(UnitInfo::from(x));
    }
    assert(all.take(all.len() as int) == all);
    out
}

impl IndicatorState {
    /// A fresh state: stale, with no known failed unit.
    pub fn new() -> (r: IndicatorState)
        ensures
            r@ == initial_view(),
    {
        IndicatorState { stale: true, failed_units: Vec::new() }
    }

    /// Whether the latest poll failed or none has succeeded yet.
    pub fn is_stale(&self) -> (r: bool)
        ensures
            r == self@.stale,
    {
        self.stale
    }

    /// The failed units of the latest successful poll.
    pub fn failed_units(&self) -> (r: &Vec<UnitInfo>)
        ensures
            r@ == self@.failed_units,
    {
        &self.failed_units
    }

    /// Folds a successful poll into the state.
    pub fn record_success(&mut self, units: Vec<UnitInfo>)
        ensures
            final(self)@ == after_success(old(self)@, units@),
    {
        self.failed_units = units;
        self.stale = false;
    }

    /// Folds a failed poll into the state.
    pub fn record_failure(&mut self)
        ensures
            final(self)@ == after_failure(old(self)@),
    {
        self.stale = true;
    }

    /// Folds the outcome of one tick into the state.
    pub fn apply(&mut self, event: PollEvent)
        ensures
            final(self)@ == after_event(old(self)@, event),
    {
        match event {
            PollEvent::Listed(raw) => {
                let units = units_from_raw(raw);
                self.record_success(units);
            },
            PollEvent::Failed => self.record_failure(),
        }
    }

    /// The icon this state is shown with.
    pub fn icon_kind(&self) -> (r: IconKind)
        ensures
            r == classify(self@),
    {
        if self.stale {
            IconKind::Stale
        } else if self.failed_units.len() == 0 {
            IconKind::Healthy
        } else {
            IconKind::Degraded
        }
    }

    /// The name of the icon this state is shown with.
    pub fn icon_name(&self) -> (r: String)
        ensures
            r@ == classify(self@).name_spec(),
    {
        self.icon_kind().name()
    }

    /// The menu labels: the name of each failed unit, in stored order.
    pub fn menu_labels(&self) -> (r: Vec<String>)
        ensures
            r@.map_values(|s: String| s@) == menu_of(self@),
            r@.len() == self@.failed_units.len(),
            forall|i: int|
                0 <= i < r@.len() ==> #[trigger] r@[i]@ == self@.failed_units[i].name@,
    {
        let mut out: Vec<String> = Vec::new();
        let n: usize = self.failed_units.len();
        for i in 0..n
            invariant
                n == self.failed_units@.len(),
                out@.len() == i,
                forall|j: int|
                    0 <= j < i ==> #[trigger] out@[j]@ == self.failed_units@[j].name@,
        {
            out.push(self.failed_units[i].name.clone());
        }
        assert(out@.map_values(|s: String| s@) =~= menu_of(self@));
        out
    }
}

} // verus!
