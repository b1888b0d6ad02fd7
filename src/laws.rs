use vstd::prelude::*;

use crate::indicator::{
    after_event, after_failure, after_success, classify, initial_view, menu_of, units_of,
    IconKind, IndicatorView, PollEvent,
};
use crate::unit::RawUnitInfo;
use crate::unit::UnitInfo;

verus! {

/// The state after the ticks `es`, taken in order, starting from `v`.
pub open spec fn after_events(v: IndicatorView, es: Seq<PollEvent>) -> IndicatorView
    decreases es.len(),
{
    if es.len() == 0 {
        v
    } else {
        after_events(after_event(v, es[0]), es.drop_first())
    }
}

/// Until a poll succeeds the icon is "stale", whatever units the state
/// holds: from the initial state, any run of failed polls leaves it stale.
pub proof fn lemma_stale_until_success(v: IndicatorView, es: Seq<PollEvent>)
    requires
        v.stale,
        forall|i: int| 0 <= i < es.len() ==> es[i] is Failed,
    ensures
        after_events(v, es).stale,
        classify(after_events(v, es)) == IconKind::Stale,
        classify(after_events(v, es)).name_spec() == "stale"@,
        classify(v) == IconKind::Stale,
        classify(after_events(initial_view(), es)) == IconKind::Stale,
    decreases es.len(),
{
    if es.len() > 0 {
        assert(es[0] is Failed);
        let rest = es.drop_first();
        assert forall|i: int| 0 <= i < rest.len() implies rest[i] is Failed by {
            assert(rest[i] == es[i + 1]);
        }
        lemma_stale_until_success(after_event(v, es[0]), rest);
        lemma_stale_until_success(after_event(initial_view(), es[0]), rest);
    }
}

/// Two successful polls in a row that report the same units show the same
/// icon and the same menu as the first one alone.
pub proof fn lemma_success_idempotent(v: IndicatorView, units: Seq<UnitInfo>)
    ensures
        classify(after_success(after_success(v, units), units)) == classify(
            after_success(v, units),
        ),
        menu_of(after_success(after_success(v, units), units)) == menu_of(
            after_success(v, units),
        ),
{
}

/// After a successful poll that answered `raw`, the menu holds one label
/// per record: the record's name, in the order of the answer.
pub proof fn lemma_menu_round_trip(v: IndicatorView, raw: Seq<RawUnitInfo>)
    ensures
        menu_of(after_success(v, units_of(raw))).len() == raw.len(),
        forall|i: int|
            0 <= i < raw.len() ==> #[trigger] menu_of(after_success(v, units_of(raw)))[i]
                == raw[i].0@,
{
}

/// A failed poll after a successful one marks the state stale and keeps
/// exactly the units that the successful poll reported.
pub proof fn lemma_failure_carries_over(v: IndicatorView, units: Seq<UnitInfo>)
    ensures
        after_failure(after_success(v, units)).stale,
        after_failure(after_success(v, units)).failed_units == units,
{
}

/// The icon is "stale" in every stale state; otherwise "ok" when no unit
/// has failed and "err" when at least one has.
pub proof fn lemma_classification(v: IndicatorView)
    ensures
        v.stale ==> classify(v).name_spec() == "stale"@,
        !v.stale && v.failed_units.len() == 0 ==> classify(v).name_spec() == "ok"@,
        !v.stale && v.failed_units.len() > 0 ==> classify(v).name_spec() == "err"@,
{
}

} // verus!
