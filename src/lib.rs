//! State and rules of a desktop indicator that shows which systemd units
//! have failed: the records a poll brings, the indicator state they are
//! folded into, and how that state is shown as an icon and a menu.

mod indicator;
mod laws;
mod unit;

pub use indicator::{
    after_event, after_failure, after_success, classify, initial_view, menu_of, tray_id,
    units_from_raw, units_of, IconKind, IndicatorState, IndicatorView, PollEvent,
    POLL_INTERVAL_SECS,
};
pub use laws::{
    after_events, lemma_classification, lemma_failure_carries_over, lemma_menu_round_trip,
    lemma_stale_until_success, lemma_success_idempotent,
};
pub use unit::{unit_of, RawUnitInfo, UnitInfo};
