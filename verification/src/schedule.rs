//! The hours of the day in which storage may charge or discharge.

use vstd::prelude::*;

verus! {

/// Whether a list of chosen hours allows hour `h` of the day: an empty
/// list allows every hour, otherwise exactly the listed hours are allowed
/// (entries outside 0..24 allow nothing).
pub open spec fn period_allows(periods: Seq<i32>, h: int) -> bool {
    periods.len() == 0 || periods.contains(h as i32)
}

/// The 24 hourly flags that a list of chosen hours gives.
pub open spec fn mask_spec(periods: Seq<i32>) -> Seq<bool> {
    Seq::new(24, |h: int| period_allows(periods, h))
}

/// With no hours chosen every hour is open; otherwise an hour is open
/// exactly when it was chosen.
pub proof fn law_mask_opens_exactly_the_chosen_hours(periods: Seq<i32>)
    ensures
        mask_spec(periods).len() == 24,
        periods.len() == 0 ==> forall|h: int| 0 <= h < 24 ==> mask_spec(periods)[h],
        periods.len() > 0 ==> forall|h: int| 0 <= h < 24 ==> (mask_spec(periods)[h] <==> periods.contains(h as i32)),
{
}

/// The 24 hourly flags of a list of chosen hours.
pub fn hour_mask(periods: &[i32]) -> (m: Vec<bool>)
    ensures
        m@ == mask_spec(periods@),
        m@.len() == 24,
        periods@.len() == 0 ==> forall|h: int| 0 <= h < 24 ==> m@[h],
        periods@.len() > 0 ==> forall|h: int| 0 <= h < 24 ==> (m@[h] <==> periods@.contains(h as i32)),
{
    proof {
        law_mask_opens_exactly_the_chosen_hours(periods@);
    }
    if periods.len() == 0 {
        let m = vec![true; 24];
        assert(m@ =~= mask_spec(periods@));
        return m;
    }
    let mut m = vec![false; 24];
    let mut i: usize = 0;
    while i < periods.len()
        invariant
            0 < periods@.len(),
            i <= periods@.len(),
            m@.len() == 24,
            forall|h: int| 0 <= h < 24 ==> #[trigger] m@[h] == periods@.take(i as int).contains(h as i32),
        decreases periods.len() - i,
    {
        let p = periods[i];
        if 0 <= p && p < 24 {
            m.set(p as usize, true);
        }
        proof {
            assert(periods@.take(i + 1) =~= periods@.take(i as int).push(p));
            assert forall|h: int| 0 <= h < 24 implies #[trigger] m@[h] == periods@.take(i + 1).contains(h as i32) by {
                if h as i32 == p {
                    assert(periods@.take(i + 1)[i as int] == p);
                } else {
                    if periods@.take(i + 1).contains(h as i32) {
                        let j = choose|j: int| 0 <= j < i + 1 && #[trigger] periods@.take(i + 1)[j] == h as i32;
                        assert(j < i);
                        assert(periods@.take(i as int)[j] == h as i32);
                    }
                }
            }
        }
        i = i + 1;
    }
    assert(periods@.take(periods@.len() as int) =~= periods@);
    assert(m@ =~= mask_spec(periods@));
    m
}

/// The storage windows of a simulation: in which hours of the day storage
/// may charge and discharge, and whether charging takes priority over
/// serving load in the charging hours.
pub struct HourWindows {
    charge_hours: Vec<bool>,
    discharge_hours: Vec<bool>,
    charge_priority: bool,
}

impl HourWindows {
    #[verifier::type_invariant]
    spec fn inv(self) -> bool {
        self.charge_hours@.len() == 24 && self.discharge_hours@.len() == 24
    }

    /// The hourly charging flags.
    pub closed spec fn charge_view(self) -> Seq<bool> {
        self.charge_hours@
    }

    /// The hourly discharging flags.
    pub closed spec fn discharge_view(self) -> Seq<bool> {
        self.discharge_hours@
    }

    /// Whether generation charges storage before it serves load.
    pub closed spec fn priority_view(self) -> bool {
        self.charge_priority
    }

    /// The windows that the chosen charging and discharging hours give.
    /// Charging takes priority exactly when charging hours were chosen.
    pub fn from_periods(charge_periods: &[i32], discharge_periods: &[i32]) -> (r: HourWindows)
        ensures
            r.charge_view() == mask_spec(charge_periods@),
            r.discharge_view() == mask_spec(discharge_periods@),
            r.priority_view() == (charge_periods@.len() > 0),
    {
        HourWindows {
            charge_hours: hour_mask(charge_periods),
            discharge_hours: hour_mask(discharge_periods),
            charge_priority: charge_periods.len() > 0,
        }
    }

    /// Whether storage may charge in simulation step `step` (hour `step`
    /// of the year).
    pub fn charge_open(&self, step: usize) -> (r: bool)
        ensures
            r == self.charge_view()[step as int % 24],
    {
        proof {
            use_type_invariant(self);
        }
        self.charge_hours[step % 24]
    }

    /// Whether storage may discharge in simulation step `step`.
    pub fn discharge_open(&self, step: usize) -> (r: bool)
        ensures
            r == self.discharge_view()[step as int % 24],
    {
        proof {
            use_type_invariant(self);
        }
        self.discharge_hours[step % 24]
    }

    /// Whether generation charges storage before it serves load.
    pub fn charge_priority(&self) -> (r: bool)
        ensures
            r == self.priority_view(),
    {
        self.charge_priority
    }
}

/// The windows repeat every day: step `s` and step `s + 24` are open or
/// closed alike.
pub proof fn law_windows_repeat_daily(w: HourWindows, step: int)
    requires
        step >= 0,
    ensures
        w.charge_view()[step % 24] == w.charge_view()[(step + 24) % 24],
        w.discharge_view()[step % 24] == w.discharge_view()[(step + 24) % 24],
{
    assert((step + 24) % 24 == step % 24);
}

} // verus!
