//! Alarm registry.
//!
//! Alarms are raised when a protection condition first fires and cleared
//! when it stops or when an operator acknowledges them.  The registry
//! keeps the whole history in raise order, evicts the oldest entries past
//! five hundred, and maintains the central invariant: at most one active
//! alarm per plant and code.

use vstd::prelude::*;

verus! {

/// Alarm codes of the protection taxonomy.
pub const CODE_AC_OVERVOLTAGE: u16 = 101;

pub const CODE_AC_UNDERVOLTAGE: u16 = 102;

pub const CODE_AC_OVERFREQUENCY: u16 = 103;

pub const CODE_AC_UNDERFREQUENCY: u16 = 104;

pub const CODE_ROCOF_TRIP: u16 = 105;

pub const CODE_GRID_ISLAND: u16 = 106;

pub const CODE_DC_OVERVOLTAGE: u16 = 201;

pub const CODE_DC_UNDERVOLTAGE: u16 = 202;

pub const CODE_MPPT_FAILURE: u16 = 203;

pub const CODE_ISOLATION_FAULT: u16 = 301;

pub const CODE_GROUND_FAULT: u16 = 302;

pub const CODE_OVERTEMPERATURE: u16 = 401;

pub const CODE_FAN_FAULT: u16 = 402;

pub const CODE_COMMUNICATION_LOSS: u16 = 501;

pub const CODE_INTERNAL_FAULT: u16 = 999;

/// How many alarms the history keeps before evicting the oldest.
pub const ALARM_HISTORY_CAP: usize = 500;

#[derive(Clone, Copy, Debug, PartialEq, Eq, Structural)]
pub enum AlarmSeverity {
    Info,
    Warning,
    Critical,
    Fault,
}

/// Severity of an alarm code; ground faults harden from warning to
/// critical above 300 mA of leakage, which the caller reports through
/// `critical_leakage`.
pub open spec fn severity_of_s(code: int, critical_leakage: bool) -> AlarmSeverity {
    if code == 301 {
        AlarmSeverity::Fault
    } else if code == 105 || code == 401 {
        AlarmSeverity::Critical
    } else if code == 302 {
        if critical_leakage {
            AlarmSeverity::Critical
        } else {
            AlarmSeverity::Warning
        }
    } else if code == 999 {
        AlarmSeverity::Fault
    } else {
        AlarmSeverity::Warning
    }
}

pub fn severity_of(code: u16, critical_leakage: bool) -> (s: AlarmSeverity)
    ensures
        s == severity_of_s(code as int, critical_leakage),
{
    if code == 301 {
        AlarmSeverity::Fault
    } else if code == 105 || code == 401 {
        AlarmSeverity::Critical
    } else if code == 302 {
        if critical_leakage {
            AlarmSeverity::Critical
        } else {
            AlarmSeverity::Warning
        }
    } else if code == 999 {
        AlarmSeverity::Fault
    } else {
        AlarmSeverity::Warning
    }
}

/// One alarm lifecycle record.
#[derive(Debug)]
pub struct Alarm {
    pub id: String,
    pub plant_id: String,
    pub code: u16,
    pub severity: AlarmSeverity,
    pub message: String,
    /// Unix seconds at raise time.
    pub timestamp: i64,
    pub active: bool,
    /// Unix seconds at clear time, while inactive.
    pub cleared_at: Option<i64>,
}

impl Clone for Alarm {
    fn clone(&self) -> (r: Alarm)
        ensures
            r == *self,
    {
        Alarm {
            id: self.id.clone(),
            plant_id: self.plant_id.clone(),
            code: self.code,
            severity: self.severity,
            message: self.message.clone(),
            timestamp: self.timestamp,
            active: self.active,
            cleared_at: self.cleared_at,
        }
    }
}

/// At most one active alarm per (plant, code) pair.
pub open spec fn alarm_unique_s(s: Seq<Alarm>) -> bool {
    forall |i: int, j: int|
        0 <= i < s.len() && 0 <= j < s.len() && i != j && (#[trigger] s[i]).active && (
        #[trigger] s[j]).active ==> !(s[i].plant_id@ == s[j].plant_id@ && s[i].code == s[j].code)
}

/// Whether an alarm record matches a plant filter.
pub open spec fn alarm_matches_s(a: Alarm, plant: Option<Seq<char>>, active_only: bool) -> bool {
    &&& (active_only ==> a.active)
    &&& match plant {
        Option::Some(p) => a.plant_id@ == p,
        Option::None => true,
    }
}

/// The sub-sequence of alarms matching a filter, oldest first.
pub open spec fn filter_alarms_s(
    s: Seq<Alarm>,
    plant: Option<Seq<char>>,
    active_only: bool,
) -> Seq<Alarm>
    decreases s.len(),
{
    if s.len() == 0 {
        Seq::empty()
    } else {
        let rest = filter_alarms_s(s.drop_last(), plant, active_only);
        if alarm_matches_s(s.last(), plant, active_only) {
            rest.push(s.last())
        } else {
            rest
        }
    }
}

/// What a listing returns: the matching alarms, oldest first, cut off at
/// the limit.
pub open spec fn listed_alarms_s(
    s: Seq<Alarm>,
    plant: Option<Seq<char>>,
    active_only: bool,
    limit: int,
) -> Seq<Alarm> {
    let f = filter_alarms_s(s, plant, active_only);
    if f.len() <= limit {
        f
    } else {
        f.take(limit)
    }
}

/// Every element a filter keeps satisfies the filter.
pub proof fn lemma_filter_matches(
    s: Seq<Alarm>,
    plant: Option<Seq<char>>,
    active_only: bool,
    m: int,
)
    requires
        0 <= m < filter_alarms_s(s, plant, active_only).len(),
    ensures
        alarm_matches_s(filter_alarms_s(s, plant, active_only)[m], plant, active_only),
    decreases s.len(),
{
    if s.len() > 0 {
        let rest = filter_alarms_s(s.drop_last(), plant, active_only);
        if m < rest.len() {
            lemma_filter_matches(s.drop_last(), plant, active_only, m);
        }
    }
}

/// Whether an active alarm for this plant and code is on record.
pub open spec fn has_active_s(s: Seq<Alarm>, plant: Seq<char>, code: u16) -> bool {
    exists |i: int|
        0 <= i < s.len() && (#[trigger] s[i]).active && s[i].plant_id@ == plant && s[i].code
            == code
}

/// The same alarm record, marked inactive with the clear time stamped.
pub open spec fn cleared_copy_s(a: Alarm, now: i64) -> Alarm {
    Alarm { active: false, cleared_at: Some(now), ..a }
}

/// The alarm history of the whole fleet, raise order, capped.
pub struct AlarmRegistry {
    pub items: Vec<Alarm>,
}

impl AlarmRegistry {
    /// The registry's well-formedness: bounded history and the uniqueness
    /// invariant.
    pub open spec fn wf(&self) -> bool {
        &&& self.items@.len() <= ALARM_HISTORY_CAP as int
        &&& alarm_unique_s(self.items@)
    }

    pub fn new() -> (r: AlarmRegistry)
        ensures
            r.wf(),
            r.items@.len() == 0,
    {
        AlarmRegistry { items: Vec::new() }
    }

    /// Index of the active alarm for this plant and code, if any.
    pub fn find_active(&self, plant_id: &String, code: u16) -> (r: Option<usize>)
        ensures
            match r {
                Option::Some(i) => i < self.items@.len() && self.items@[i as int].active
                    && self.items@[i as int].plant_id@ == plant_id@ && self.items@[
                    i as int].code == code,
                Option::None => forall |i: int|
                    0 <= i < self.items@.len() ==> !((#[trigger] self.items@[i]).active
                        && self.items@[i].plant_id@ == plant_id@ && self.items@[i].code == code),
            },
    {
        let n = self.items.len();
        let mut k: usize = 0;
        while k < n
            invariant
                0 <= k <= n,
                n == self.items@.len(),
                forall |i: int|
                    0 <= i < k ==> !((#[trigger] self.items@[i]).active && self.items@[
                    i].plant_id@ == plant_id@ && self.items@[i].code == code),
            decreases n - k,
        {
            let a = &self.items[k];
            if a.active && a.code == code && a.plant_id.eq(plant_id) {
                return Some(k);
            }
            k = k + 1;
        }
        None
    }

    /// Raise an alarm unless one is already active for this plant and
    /// code; evicts the oldest record past the cap.  Returns whether a
    /// new alarm was recorded.
    pub fn raise(
        &mut self,
        id: String,
        plant_id: &String,
        code: u16,
        severity: AlarmSeverity,
        message: String,
        now: i64,
    ) -> (raised: bool)
        requires
            old(self).wf(),
        ensures
            final(self).wf(),
            final(self).items@.len() >= old(self).items@.len(),
            raised == !(exists |i: int|
                0 <= i < old(self).items@.len() && (#[trigger] old(self).items@[i]).active && old(
                self).items@[i].plant_id@ == plant_id@ && old(self).items@[i].code == code),
            raised ==> final(self).items@.len() > 0 && final(self).items@.last().plant_id@
                == plant_id@ && final(self).items@.last().code == code && final(
            self).items@.last().active && final(self).items@.last().timestamp == now && final(
            self).items@.last().id == id && final(self).items@.last().severity == severity
                && final(self).items@.last().cleared_at is None,
            raised && old(self).items@.len() < ALARM_HISTORY_CAP ==> final(self).items@.len()
                == old(self).items@.len() + 1 && final(self).items@.drop_last() == old(
                self,
            ).items@,
            !raised ==> final(self).items@ == old(self).items@,
            exists |i: int|
                0 <= i < final(self).items@.len() && (#[trigger] final(self).items@[i]).active
                    && final(self).items@[i].plant_id@ == plant_id@ && final(self).items@[
                i].code == code,
    {
        match self.find_active(plant_id, code) {
            Some(i) => {
                proof {
                    assert(self.items@[i as int].active && self.items@[i as int].plant_id@
                        == plant_id@ && self.items@[i as int].code == code);
                }
                false
            },
            None => {
                let a = Alarm {
                    id,
                    plant_id: plant_id.clone(),
                    code,
                    severity,
                    message,
                    timestamp: now,
                    active: true,
                    cleared_at: None,
                };
                if self.items.len() >= ALARM_HISTORY_CAP {
                    let ghost before = self.items@;
                    let _evicted = self.items.remove(0);
                    proof {
                        assert forall |i: int, j: int|
                            0 <= i < self.items@.len() && 0 <= j < self.items@.len() && i != j && (
                            #[trigger] self.items@[i]).active && (#[trigger] self.items@[
                            j]).active implies !(self.items@[i].plant_id@ == self.items@[
                        j].plant_id@ && self.items@[i].code == self.items@[j].code) by {
                            assert(self.items@[i] == before[i + 1]);
                            assert(self.items@[j] == before[j + 1]);
                        }
                    }
                }
                let ghost pre = self.items@;
                self.items.push(a);
                proof {
                    assert forall |i: int, j: int|
                        0 <= i < self.items@.len() && 0 <= j < self.items@.len() && i != j && (
                        #[trigger] self.items@[i]).active && (#[trigger] self.items@[j]).active
                        implies !(self.items@[i].plant_id@ == self.items@[j].plant_id@
                        && self.items@[i].code == self.items@[j].code) by {
                        if i < pre.len() && j < pre.len() {
                            assert(self.items@[i] == pre[i]);
                            assert(self.items@[j] == pre[j]);
                        }
                    }
                    assert(self.items@.last() == a);
                    assert(self.items@[self.items@.len() - 1].active);
                    assert(self.items@.drop_last() =~= pre);
                }
                true
            },
        }
    }

    /// Mark the active alarm for this plant and code inactive, stamping
    /// the clear time.  Returns whether one was cleared.
    pub fn clear_by_code(&mut self, plant_id: &String, code: u16, now: i64) -> (cleared: bool)
        requires
            old(self).wf(),
        ensures
            final(self).wf(),
            final(self).items@.len() == old(self).items@.len(),
            forall |i: int|
                0 <= i < final(self).items@.len() ==> !((#[trigger] final(self).items@[i]).active
                    && final(self).items@[i].plant_id@ == plant_id@ && final(self).items@[
                i].code == code),
            cleared == (exists |i: int|
                0 <= i < old(self).items@.len() && (#[trigger] old(self).items@[i]).active && old(
                self).items@[i].plant_id@ == plant_id@ && old(self).items@[i].code == code),
            forall |i: int|
                0 <= i < old(self).items@.len() && !((#[trigger] old(self).items@[i]).active
                    && old(self).items@[i].plant_id@ == plant_id@ && old(self).items@[i].code
                    == code) ==> final(self).items@[i] == old(self).items@[i],
            forall |i: int|
                0 <= i < old(self).items@.len() && (#[trigger] old(self).items@[i]).active && old(
                self).items@[i].plant_id@ == plant_id@ && old(self).items@[i].code == code
                    ==> final(self).items@[i] == cleared_copy_s(old(self).items@[i], now),
    {
        match self.find_active(plant_id, code) {
            Some(i) => {
                let ghost before = self.items@;
                let mut a = self.items[i].clone();
                a.active = false;
                a.cleared_at = Some(now);
                self.items.set(i, a);
                proof {
                    assert forall |k: int|
                        0 <= k < self.items@.len() implies !((#[trigger] self.items@[k]).active
                        && self.items@[k].plant_id@ == plant_id@ && self.items@[k].code == code)
                        by {
                        if k != i as int {
                            assert(self.items@[k] == before[k]);
                            if self.items@[k].active && self.items@[k].plant_id@ == plant_id@
                                && self.items@[k].code == code {
                                assert(before[k].active && before[i as int].active);
                            }
                        }
                    }
                    assert forall |x: int, y: int|
                        0 <= x < self.items@.len() && 0 <= y < self.items@.len() && x != y && (
                        #[trigger] self.items@[x]).active && (#[trigger] self.items@[y]).active
                        implies !(self.items@[x].plant_id@ == self.items@[y].plant_id@
                        && self.items@[x].code == self.items@[y].code) by {
                        assert(self.items@[x] == before[x] || x == i as int);
                        assert(self.items@[y] == before[y] || y == i as int);
                    }
                    assert forall |k: int|
                        0 <= k < before.len() && (#[trigger] before[k]).active && before[
                        k].plant_id@ == plant_id@ && before[k].code == code implies k == i as int
                        by {
                        if k != i as int {
                            assert(before[k].active && before[i as int].active);
                        }
                    }
                    assert(self.items@[i as int] == cleared_copy_s(before[i as int], now));
                }
                true
            },
            None => false,
        }
    }

    /// Acknowledge every active alarm of one plant: each such entry is
    /// marked inactive with the clear time stamped, and every other entry
    /// (other plants, already-inactive history) is left exactly as it
    /// was.  Returns how many were cleared.
    pub fn clear_all_for_plant(&mut self, plant_id: &String, now: i64) -> (n: usize)
        requires
            old(self).wf(),
        ensures
            final(self).wf(),
            final(self).items@.len() == old(self).items@.len(),
            forall |i: int|
                0 <= i < final(self).items@.len() ==> !((#[trigger] final(self).items@[i]).active
                    && final(self).items@[i].plant_id@ == plant_id@),
            forall |i: int|
                0 <= i < old(self).items@.len() && !((#[trigger] old(self).items@[i]).active
                    && old(self).items@[i].plant_id@ == plant_id@) ==> final(self).items@[i]
                    == old(self).items@[i],
            forall |i: int|
                0 <= i < old(self).items@.len() && (#[trigger] old(self).items@[i]).active && old(
                self).items@[i].plant_id@ == plant_id@ ==> final(self).items@[i]
                    == cleared_copy_s(old(self).items@[i], now),
    {
        let len = self.items.len();
        let mut k: usize = 0;
        let mut n: usize = 0;
        while k < len
            invariant
                0 <= k <= len,
                len == self.items@.len(),
                self.wf(),
                n <= k,
                forall |i: int|
                    0 <= i < k ==> !((#[trigger] self.items@[i]).active && self.items@[
                    i].plant_id@ == plant_id@),
                forall |i: int| k <= i < len ==> self.items@[i] == old(self).items@[i],
                forall |i: int|
                    0 <= i < k && !((#[trigger] old(self).items@[i]).active && old(
                    self).items@[i].plant_id@ == plant_id@) ==> self.items@[i] == old(
                        self,
                    ).items@[i],
                forall |i: int|
                    0 <= i < k && (#[trigger] old(self).items@[i]).active && old(self).items@[
                    i].plant_id@ == plant_id@ ==> self.items@[i] == cleared_copy_s(
                        old(self).items@[i],
                        now,
                    ),
            decreases len - k,
        {
            let ghost before = self.items@;
            let matches_plant = self.items[k].active && self.items[k].plant_id.eq(plant_id);
            if matches_plant {
                let mut a = self.items[k].clone();
                a.active = false;
                a.cleared_at = Some(now);
                self.items.set(k, a);
                n = n + 1;
                proof {
                    assert forall |x: int, y: int|
                        0 <= x < self.items@.len() && 0 <= y < self.items@.len() && x != y && (
                        #[trigger] self.items@[x]).active && (#[trigger] self.items@[y]).active
                        implies !(self.items@[x].plant_id@ == self.items@[y].plant_id@
                        && self.items@[x].code == self.items@[y].code) by {
                        assert(self.items@[x] == before[x] || x == k as int);
                        assert(self.items@[y] == before[y] || y == k as int);
                    }
                    assert forall |i: int|
                        0 <= i < k + 1 implies !((#[trigger] self.items@[i]).active
                        && self.items@[i].plant_id@ == plant_id@) by {
                        if i < k as int {
                            assert(self.items@[i] == before[i]);
                        }
                    }
                    assert(self.items@[k as int] == cleared_copy_s(old(self).items@[k as int], now));
                }
            }
            k = k + 1;
        }
        n
    }

    /// The alarms matching a plant filter and activity flag, oldest
    /// first, at most `limit` of them counted from the oldest match.
    pub fn list(&self, plant_id: Option<&String>, active_only: bool, limit: usize) -> (r: Vec<
        Alarm,
    >)
        ensures
            r@ == listed_alarms_s(
                self.items@,
                match plant_id {
                    Option::Some(p) => Option::Some(p@),
                    Option::None => Option::None,
                },
                active_only,
                limit as int,
            ),
            r@.len() <= limit,
            forall |k: int|
                0 <= k < r@.len() ==> alarm_matches_s(
                    #[trigger] r@[k],
                    match plant_id {
                        Option::Some(p) => Option::Some(p@),
                        Option::None => Option::None,
                    },
                    active_only,
                ),
    {
        let ghost pview: Option<Seq<char>> = match plant_id {
            Option::Some(p) => Option::Some(p@),
            Option::None => Option::None,
        };
        let mut out: Vec<Alarm> = Vec::new();
        let n = self.items.len();
        let mut k: usize = 0;
        while k < n
            invariant
                0 <= k <= n,
                n == self.items@.len(),
                out@.len() <= limit,
                ({
                    let f = filter_alarms_s(self.items@.take(k as int), pview, active_only);
                    (f.len() <= limit as int ==> out@ == f) && (f.len() > limit as int ==> out@
                        == f.take(limit as int))
                }),
                pview == (match plant_id {
                    Option::Some(p) => Option::Some(p@),
                    Option::None => Option::None,
                }),
            decreases n - k,
        {
            let a = &self.items[k];
            let plant_ok = match plant_id {
                Some(p) => a.plant_id.eq(p),
                None => true,
            };
            proof {
                assert(self.items@.take(k + 1).drop_last() =~= self.items@.take(k as int));
                assert(self.items@.take(k + 1).last() == self.items@[k as int]);
            }
            let ghost fk = filter_alarms_s(self.items@.take(k as int), pview, active_only);
            if plant_ok && (!active_only || a.active) {
                if out.len() < limit {
                    out.push(a.clone());
                    proof {
                        if fk.len() < limit as int {
                        } else {
                            assert(fk.push(self.items@[k as int]).take(limit as int) =~= fk.take(
                                limit as int,
                            ));
                        }
                    }
                } else {
                    proof {
                        assert(fk.push(self.items@[k as int]).take(limit as int) =~= fk.take(
                            limit as int,
                        ));
                        if fk.len() <= limit as int {
                            assert(fk.take(limit as int) =~= fk);
                        }
                    }
                }
            }
            k = k + 1;
        }
        proof {
            assert(self.items@.take(n as int) =~= self.items@);
            let f = filter_alarms_s(self.items@, pview, active_only);
            assert forall |m: int| 0 <= m < f.len() implies alarm_matches_s(
                #[trigger] f[m],
                pview,
                active_only,
            ) by {
                lemma_filter_matches(self.items@, pview, active_only, m);
            }
        }
        out
    }

    /// How many alarms are currently active, optionally for one plant.
    pub fn count_active(&self, plant_id: Option<&String>) -> (n: usize)
        ensures
            n <= self.items@.len(),
    {
        let len = self.items.len();
        let mut k: usize = 0;
        let mut n: usize = 0;
        while k < len
            invariant
                0 <= k <= len,
                n <= k,
                len == self.items@.len(),
            decreases len - k,
        {
            let a = &self.items[k];
            let plant_ok = match plant_id {
                Some(p) => a.plant_id.eq(p),
                None => true,
            };
            if a.active && plant_ok {
                n = n + 1;
            }
            k = k + 1;
        }
        n
    }
}

/// The registry invariant in words: two distinct active alarms never
/// share a plant and code.
pub proof fn lemma_active_alarm_unique(reg: AlarmRegistry, i: int, j: int)
    requires
        reg.wf(),
        0 <= i < reg.items@.len(),
        0 <= j < reg.items@.len(),
        reg.items@[i].active,
        reg.items@[j].active,
        reg.items@[i].plant_id@ == reg.items@[j].plant_id@,
        reg.items@[i].code == reg.items@[j].code,
    ensures
        i == j,
{
}

} // verus!
