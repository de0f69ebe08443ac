//! Laws of reconciliation, stated over the store model and proved.
use crate::bulletin::WarningDataView;
use crate::reconcile::{
    is_all_clear, notification_count, observation_step, observations_run, reconciled, ActionView,
};
use crate::store::{
    active_report, clear_city, clear_publisher, cleared_for_city, cleared_for_publisher,
    dropped_reference, is_active_for, lemma_active_report, new_report, unique_active, ReportView,
    StoreView,
};
use vstd::prelude::*;

verus! {

/// An observation of a named kind.
pub open spec fn is_named(o: WarningDataView) -> bool {
    o.warning_kind.len() > 0
}

/// Two observations of monitored cities that reconciling twice would not
/// leave as it found them: the same city and kind twice, or a named kind
/// and an all-clear for the same city.
pub open spec fn conflicting(cities: Seq<Seq<char>>, a: WarningDataView, b: WarningDataView) -> bool {
    &&& cities.contains(a.city)
    &&& cities.contains(b.city)
    &&& a.city == b.city
    &&& ((is_named(a) && is_named(b) && a.warning_kind == b.warning_kind) || (is_named(a) && is_all_clear(b))
        || (is_all_clear(a) && is_named(b)))
}

/// No two observations of the bulletin conflict.
pub open spec fn free_of_conflicts(cities: Seq<Seq<char>>, obs: Seq<WarningDataView>) -> bool {
    forall|i: int, j: int|
        0 <= i < j < obs.len() ==> !conflicting(cities, #[trigger] obs[i], #[trigger] obs[j])
}

/// No active row of the publisher and city.
pub open spec fn city_clear(rs: Seq<ReportView>, lmo: Seq<char>, city: Seq<char>) -> bool {
    forall|k: int| 0 <= k < rs.len() ==> !(!(#[trigger] rs[k]).is_delete && rs[k].lmo == lmo && rs[k].city == city)
}

/// The store already reflects the observation: an all-clear finds its city
/// without active rows, a named kind finds its active row with the observed
/// status and document.
pub open spec fn settled(
    st: StoreView,
    lmo: Seq<char>,
    cities: Seq<Seq<char>>,
    xml_file: Seq<char>,
    o: WarningDataView,
) -> bool {
    if cities.contains(o.city) && is_all_clear(o) {
        city_clear(st.reports, lmo, o.city)
    } else if cities.contains(o.city) && is_named(o) {
        match active_report(st.reports, lmo, o.city, o.warning_kind) {
            Some(i) => st.reports[i].status == o.status && st.reports[i].xml_file == xml_file,
            None => false,
        }
    } else {
        true
    }
}

/// Every action clears a city.
pub open spec fn only_city_clears(acts: Seq<ActionView>) -> bool {
    forall|m: int| 0 <= m < acts.len() ==> #[trigger] acts[m] is ClearCity
}

proof fn lemma_no_notifications(acts: Seq<ActionView>)
    requires
        only_city_clears(acts),
    ensures
        notification_count(acts) == 0,
    decreases acts.len(),
{
    if acts.len() > 0 {
        let p = acts.drop_last();
        assert forall|m: int| 0 <= m < p.len() implies #[trigger] p[m] is ClearCity by {
            assert(p[m] == acts[m]);
        }
        lemma_no_notifications(p);
        assert(acts[acts.len() - 1] is ClearCity);
    }
}

/// Updating a row without touching its publisher, city, kind or deletion
/// mark leaves every lookup as it was.
proof fn lemma_active_report_update(
    rs: Seq<ReportView>,
    i: int,
    r2: ReportView,
    lmo: Seq<char>,
    city: Seq<char>,
    kind: Seq<char>,
)
    requires
        0 <= i < rs.len(),
        r2.lmo == rs[i].lmo,
        r2.city == rs[i].city,
        r2.warning_kind == rs[i].warning_kind,
        r2.is_delete == rs[i].is_delete,
    ensures
        active_report(rs.update(i, r2), lmo, city, kind) == active_report(rs, lmo, city, kind),
    decreases rs.len(),
{
    let u = rs.update(i, r2);
    if i == rs.len() - 1 {
        assert(u.drop_last() =~= rs.drop_last());
    } else {
        assert(u.drop_last() =~= rs.drop_last().update(i, r2));
        lemma_active_report_update(rs.drop_last(), i, r2, lmo, city, kind);
    }
}

/// Clearing one city leaves every lookup of another city as it was.
proof fn lemma_active_report_clear(
    rs: Seq<ReportView>,
    lmo: Seq<char>,
    cleared: Seq<char>,
    city: Seq<char>,
    kind: Seq<char>,
)
    requires
        city != cleared,
    ensures
        active_report(clear_city(rs, lmo, cleared), lmo, city, kind) == active_report(rs, lmo, city, kind),
    decreases rs.len(),
{
    if rs.len() > 0 {
        let c = clear_city(rs, lmo, cleared);
        assert(c.drop_last() =~= clear_city(rs.drop_last(), lmo, cleared));
        assert(c.last() == cleared_for_city(rs.last(), lmo, cleared));
        lemma_active_report_clear(rs.drop_last(), lmo, cleared, city, kind);
    }
}

/// A step leaves an observation that the store reflects still reflected,
/// unless the two conflict.
proof fn lemma_step_keeps_settled(
    st: StoreView,
    lmo: Seq<char>,
    cities: Seq<Seq<char>>,
    xml_file: Seq<char>,
    o: WarningDataView,
    o2: WarningDataView,
)
    requires
        settled(st, lmo, cities, xml_file, o),
        !conflicting(cities, o, o2),
    ensures
        settled(observation_step(st, lmo, cities, xml_file, o2).0, lmo, cities, xml_file, o),
{
    let rs = st.reports;
    let after = observation_step(st, lmo, cities, xml_file, o2).0;
    let monitored = cities.contains(o.city);
    if !cities.contains(o2.city) || !(is_all_clear(o2) || is_named(o2)) || !monitored || !(is_all_clear(o)
        || is_named(o)) {
        return ;
    }
    if is_all_clear(o2) {
        let c = clear_city(rs, lmo, o2.city);
        assert(after.reports == c);
        if is_all_clear(o) {
            assert forall|k: int| 0 <= k < c.len() implies !(!(#[trigger] c[k]).is_delete && c[k].lmo == lmo
                && c[k].city == o.city) by {
                assert(c[k] == cleared_for_city(rs[k], lmo, o2.city));
            }
        } else {
            assert(o.city != o2.city);
            lemma_active_report_clear(rs, lmo, o2.city, o.city, o.warning_kind);
            lemma_active_report(rs, lmo, o.city, o.warning_kind);
            let i = active_report(rs, lmo, o.city, o.warning_kind)->Some_0;
            assert(c[i] == cleared_for_city(rs[i], lmo, o2.city));
        }
    } else {
        lemma_active_report(rs, lmo, o2.city, o2.warning_kind);
        match active_report(rs, lmo, o2.city, o2.warning_kind) {
            None => {
                let nr = new_report(lmo, o2.city, o2.warning_kind, o2.status, xml_file);
                let pushed = rs.push(nr);
                assert(after.reports == pushed);
                assert(pushed.drop_last() =~= rs);
                if is_all_clear(o) {
                    assert forall|k: int| 0 <= k < pushed.len() implies !(!(#[trigger] pushed[k]).is_delete
                        && pushed[k].lmo == lmo && pushed[k].city == o.city) by {
                        if k < rs.len() {
                            assert(pushed[k] == rs[k]);
                        }
                    }
                } else {
                    lemma_active_report(rs, lmo, o.city, o.warning_kind);
                    let i = active_report(rs, lmo, o.city, o.warning_kind)->Some_0;
                    assert(pushed[i] == rs[i]);
                }
            },
            Some(i2) => {
                let r = rs[i2];
                if r.status == o2.status && r.xml_file == xml_file {
                    return ;
                }
                let r2 = if r.status != o2.status {
                    ReportView { status: o2.status, xml_file, ..r }
                } else {
                    ReportView { xml_file, ..r }
                };
                let u = rs.update(i2, r2);
                assert(after.reports == u);
                if is_all_clear(o) {
                    assert forall|k: int| 0 <= k < u.len() implies !(!(#[trigger] u[k]).is_delete && u[k].lmo
                        == lmo && u[k].city == o.city) by {
                        if k != i2 {
                            assert(u[k] == rs[k]);
                        }
                    }
                } else {
                    lemma_active_report_update(rs, i2, r2, lmo, o.city, o.warning_kind);
                    lemma_active_report(rs, lmo, o.city, o.warning_kind);
                    let i = active_report(rs, lmo, o.city, o.warning_kind)->Some_0;
                    assert(i != i2);
                    assert(u[i] == rs[i]);
                }
            },
        }
    }
}

/// After a step the store reflects the observation taken.
proof fn lemma_step_settles(
    st: StoreView,
    lmo: Seq<char>,
    cities: Seq<Seq<char>>,
    xml_file: Seq<char>,
    o: WarningDataView,
)
    ensures
        settled(observation_step(st, lmo, cities, xml_file, o).0, lmo, cities, xml_file, o),
{
    let rs = st.reports;
    let after = observation_step(st, lmo, cities, xml_file, o).0;
    if !cities.contains(o.city) || !(is_all_clear(o) || is_named(o)) {
        return ;
    }
    if is_all_clear(o) {
        let c = clear_city(rs, lmo, o.city);
        assert forall|k: int| 0 <= k < c.len() implies !(!(#[trigger] c[k]).is_delete && c[k].lmo == lmo
            && c[k].city == o.city) by {
            assert(c[k] == cleared_for_city(rs[k], lmo, o.city));
        }
    } else {
        lemma_active_report(rs, lmo, o.city, o.warning_kind);
        match active_report(rs, lmo, o.city, o.warning_kind) {
            None => {
                let pushed = rs.push(new_report(lmo, o.city, o.warning_kind, o.status, xml_file));
                assert(pushed.drop_last() =~= rs);
                assert(after.reports == pushed);
            },
            Some(i) => {
                let r = rs[i];
                if r.status != o.status {
                    lemma_active_report_update(rs, i, ReportView { status: o.status, xml_file, ..r }, lmo, o.city, o.warning_kind);
                } else if r.xml_file != xml_file {
                    lemma_active_report_update(rs, i, ReportView { xml_file, ..r }, lmo, o.city, o.warning_kind);
                }
            },
        }
    }
}

/// After a bulletin is reconciled, the store reflects each of its
/// observations, provided none conflict.
proof fn lemma_run_settles(
    st: StoreView,
    lmo: Seq<char>,
    cities: Seq<Seq<char>>,
    xml_file: Seq<char>,
    obs: Seq<WarningDataView>,
)
    requires
        free_of_conflicts(cities, obs),
    ensures
        forall|k: int|
            0 <= k < obs.len() ==> settled(
                observations_run(st, lmo, cities, xml_file, obs).0,
                lmo,
                cities,
                xml_file,
                #[trigger] obs[k],
            ),
    decreases obs.len(),
{
    if obs.len() > 0 {
        let p = obs.drop_last();
        assert forall|i: int, j: int| 0 <= i < j < p.len() implies !conflicting(
            cities,
            #[trigger] p[i],
            #[trigger] p[j],
        ) by {
            assert(p[i] == obs[i] && p[j] == obs[j]);
        }
        lemma_run_settles(st, lmo, cities, xml_file, p);
        let mid = observations_run(st, lmo, cities, xml_file, p).0;
        let last = obs.last();
        assert forall|k: int| 0 <= k < obs.len() implies settled(
            observation_step(mid, lmo, cities, xml_file, last).0,
            lmo,
            cities,
            xml_file,
            #[trigger] obs[k],
        ) by {
            if k < p.len() {
                assert(obs[k] == p[k]);
                assert(!conflicting(cities, obs[k], obs[obs.len() - 1]));
                lemma_step_keeps_settled(mid, lmo, cities, xml_file, obs[k], last);
            } else {
                lemma_step_settles(mid, lmo, cities, xml_file, last);
            }
        }
    }
}

/// Reconciling observations that the store already reflects changes nothing
/// and only clears cities that have no active rows.
proof fn lemma_settled_run_is_still(
    st: StoreView,
    lmo: Seq<char>,
    cities: Seq<Seq<char>>,
    xml_file: Seq<char>,
    obs: Seq<WarningDataView>,
)
    requires
        forall|k: int| 0 <= k < obs.len() ==> settled(st, lmo, cities, xml_file, #[trigger] obs[k]),
    ensures
        observations_run(st, lmo, cities, xml_file, obs).0 == st,
        only_city_clears(observations_run(st, lmo, cities, xml_file, obs).1),
    decreases obs.len(),
{
    if obs.len() > 0 {
        let p = obs.drop_last();
        assert forall|k: int| 0 <= k < p.len() implies settled(st, lmo, cities, xml_file, #[trigger] p[k]) by {
            assert(p[k] == obs[k]);
        }
        lemma_settled_run_is_still(st, lmo, cities, xml_file, p);
        let o = obs.last();
        assert(settled(st, lmo, cities, xml_file, obs[obs.len() - 1]));
        let prev = observations_run(st, lmo, cities, xml_file, p);
        let next = observation_step(st, lmo, cities, xml_file, o);
        if cities.contains(o.city) && is_all_clear(o) {
            assert(clear_city(st.reports, lmo, o.city) =~= st.reports) by {
                assert forall|k: int| 0 <= k < st.reports.len() implies #[trigger] clear_city(
                    st.reports,
                    lmo,
                    o.city,
                )[k] == st.reports[k] by {
                    assert(!(!st.reports[k].is_delete && st.reports[k].lmo == lmo && st.reports[k].city == o.city));
                }
            }
        } else if cities.contains(o.city) && is_named(o) {
            lemma_active_report(st.reports, lmo, o.city, o.warning_kind);
        }
        let acts = prev.1 + next.1;
        assert forall|m: int| 0 <= m < acts.len() implies #[trigger] acts[m] is ClearCity by {
            if m < prev.1.len() {
                assert(acts[m] == prev.1[m]);
            } else {
                assert(acts[m] == next.1[m - prev.1.len()]);
            }
        }
    }
}

/// Idempotence: reconciling the same bulletin of a publisher a second time
/// leaves the store as the first time left it and notifies nothing; its
/// only actions clear cities that have no active rows. This holds for any
/// bulletin in which no two observations of monitored cities name the same
/// city and kind, and no monitored city has both a named kind and an
/// all-clear.
pub proof fn lemma_reconcile_twice(
    st: StoreView,
    lmo: Seq<char>,
    cities: Seq<Seq<char>>,
    obs: Seq<WarningDataView>,
    xml_file: Seq<char>,
)
    requires
        free_of_conflicts(cities, obs),
    ensures
        ({
            let first = reconciled(st, lmo, cities, Some((obs, xml_file)));
            let second = reconciled(first.0, lmo, cities, Some((obs, xml_file)));
            &&& second.0 == first.0
            &&& notification_count(second.1) == 0
            &&& only_city_clears(second.1)
        }),
{
    let first = observations_run(st, lmo, cities, xml_file, obs);
    lemma_run_settles(st, lmo, cities, xml_file, obs);
    lemma_settled_run_is_still(first.0, lmo, cities, xml_file, obs);
    lemma_no_notifications(observations_run(first.0, lmo, cities, xml_file, obs).1);
}

/// Absence cleanup: when the feed holds no bulletin of a publisher, every
/// report row and every reference of the publisher is inactive afterwards,
/// and no row is removed.
pub proof fn lemma_absent_publisher_cleared(st: StoreView, lmo: Seq<char>, cities: Seq<Seq<char>>)
    ensures
        ({
            let after = reconciled(st, lmo, cities, None).0;
            &&& after.reports.len() == st.reports.len()
            &&& after.references.len() == st.references.len()
            &&& forall|i: int|
                0 <= i < after.reports.len() && (#[trigger] after.reports[i]).lmo == lmo
                    ==> after.reports[i].is_delete
            &&& forall|i: int|
                0 <= i < after.references.len() && (#[trigger] after.references[i]).lmo == lmo
                    ==> after.references[i].is_delete
        }),
{
    let after = reconciled(st, lmo, cities, None).0;
    assert forall|i: int| 0 <= i < after.reports.len() && (#[trigger] after.reports[i]).lmo == lmo implies after.reports[i].is_delete by {
        assert(after.reports[i] == cleared_for_publisher(st.reports[i], lmo));
    }
    assert forall|i: int| 0 <= i < after.references.len() && (#[trigger] after.references[i]).lmo == lmo implies after.references[i].is_delete by {
        assert(after.references[i] == dropped_reference(st.references[i], lmo));
    }
}

/// Running two runs of observations one after the other is running them
/// joined.
proof fn lemma_run_append(
    st: StoreView,
    lmo: Seq<char>,
    cities: Seq<Seq<char>>,
    xml_file: Seq<char>,
    a: Seq<WarningDataView>,
    b: Seq<WarningDataView>,
)
    ensures
        observations_run(st, lmo, cities, xml_file, a + b).0 == observations_run(
            observations_run(st, lmo, cities, xml_file, a).0,
            lmo,
            cities,
            xml_file,
            b,
        ).0,
    decreases b.len(),
{
    if b.len() == 0 {
        assert(a + b =~= a);
    } else {
        assert((a + b).drop_last() =~= a + b.drop_last());
        assert((a + b).last() == b.last());
        lemma_run_append(st, lmo, cities, xml_file, a, b.drop_last());
    }
}

/// A store that reflects an observation still reflects it after a run of
/// observations that do not conflict with it.
proof fn lemma_settled_persists(
    st: StoreView,
    lmo: Seq<char>,
    cities: Seq<Seq<char>>,
    xml_file: Seq<char>,
    obs: Seq<WarningDataView>,
    o: WarningDataView,
)
    requires
        settled(st, lmo, cities, xml_file, o),
        forall|j: int| 0 <= j < obs.len() ==> !conflicting(cities, o, #[trigger] obs[j]),
    ensures
        settled(observations_run(st, lmo, cities, xml_file, obs).0, lmo, cities, xml_file, o),
    decreases obs.len(),
{
    if obs.len() > 0 {
        let p = obs.drop_last();
        assert forall|j: int| 0 <= j < p.len() implies !conflicting(cities, o, #[trigger] p[j]) by {
            assert(p[j] == obs[j]);
        }
        lemma_settled_persists(st, lmo, cities, xml_file, p, o);
        let mid = observations_run(st, lmo, cities, xml_file, p).0;
        assert(!conflicting(cities, o, obs[obs.len() - 1]));
        lemma_step_keeps_settled(mid, lmo, cities, xml_file, o, obs.last());
    }
}

/// All-clear precedence: after a bulletin holding the all-clear of a
/// monitored city, no row of the publisher in that city is active, whatever
/// kinds were active before, provided no later observation of the bulletin
/// names a kind for that city.
pub proof fn lemma_all_clear_clears_city(
    st: StoreView,
    lmo: Seq<char>,
    cities: Seq<Seq<char>>,
    obs: Seq<WarningDataView>,
    xml_file: Seq<char>,
    k: int,
)
    requires
        0 <= k < obs.len(),
        is_all_clear(obs[k]),
        cities.contains(obs[k].city),
        forall|j: int| k < j < obs.len() ==> !(#[trigger] obs[j].city == obs[k].city && is_named(obs[j])),
    ensures
        city_clear(reconciled(st, lmo, cities, Some((obs, xml_file))).0.reports, lmo, obs[k].city),
{
    let o = obs[k];
    let head = obs.take(k + 1);
    let tail = obs.skip(k + 1);
    assert(obs =~= head + tail);
    lemma_run_append(st, lmo, cities, xml_file, head, tail);
    assert(head.drop_last() =~= obs.take(k));
    assert(head.last() == o);
    let before = observations_run(st, lmo, cities, xml_file, obs.take(k)).0;
    lemma_step_settles(before, lmo, cities, xml_file, o);
    assert forall|j: int| 0 <= j < tail.len() implies !conflicting(cities, o, #[trigger] tail[j]) by {
        assert(tail[j] == obs[k + 1 + j]);
    }
    lemma_settled_persists(
        observations_run(st, lmo, cities, xml_file, head).0,
        lmo,
        cities,
        xml_file,
        tail,
        o,
    );
}

/// Status-change notification: an observation of a monitored city and named
/// kind whose active row holds another status is notified exactly once, and
/// the row takes the new status and document.
pub proof fn lemma_status_change_notifies(
    st: StoreView,
    lmo: Seq<char>,
    cities: Seq<Seq<char>>,
    o: WarningDataView,
    xml_file: Seq<char>,
)
    requires
        cities.contains(o.city),
        is_named(o),
        active_report(st.reports, lmo, o.city, o.warning_kind) is Some,
        st.reports[active_report(st.reports, lmo, o.city, o.warning_kind)->Some_0].status != o.status,
    ensures
        ({
            let i = active_report(st.reports, lmo, o.city, o.warning_kind)->Some_0;
            let (after, actions) = reconciled(st, lmo, cities, Some((seq![o], xml_file)));
            &&& notification_count(actions) == 1
            &&& active_report(after.reports, lmo, o.city, o.warning_kind) == Some(i)
            &&& after.reports[i].status == o.status
            &&& after.reports[i].xml_file == xml_file
        }),
{
    let obs = seq![o];
    assert(obs.drop_last() =~= Seq::<WarningDataView>::empty());
    lemma_active_report(st.reports, lmo, o.city, o.warning_kind);
    let i = active_report(st.reports, lmo, o.city, o.warning_kind)->Some_0;
    let r = st.reports[i];
    lemma_active_report_update(st.reports, i, ReportView { status: o.status, xml_file, ..r }, lmo, o.city, o.warning_kind);
    reveal_with_fuel(observations_run, 2);
    reveal_with_fuel(notification_count, 4);
    let acts = observations_run(st, lmo, cities, xml_file, obs).1;
    let step = observation_step(st, lmo, cities, xml_file, o).1;
    assert(acts =~= Seq::<ActionView>::empty() + step);
    let notify = ActionView::Notify { city: o.city, warning_kind: o.warning_kind, status: o.status };
    let update = ActionView::UpdateReport {
        city: o.city,
        warning_kind: o.warning_kind,
        status: o.status,
        xml_file,
    };
    if r.xml_file != xml_file {
        let register = ActionView::RegisterReference { xml_file };
        assert(step == seq![notify, update, register]);
        assert(seq![notify, update, register].drop_last() =~= seq![notify, update]);
        assert(seq![notify, update].drop_last() =~= seq![notify]);
        assert(seq![notify].drop_last() =~= Seq::<ActionView>::empty());
    } else {
        assert(step == seq![notify, update]);
        assert(seq![notify, update].drop_last() =~= seq![notify]);
        assert(seq![notify].drop_last() =~= Seq::<ActionView>::empty());
    }
}

/// Silent document rotation: an observation of a monitored city and named
/// kind whose active row holds the same status but another document is not
/// notified, and the row takes the new document.
pub proof fn lemma_document_rotation_is_silent(
    st: StoreView,
    lmo: Seq<char>,
    cities: Seq<Seq<char>>,
    o: WarningDataView,
    xml_file: Seq<char>,
)
    requires
        cities.contains(o.city),
        is_named(o),
        active_report(st.reports, lmo, o.city, o.warning_kind) is Some,
        st.reports[active_report(st.reports, lmo, o.city, o.warning_kind)->Some_0].status == o.status,
        st.reports[active_report(st.reports, lmo, o.city, o.warning_kind)->Some_0].xml_file != xml_file,
    ensures
        ({
            let i = active_report(st.reports, lmo, o.city, o.warning_kind)->Some_0;
            let (after, actions) = reconciled(st, lmo, cities, Some((seq![o], xml_file)));
            &&& notification_count(actions) == 0
            &&& active_report(after.reports, lmo, o.city, o.warning_kind) == Some(i)
            &&& after.reports[i].status == o.status
            &&& after.reports[i].xml_file == xml_file
        }),
{
    let obs = seq![o];
    assert(obs.drop_last() =~= Seq::<WarningDataView>::empty());
    lemma_active_report(st.reports, lmo, o.city, o.warning_kind);
    let i = active_report(st.reports, lmo, o.city, o.warning_kind)->Some_0;
    let r = st.reports[i];
    lemma_active_report_update(st.reports, i, ReportView { xml_file, ..r }, lmo, o.city, o.warning_kind);
    reveal_with_fuel(observations_run, 2);
    reveal_with_fuel(notification_count, 3);
    let acts = observations_run(st, lmo, cities, xml_file, obs).1;
    let step = observation_step(st, lmo, cities, xml_file, o).1;
    assert(acts =~= Seq::<ActionView>::empty() + step);
    let touch = ActionView::UpdateReportXmlFile { city: o.city, warning_kind: o.warning_kind, xml_file };
    let register = ActionView::RegisterReference { xml_file };
    assert(step == seq![touch, register]);
    assert(seq![touch, register].drop_last() =~= seq![touch]);
    assert(seq![touch].drop_last() =~= Seq::<ActionView>::empty());
}

/// A change that only marks rows deleted keeps active rows unique.
proof fn lemma_unique_after_marking(rs: Seq<ReportView>, out: Seq<ReportView>)
    requires
        unique_active(rs),
        out.len() == rs.len(),
        forall|k: int|
            0 <= k < rs.len() ==> (#[trigger] out[k]).lmo == rs[k].lmo && out[k].city == rs[k].city
                && out[k].warning_kind == rs[k].warning_kind && (!out[k].is_delete ==> !rs[k].is_delete),
    ensures
        unique_active(out),
{
    assert forall|i: int, j: int|
        0 <= i < out.len() && 0 <= j < out.len() && i != j && !(#[trigger] out[i]).is_delete
            && !(#[trigger] out[j]).is_delete implies !(out[i].lmo == out[j].lmo && out[i].city == out[j].city
        && out[i].warning_kind == out[j].warning_kind) by {
        assert(!rs[i].is_delete && !rs[j].is_delete);
    }
}

/// One observation keeps active rows unique.
proof fn lemma_step_keeps_unique(
    st: StoreView,
    lmo: Seq<char>,
    cities: Seq<Seq<char>>,
    xml_file: Seq<char>,
    o: WarningDataView,
)
    requires
        unique_active(st.reports),
    ensures
        unique_active(observation_step(st, lmo, cities, xml_file, o).0.reports),
{
    let rs = st.reports;
    let out = observation_step(st, lmo, cities, xml_file, o).0.reports;
    if !cities.contains(o.city) || !(is_all_clear(o) || is_named(o)) {
        return ;
    }
    if is_all_clear(o) {
        assert forall|k: int| 0 <= k < rs.len() implies (#[trigger] out[k]).lmo == rs[k].lmo && out[k].city
            == rs[k].city && out[k].warning_kind == rs[k].warning_kind && (!out[k].is_delete ==> !rs[k].is_delete) by {
            assert(out[k] == cleared_for_city(rs[k], lmo, o.city));
        }
        lemma_unique_after_marking(rs, out);
    } else {
        lemma_active_report(rs, lmo, o.city, o.warning_kind);
        match active_report(rs, lmo, o.city, o.warning_kind) {
            None => {
                let nr = new_report(lmo, o.city, o.warning_kind, o.status, xml_file);
                assert(out == rs.push(nr));
                assert forall|i: int, j: int|
                    0 <= i < out.len() && 0 <= j < out.len() && i != j && !(#[trigger] out[i]).is_delete
                        && !(#[trigger] out[j]).is_delete implies !(out[i].lmo == out[j].lmo && out[i].city
                    == out[j].city && out[i].warning_kind == out[j].warning_kind) by {
                    if i == rs.len() {
                        assert(!is_active_for(rs[j], lmo, o.city, o.warning_kind));
                    } else if j == rs.len() {
                        assert(!is_active_for(rs[i], lmo, o.city, o.warning_kind));
                    } else {
                        assert(out[i] == rs[i] && out[j] == rs[j]);
                    }
                }
            },
            Some(i2) => {
                assert forall|k: int| 0 <= k < rs.len() implies (#[trigger] out[k]).lmo == rs[k].lmo && out[k].city
                    == rs[k].city && out[k].warning_kind == rs[k].warning_kind && (!out[k].is_delete
                    ==> !rs[k].is_delete) by {
                    if k != i2 {
                        assert(out[k] == rs[k]);
                    }
                }
                lemma_unique_after_marking(rs, out);
            },
        }
    }
}

/// Reconciling a cycle of a publisher keeps at most one active row per
/// publisher, city and kind, when the store held no more before.
pub proof fn lemma_reconcile_keeps_unique(
    st: StoreView,
    lmo: Seq<char>,
    cities: Seq<Seq<char>>,
    latest: Option<(Seq<WarningDataView>, Seq<char>)>,
)
    requires
        unique_active(st.reports),
    ensures
        unique_active(reconciled(st, lmo, cities, latest).0.reports),
{
    match latest {
        None => {
            let out = clear_publisher(st.reports, lmo);
            assert forall|k: int| 0 <= k < st.reports.len() implies (#[trigger] out[k]).lmo == st.reports[k].lmo
                && out[k].city == st.reports[k].city && out[k].warning_kind == st.reports[k].warning_kind && (
            !out[k].is_delete ==> !st.reports[k].is_delete) by {
                assert(out[k] == cleared_for_publisher(st.reports[k], lmo));
            }
            lemma_unique_after_marking(st.reports, out);
        },
        Some((obs, xml_file)) => {
            lemma_run_keeps_unique(st, lmo, cities, xml_file, obs);
        },
    }
}

proof fn lemma_run_keeps_unique(
    st: StoreView,
    lmo: Seq<char>,
    cities: Seq<Seq<char>>,
    xml_file: Seq<char>,
    obs: Seq<WarningDataView>,
)
    requires
        unique_active(st.reports),
    ensures
        unique_active(observations_run(st, lmo, cities, xml_file, obs).0.reports),
    decreases obs.len(),
{
    if obs.len() > 0 {
        lemma_run_keeps_unique(st, lmo, cities, xml_file, obs.drop_last());
        let mid = observations_run(st, lmo, cities, xml_file, obs.drop_last()).0;
        lemma_step_keeps_unique(mid, lmo, cities, xml_file, obs.last());
    }
}

} // verus!
