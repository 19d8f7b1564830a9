use vstd::prelude::*;

use crate::selection::{
    canonical_choice, core_temps, core_temps_prefix, cpu_temperature, flagged, label_priority,
    max_of, select_with_core_flags_spec, SensorReading,
};

verus! {

/// Whether the `i`th sensor of `s` has a whole-CPU label and a reading.
pub open spec fn usable_canonical(s: Seq<SensorReading>, i: int) -> bool {
    label_priority(s[i].label@) is Some && s[i].temperature is Some
}

/// Whether the `i`th sensor of `s` is marked as per-core and has a reading.
pub open spec fn usable_core(s: Seq<SensorReading>, core: Seq<bool>, i: int) -> bool {
    flagged(core, i) && s[i].temperature is Some
}

proof fn lemma_canonical_choice(s: Seq<SensorReading>)
    ensures
        canonical_choice(s) is None <==> forall|i: int| 0 <= i < s.len() ==> !usable_canonical(s, i),
        canonical_choice(s) matches Some((p, t)) ==> exists|i: int|
            0 <= i < s.len() && usable_canonical(s, i) && label_priority(s[i].label@) == Some(p)
                && s[i].temperature == Some(t) && (forall|j: int|
                0 <= j < i && usable_canonical(s, j) ==> label_priority(s[j].label@)->0 > p),
        canonical_choice(s) matches Some((p, t)) ==> forall|j: int|
            0 <= j < s.len() && usable_canonical(s, j) ==> p <= label_priority(s[j].label@)->0,
    decreases s.len(),
{
    if s.len() > 0 {
        let d = s.drop_last();
        let n = s.len() - 1;
        lemma_canonical_choice(d);
        assert(s.last() == s[n]);
        assert forall|i: int|
            #![trigger usable_canonical(d, i)]
            #![trigger usable_canonical(s, i)]
            0 <= i < d.len() implies usable_canonical(d, i) == usable_canonical(s, i) && d[i]
                == s[i] by {
            assert(d[i] == s[i]);
        }
        if usable_canonical(s, n) {
            let p = label_priority(s[n].label@)->0;
            match canonical_choice(d) {
                Some((bp, bt)) => {
                    let i = choose|i: int|
                        0 <= i < d.len() && usable_canonical(d, i) && label_priority(d[i].label@)
                            == Some(bp) && d[i].temperature == Some(bt) && (forall|j: int|
                            0 <= j < i && usable_canonical(d, j) ==> label_priority(
                                d[j].label@,
                            )->0 > bp);
                    if p < bp {
                        assert(canonical_choice(s) == Some((p, s[n].temperature->0)));
                        assert(exists|i: int|
                            0 <= i < s.len() && usable_canonical(s, i) && label_priority(s[i].label@) == Some(p)
                                && s[i].temperature == Some(s[n].temperature->0) && (forall|j: int|
                                0 <= j < i && usable_canonical(s, j) ==> label_priority(s[j].label@)->0 > p)) by {
                            assert forall|j: int| 0 <= j < n && usable_canonical(s, j) implies label_priority(
                                s[j].label@,
                            )->0 > p by {
                                assert(usable_canonical(d, j) && d[j] == s[j]);
                            }
                            assert(usable_canonical(s, n));
                        }
                    } else {
                        assert(canonical_choice(s) == Some((bp, bt)));
                        assert(usable_canonical(s, i));
                        assert(exists|i: int|
                            0 <= i < s.len() && usable_canonical(s, i) && label_priority(s[i].label@) == Some(bp)
                                && s[i].temperature == Some(bt) && (forall|j: int|
                                0 <= j < i && usable_canonical(s, j) ==> label_priority(s[j].label@)->0 > bp)) by {
                            assert forall|j: int| 0 <= j < i && usable_canonical(s, j) implies label_priority(
                                s[j].label@,
                            )->0 > bp by {
                                assert(usable_canonical(d, j) && d[j] == s[j]);
                            }
                            assert(usable_canonical(s, i));
                        }
                    }
                },
                None => {
                    assert(canonical_choice(s) == Some((p, s[n].temperature->0)));
                    assert(exists|i: int|
                        0 <= i < s.len() && usable_canonical(s, i) && label_priority(s[i].label@) == Some(p)
                            && s[i].temperature == Some(s[n].temperature->0) && (forall|j: int|
                            0 <= j < i && usable_canonical(s, j) ==> label_priority(s[j].label@)->0 > p)) by {
                        assert(usable_canonical(s, n));
                    }
                },
            }
        } else {
            assert(canonical_choice(s) == canonical_choice(d));
            if let Some((bp, bt)) = canonical_choice(d) {
                let i = choose|i: int|
                    0 <= i < d.len() && usable_canonical(d, i) && label_priority(d[i].label@)
                        == Some(bp) && d[i].temperature == Some(bt) && (forall|j: int|
                        0 <= j < i && usable_canonical(d, j) ==> label_priority(d[j].label@)->0
                            > bp);
                assert(usable_canonical(s, i));
            }
        }
    }
}

proof fn lemma_core_temps_prefix(s: Seq<SensorReading>, core: Seq<bool>, n: int)
    requires
        0 <= n <= s.len(),
    ensures
        forall|k: int| 0 <= k < core_temps_prefix(s, core, n).len() ==> exists|i: int|
            0 <= i < n && usable_core(s, core, i) && s[i].temperature == Some(
                #[trigger] core_temps_prefix(s, core, n)[k],
            ),
        forall|i: int| 0 <= i < n && usable_core(s, core, i) ==> exists|k: int|
            0 <= k < core_temps_prefix(s, core, n).len() && s[i].temperature == Some(
                #[trigger] core_temps_prefix(s, core, n)[k],
            ),
    decreases n,
{
    if n > 0 {
        lemma_core_temps_prefix(s, core, n - 1);
        let prev = core_temps_prefix(s, core, n - 1);
        let cur = core_temps_prefix(s, core, n);
        if usable_core(s, core, n - 1) {
            assert(cur == prev.push(s[n - 1].temperature->0));
            assert forall|k: int| 0 <= k < cur.len() implies exists|i: int|
                0 <= i < n && usable_core(s, core, i) && s[i].temperature == Some(
                    #[trigger] cur[k],
                ) by {
                if k < prev.len() {
                    assert(cur[k] == prev[k]);
                } else {
                    assert(s[n - 1].temperature == Some(cur[k]));
                }
            }
            assert forall|i: int| 0 <= i < n && usable_core(s, core, i) implies exists|k: int|
                0 <= k < cur.len() && s[i].temperature == Some(#[trigger] cur[k]) by {
                if i < n - 1 {
                    let k = choose|k: int|
                        0 <= k < prev.len() && s[i].temperature == Some(#[trigger] prev[k]);
                    assert(cur[k] == prev[k]);
                } else {
                    assert(cur[prev.len() as int] == s[n - 1].temperature->0);
                }
            }
        }
    }
}

proof fn lemma_max_of(s: Seq<i64>)
    requires
        s.len() > 0,
    ensures
        exists|k: int| 0 <= k < s.len() && s[k] == max_of(s),
        forall|k: int| 0 <= k < s.len() ==> s[k] <= max_of(s),
    decreases s.len(),
{
    if s.len() == 1 {
        assert(s[0] == max_of(s));
    } else {
        let d = s.drop_last();
        lemma_max_of(d);
        assert(forall|k: int| 0 <= k < d.len() ==> d[k] == s[k]);
        if s.last() <= max_of(d) {
            let k = choose|k: int| 0 <= k < d.len() && d[k] == max_of(d);
            assert(s[k] == max_of(s));
        } else {
            assert(s[s.len() - 1] == max_of(s));
        }
    }
}

/// What the selection returns, stated without reference to how it is
/// computed. When some sensor has a whole-CPU label and a reading, the result
/// is the reading of the first such sensor among those of the best priority.
/// Otherwise it is the largest reading of a per-core sensor, and `None` when
/// no per-core sensor has a reading.
pub proof fn lemma_selection_characterized(s: Seq<SensorReading>, core: Seq<bool>)
    ensures
        (exists|i: int| 0 <= i < s.len() && usable_canonical(s, i)) ==> exists|i: int|
            0 <= i < s.len() && usable_canonical(s, i) && select_with_core_flags_spec(s, core)
                == s[i].temperature && (forall|j: int|
                0 <= j < i && usable_canonical(s, j) ==> label_priority(s[j].label@)->0
                    > label_priority(s[i].label@)->0) && (forall|j: int|
                0 <= j < s.len() && usable_canonical(s, j) ==> label_priority(s[i].label@)->0
                    <= label_priority(s[j].label@)->0),
        (forall|i: int| 0 <= i < s.len() ==> !usable_canonical(s, i)) ==> match select_with_core_flags_spec(s, core) {
            Some(t) => (exists|i: int| 0 <= i < s.len() && usable_core(s, core, i)
                && s[i].temperature == Some(t)) && (forall|j: int|
                0 <= j < s.len() && usable_core(s, core, j) ==> s[j].temperature->0 <= t),
            None => forall|i: int| 0 <= i < s.len() ==> !usable_core(s, core, i),
        },
{
    lemma_canonical_choice(s);
    lemma_core_temps_prefix(s, core, s.len() as int);
    let temps = core_temps(s, core);
    if temps.len() > 0 {
        lemma_max_of(temps);
        let m = max_of(temps);
        let k = choose|k: int| 0 <= k < temps.len() && temps[k] == m;
        assert(exists|i: int| 0 <= i < s.len() && usable_core(s, core, i) && s[i].temperature == Some(
            #[trigger] temps[k],
        ));
        assert forall|j: int| 0 <= j < s.len() && usable_core(s, core, j) implies s[j].temperature->0
            <= m by {
            let k2 = choose|k2: int| 0 <= k2 < temps.len() && s[j].temperature == Some(#[trigger] temps[k2]);
        }
    } else {
        assert forall|i: int| 0 <= i < s.len() implies !usable_core(s, core, i) by {
            if usable_core(s, core, i) {
                let k = choose|k: int| 0 <= k < temps.len() && s[i].temperature == Some(#[trigger] temps[k]);
            }
        }
    }
}

/// A selected value is always the reading of some sensor of the input:
/// selection never averages or makes up a value.
pub proof fn lemma_selected_reading_is_reported(s: Seq<SensorReading>, core: Seq<bool>)
    ensures
        select_with_core_flags_spec(s, core) matches Some(t) ==> exists|i: int|
            0 <= i < s.len() && s[i].temperature == Some(t),
{
    lemma_selection_characterized(s, core);
}

/// Selection is a function of the sensors alone: two queries on the same
/// sensors, in the same order, give the same result.
pub proof fn lemma_selection_deterministic(a: Seq<SensorReading>, b: Seq<SensorReading>)
    requires
        a == b,
    ensures
        cpu_temperature(a) == cpu_temperature(b),
{
}

} // verus!
