use vstd::prelude::*;

use crate::label_pattern::{regex_is_match, LabelPattern};

verus! {

/// Matches the label of an Intel per-core sensor: `CPU ` and one digit.
pub const INTEL_CORE_PATTERN: &'static str = "^CPU [\\d]{1}$";

/// Matches the label of an AMD per-core sensor: `Tctl` and one digit.
pub const AMD_CORE_PATTERN: &'static str = "^Tctl[\\d]{1}$";

/// One thermal sensor as the platform reports it.
///
/// `temperature` is `None` when the sensor currently reports no value. A
/// reading is an integer whose order is the order of the temperatures it
/// stands for; selection only compares and returns readings, so any such
/// encoding of a Celsius value will do.
#[derive(Clone, Debug)]
pub struct SensorReading {
    pub label: String,
    pub temperature: Option<i64>,
}

/// The labels of sensors that report the temperature of the whole CPU,
/// highest priority first: the AMD package, the Intel package, and the CPU
/// temperature that some motherboards report.
pub open spec fn overall_cpu_labels() -> Seq<Seq<char>> {
    seq!["Tctl"@, "Package id 0"@, "CPU Temperature"@]
}

/// The position of `label` in `overall_cpu_labels()`, if it is there.
pub open spec fn label_priority(label: Seq<char>) -> Option<nat> {
    if label == overall_cpu_labels()[0] {
        Some(0)
    } else if label == overall_cpu_labels()[1] {
        Some(1)
    } else if label == overall_cpu_labels()[2] {
        Some(2)
    } else {
        None
    }
}

/// The best canonical sensor among `s`, as its priority and reading: of the
/// sensors with a canonical label and a reading, the one of lowest priority
/// index, the earliest one on a tie.
pub open spec fn canonical_choice(s: Seq<SensorReading>) -> Option<(nat, i64)>
    decreases s.len(),
{
    if s.len() == 0 {
        None
    } else {
        let prev = canonical_choice(s.drop_last());
        match (label_priority(s.last().label@), s.last().temperature) {
            (Some(p), Some(t)) => match prev {
                Some((bp, _)) => if p < bp {
                    Some((p, t))
                } else {
                    prev
                },
                None => Some((p, t)),
            },
            _ => prev,
        }
    }
}

/// The reading of the best canonical sensor among `s`.
pub open spec fn canonical_temperature(s: Seq<SensorReading>) -> Option<i64> {
    match canonical_choice(s) {
        Some((_, t)) => Some(t),
        None => None,
    }
}

/// Whether the `i`th sensor is marked as a per-core sensor; a flag that is
/// missing counts as unmarked.
pub open spec fn flagged(core: Seq<bool>, i: int) -> bool {
    0 <= i < core.len() && core[i]
}

/// The readings, in order, of the sensors among the first `n` of `s` that are
/// marked in `core` as per-core sensors and have a reading.
pub open spec fn core_temps_prefix(s: Seq<SensorReading>, core: Seq<bool>, n: int) -> Seq<i64>
    decreases n,
{
    if n <= 0 {
        seq![]
    } else {
        let prev = core_temps_prefix(s, core, n - 1);
        if flagged(core, n - 1) && s[n - 1].temperature is Some {
            prev.push(s[n - 1].temperature->0)
        } else {
            prev
        }
    }
}

/// The readings, in order, of the sensors of `s` that are marked in `core` as
/// per-core sensors and have a reading.
pub open spec fn core_temps(s: Seq<SensorReading>, core: Seq<bool>) -> Seq<i64> {
    core_temps_prefix(s, core, s.len() as int)
}

/// The largest element of a non-empty `s`.
pub open spec fn max_of(s: Seq<i64>) -> i64
    decreases s.len(),
{
    if s.len() <= 1 {
        s[0]
    } else {
        let m = max_of(s.drop_last());
        if s.last() > m {
            s.last()
        } else {
            m
        }
    }
}

/// The largest element of `s`, `None` when it is empty.
pub open spec fn max_reading(s: Seq<i64>) -> Option<i64> {
    if s.len() == 0 {
        None
    } else {
        Some(max_of(s))
    }
}

/// The selected CPU temperature, given which sensors are per-core ones: the
/// best canonical reading if there is one, else the hottest per-core reading.
pub open spec fn select_with_core_flags_spec(s: Seq<SensorReading>, core: Seq<bool>) -> Option<i64> {
    match canonical_temperature(s) {
        Some(t) => Some(t),
        None => max_reading(core_temps(s, core)),
    }
}

/// Whether `label` names a per-core sensor, by either vendor's pattern.
pub open spec fn is_core_label(label: Seq<char>) -> bool {
    regex_is_match(INTEL_CORE_PATTERN@, label) || regex_is_match(AMD_CORE_PATTERN@, label)
}

/// Which sensors of `s` are per-core sensors.
pub open spec fn core_flags(s: Seq<SensorReading>) -> Seq<bool> {
    Seq::new(s.len(), |i: int| is_core_label(s[i].label@))
}

/// The CPU temperature selected from the sensors `s`.
pub open spec fn cpu_temperature(s: Seq<SensorReading>) -> Option<i64> {
    select_with_core_flags_spec(s, core_flags(s))
}

/// The priority of a sensor's label: its position among the labels of
/// whole-CPU sensors, lower first, or `None` when it is not one of them.
pub fn get_overall_temperature_component_index(label: &String) -> (r: Option<usize>)
    ensures
        r matches Some(i) ==> label_priority(label@) == Some(i as nat),
        r is None ==> label_priority(label@) is None,
{
    if *label == "Tctl".to_owned() {
        Some(0)
    } else if *label == "Package id 0".to_owned() {
        Some(1)
    } else if *label == "CPU Temperature".to_owned() {
        Some(2)
    } else {
        None
    }
}

/// The reading of the best whole-CPU sensor: among the sensors with a label
/// of `overall_cpu_labels()` and a reading, the one of highest priority, the
/// first one met on a tie.
pub fn get_overall_cpu_temp(sensors: &Vec<SensorReading>) -> (r: Option<i64>)
    ensures
        r == canonical_temperature(sensors@),
{
    let mut best: Option<(usize, i64)> = None;
    let mut i: usize = 0;
    while i < sensors.len()
        invariant
            i <= sensors@.len(),
            match (best, canonical_choice(sensors@.take(i as int))) {
                (Some((p, t)), Some((sp, st))) => p as nat == sp && t == st,
                (None, None) => true,
                _ => false,
            },
        decreases sensors@.len() - i,
    {
        let sensor = &sensors[i];
        assert(sensors@.take(i + 1).drop_last() == sensors@.take(i as int));
        assert(sensors@.take(i + 1).last() == sensors@[i as int]);
        match (get_overall_temperature_component_index(&sensor.label), sensor.temperature) {
            (Some(priority), Some(t)) => {
                let replace = match best {
                    Some((current, _)) => priority < current,
                    None => true,
                };
                if replace {
                    best = Some((priority, t));
                }
            },
            _ => {},
        }
        i = i + 1;
    }
    assert(sensors@.take(sensors@.len() as int) == sensors@);
    match best {
        Some((_, t)) => Some(t),
        None => None,
    }
}

/// The readings, in order, of the sensors that `core` marks as per-core
/// sensors and that have a reading.
pub fn get_cpu_core_temps(sensors: &Vec<SensorReading>, core: &Vec<bool>) -> (r: Vec<i64>)
    ensures
        r@ == core_temps(sensors@, core@),
{
    let mut temps: Vec<i64> = Vec::new();
    let mut i: usize = 0;
    while i < sensors.len()
        invariant
            i <= sensors@.len(),
            temps@ == core_temps_prefix(sensors@, core@, i as int),
        decreases sensors@.len() - i,
    {
        let is_core = i < core.len() && core[i];
        if is_core {
            if let Some(t) = sensors[i].temperature {
                temps.push(t);
            }
        }
        i = i + 1;
    }
    temps
}

/// The largest of `temps`, `None` when there is none.
pub fn max_temperature(temps: &Vec<i64>) -> (r: Option<i64>)
    ensures
        r == max_reading(temps@),
{
    if temps.len() == 0 {
        return None;
    }
    let mut best: i64 = temps[0];
    let mut i: usize = 1;
    while i < temps.len()
        invariant
            1 <= i <= temps@.len(),
            best == max_of(temps@.take(i as int)),
        decreases temps@.len() - i,
    {
        assert(temps@.take(i + 1).drop_last() == temps@.take(i as int));
        if temps[i] > best {
            best = temps[i];
        }
        i = i + 1;
    }
    assert(temps@.take(temps@.len() as int) == temps@);
    Some(best)
}

/// Selects the CPU temperature from `sensors`, where `core[i]` says whether
/// the `i`th sensor is a per-core one (a missing flag counts as `false`).
///
/// The reading of the best whole-CPU sensor wins; only when there is none is
/// the hottest per-core reading taken. `None` when neither exists.
pub fn select_with_core_flags(sensors: &Vec<SensorReading>, core: &Vec<bool>) -> (r: Option<i64>)
    ensures
        r == select_with_core_flags_spec(sensors@, core@),
{
    let overall = get_overall_cpu_temp(sensors);
    if overall.is_some() {
        return overall;
    }
    let temps = get_cpu_core_temps(sensors, core);
    max_temperature(&temps)
}

/// Selects the CPU temperature from a platform's sensors, with the per-core
/// label patterns compiled once.
pub struct TemperatureSelector {
    intel_core: LabelPattern,
    amd_core: LabelPattern,
}

impl TemperatureSelector {
    /// Whether the selector holds the two per-core patterns.
    pub closed spec fn wf(&self) -> bool {
        &&& self.intel_core.source_spec() == INTEL_CORE_PATTERN@
        &&& self.amd_core.source_spec() == AMD_CORE_PATTERN@
    }

    /// Compiles the per-core label patterns; `None` if either fails to compile.
    pub fn new() -> (r: Option<TemperatureSelector>)
        ensures
            r matches Some(sel) ==> sel.wf(),
    {
        let intel_core = LabelPattern::new(INTEL_CORE_PATTERN);
        let amd_core = LabelPattern::new(AMD_CORE_PATTERN);
        match (intel_core, amd_core) {
            (Some(intel_core), Some(amd_core)) => Some(TemperatureSelector { intel_core, amd_core }),
            _ => None,
        }
    }

    /// Whether `label` names a per-core sensor, by either vendor's pattern.
    pub fn is_core_label(&self, label: &String) -> (r: bool)
        requires
            self.wf(),
        ensures
            r == is_core_label(label@),
    {
        self.intel_core.is_match(label.as_str()) || self.amd_core.is_match(label.as_str())
    }

    /// For each sensor, whether it is a per-core one.
    pub fn core_label_flags(&self, sensors: &Vec<SensorReading>) -> (r: Vec<bool>)
        requires
            self.wf(),
        ensures
            r@ == core_flags(sensors@),
    {
        let mut flags: Vec<bool> = Vec::new();
        let mut i: usize = 0;
        while i < sensors.len()
            invariant
                self.wf(),
                i <= sensors@.len(),
                flags@.len() == i,
                forall|j: int| 0 <= j < i ==> flags@[j] == is_core_label(sensors@[j].label@),
            decreases sensors@.len() - i,
        {
            let f = self.is_core_label(&sensors[i].label);
            flags.push(f);
            i = i + 1;
        }
        assert(flags@ =~= core_flags(sensors@));
        flags
    }

    /// Selects the CPU temperature from `sensors`: the reading of the best
    /// whole-CPU sensor if one has a reading, else the hottest reading of a
    /// per-core sensor, else `None`.
    pub fn select_cpu_temperature(&self, sensors: &Vec<SensorReading>) -> (r: Option<i64>)
        requires
            self.wf(),
        ensures
            r == cpu_temperature(sensors@),
    {
        let flags = self.core_label_flags(sensors);
        select_with_core_flags(sensors, &flags)
    }
}

} // verus!
