use cpu_temp_applet::label_pattern::LabelPattern;
use cpu_temp_applet::selection::{
    get_cpu_core_temps, get_overall_cpu_temp, get_overall_temperature_component_index,
    max_temperature, select_with_core_flags, SensorReading, TemperatureSelector,
    AMD_CORE_PATTERN, INTEL_CORE_PATTERN,
};

fn sensor(label: &str, temperature: Option<i64>) -> SensorReading {
    SensorReading { label: label.to_string(), temperature }
}

fn select(sensors: &Vec<SensorReading>) -> Option<i64> {
    let selector = TemperatureSelector::new().expect("the per-core patterns compile");
    selector.select_cpu_temperature(sensors)
}

#[test]
fn canonical_priority_prefers_tctl() {
    let sensors = vec![sensor("Package id 0", Some(50)), sensor("Tctl", Some(60))];
    assert_eq!(select(&sensors), Some(60));
}

#[test]
fn canonical_priority_ignores_enumeration_order() {
    let sensors = vec![sensor("Tctl", Some(60)), sensor("Package id 0", Some(50))];
    assert_eq!(select(&sensors), Some(60));
}

#[test]
fn canonical_beats_hotter_core() {
    let sensors = vec![sensor("CPU 0", Some(90)), sensor("CPU Temperature", Some(41))];
    assert_eq!(select(&sensors), Some(41));
}

#[test]
fn canonical_tie_keeps_first_seen() {
    let sensors = vec![sensor("Tctl", Some(50)), sensor("Tctl", Some(60))];
    assert_eq!(select(&sensors), Some(50));
}

#[test]
fn fallback_intel_cores_take_maximum() {
    let sensors = vec![sensor("CPU 0", Some(40)), sensor("CPU 1", Some(45))];
    assert_eq!(select(&sensors), Some(45));
}

#[test]
fn fallback_amd_cores_take_maximum() {
    let sensors = vec![sensor("Tctl0", Some(55)), sensor("Tctl1", Some(70))];
    assert_eq!(select(&sensors), Some(70));
}

#[test]
fn no_matching_label_gives_none() {
    let sensors = vec![sensor("Ambient", Some(30))];
    assert_eq!(select(&sensors), None);
}

#[test]
fn canonical_without_reading_falls_back() {
    let sensors = vec![sensor("Tctl", None), sensor("CPU 0", Some(42))];
    assert_eq!(select(&sensors), Some(42));
}

#[test]
fn empty_input_gives_none() {
    let sensors: Vec<SensorReading> = vec![];
    assert_eq!(select(&sensors), None);
}

#[test]
fn selection_is_idempotent() {
    let sensors = vec![
        sensor("CPU 3", Some(47)),
        sensor("Tctl2", Some(52)),
        sensor("Ambient", Some(30)),
    ];
    let selector = TemperatureSelector::new().expect("the per-core patterns compile");
    let first = selector.select_cpu_temperature(&sensors);
    let second = selector.select_cpu_temperature(&sensors);
    assert_eq!(first, second);
    assert_eq!(first, Some(52));
}

#[test]
fn two_digit_core_label_is_not_matched() {
    let sensors = vec![sensor("CPU 12", Some(80))];
    assert_eq!(select(&sensors), None);
    let sensors = vec![sensor("CPU 1", Some(30)), sensor("CPU 12", Some(80))];
    assert_eq!(select(&sensors), Some(30));
}

#[test]
fn core_labels_without_reading_give_none() {
    let sensors = vec![sensor("CPU 0", None), sensor("Tctl1", None)];
    assert_eq!(select(&sensors), None);
}

#[test]
fn negative_readings_are_ordered() {
    let sensors = vec![sensor("CPU 0", Some(-5)), sensor("CPU 1", Some(-2))];
    assert_eq!(select(&sensors), Some(-2));
}

#[test]
fn core_label_flags_follow_patterns() {
    let selector = TemperatureSelector::new().expect("the per-core patterns compile");
    let sensors = vec![
        sensor("CPU 7", Some(1)),
        sensor("Tctl9", Some(1)),
        sensor("CPU 12", Some(1)),
        sensor("Tctl", Some(1)),
        sensor("xCPU 1", Some(1)),
        sensor("Tctl10", Some(1)),
    ];
    assert_eq!(
        selector.core_label_flags(&sensors),
        vec![true, true, false, false, false, false]
    );
}

#[test]
fn label_pattern_matches_its_source() {
    let p = LabelPattern::new(INTEL_CORE_PATTERN).expect("compiles");
    assert!(p.is_match("CPU 4"));
    assert!(!p.is_match("CPU 44"));
    assert!(!p.is_match(INTEL_CORE_PATTERN));
    let q = LabelPattern::new(AMD_CORE_PATTERN).expect("compiles");
    assert!(q.is_match("Tctl4"));
    assert!(!q.is_match("Tctl"));
}

#[test]
fn invalid_pattern_is_rejected() {
    assert!(LabelPattern::new("CPU [").is_none());
}

#[test]
fn priority_index_follows_label_order() {
    assert_eq!(get_overall_temperature_component_index(&"Tctl".to_string()), Some(0));
    assert_eq!(get_overall_temperature_component_index(&"Package id 0".to_string()), Some(1));
    assert_eq!(get_overall_temperature_component_index(&"CPU Temperature".to_string()), Some(2));
    assert_eq!(get_overall_temperature_component_index(&"tctl".to_string()), None);
}

#[test]
fn overall_temp_skips_sensors_without_reading() {
    let sensors = vec![
        sensor("Tctl", None),
        sensor("CPU Temperature", Some(33)),
        sensor("Package id 0", Some(44)),
    ];
    assert_eq!(get_overall_cpu_temp(&sensors), Some(44));
}

#[test]
fn core_temps_keep_order_of_marked_sensors() {
    let sensors = vec![
        sensor("a", Some(1)),
        sensor("b", None),
        sensor("c", Some(3)),
        sensor("d", Some(4)),
    ];
    assert_eq!(get_cpu_core_temps(&sensors, &vec![true, true, false, true]), vec![1, 4]);
    assert_eq!(get_cpu_core_temps(&sensors, &vec![false, false, true]), vec![3]);
}

#[test]
fn max_temperature_of_list() {
    assert_eq!(max_temperature(&vec![]), None);
    assert_eq!(max_temperature(&vec![7]), Some(7));
    assert_eq!(max_temperature(&vec![3, 9, 9, -1]), Some(9));
}

#[test]
fn select_with_flags_uses_canonical_first() {
    let sensors = vec![sensor("x", Some(99)), sensor("Package id 0", Some(50))];
    assert_eq!(select_with_core_flags(&sensors, &vec![true, false]), Some(50));
    let sensors = vec![sensor("x", Some(99)), sensor("y", Some(50))];
    assert_eq!(select_with_core_flags(&sensors, &vec![true, true]), Some(99));
    assert_eq!(select_with_core_flags(&sensors, &vec![]), None);
}
