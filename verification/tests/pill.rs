use v_voice::pill::{
    anchor_monitor, monitor_fingerprint, pill_candidates, saved_pill_position, Float64,
    MonitorInfo, PillPosition, PillPositions, Place,
};

fn position(x: f64, y: f64) -> PillPosition {
    PillPosition { x: Float64 { bits: x.to_bits() }, y: Float64 { bits: y.to_bits() } }
}

fn monitor(name: Option<&str>, width: u32, height: u32) -> MonitorInfo {
    MonitorInfo { name: name.map(|n| n.to_string()), width, height }
}

#[test]
fn a_fingerprint_is_name_and_size() {
    assert_eq!(monitor_fingerprint(&monitor(Some("DISPLAY1"), 1920, 1080)), "DISPLAY1_1920x1080");
    assert_eq!(monitor_fingerprint(&monitor(None, 0, 7)), "unknown_0x7");
}

#[test]
fn fingerprints_tell_sizes_apart() {
    let all = [
        monitor(Some("A"), 12, 3),
        monitor(Some("A"), 1, 23),
        monitor(Some("A"), 123, 0),
        monitor(Some("A"), 12, 30),
    ];
    for (i, a) in all.iter().enumerate() {
        for b in &all[i + 1..] {
            assert_ne!(monitor_fingerprint(a), monitor_fingerprint(b));
        }
    }
    assert_eq!(
        monitor_fingerprint(&all[0]),
        monitor_fingerprint(&monitor(Some("A"), 12, 3))
    );
}

#[test]
fn one_position_is_kept_for_each_fingerprint() {
    let mut kept = PillPositions::new();
    assert!(kept.is_empty());
    assert!(kept.get("a").is_none());
    kept.insert("a".to_string(), position(1.0, 2.0));
    kept.insert("b".to_string(), position(3.0, 4.0));
    kept.insert("a".to_string(), position(5.0, 6.0));
    assert!(!kept.is_empty());
    assert_eq!(kept.entries().len(), 2);
    assert!(kept.get("a") == Some(position(5.0, 6.0)));
    assert!(kept.get("b") == Some(position(3.0, 4.0)));
    let copy = kept.clone();
    kept.insert("b".to_string(), position(0.0, 0.0));
    assert!(copy.get("b") == Some(position(3.0, 4.0)));
}

#[test]
fn every_monitor_is_looked_at_once_with_the_primary_first() {
    let mut kept = PillPositions::new();
    kept.insert("A_10x10".to_string(), position(1.0, 1.0));
    kept.insert("B_20x20".to_string(), position(2.0, 2.0));
    kept.insert("C_30x30".to_string(), position(3.0, 3.0));
    let primary = Some(monitor(Some("B"), 20, 20));
    let listed = vec![
        monitor(Some("A"), 10, 10),
        monitor(Some("B"), 20, 20),
        monitor(Some("D"), 40, 40),
        monitor(Some("A"), 10, 10),
    ];
    let found = pill_candidates(&kept, &primary, &listed);
    assert_eq!(found.len(), 2);
    assert!(found[0].place == Place::Primary);
    assert!(found[0].position == position(2.0, 2.0));
    assert!(found[1].place == Place::Listed(0));
    assert!(found[1].position == position(1.0, 1.0));
}

#[test]
fn without_positions_or_monitors_there_are_no_candidates() {
    let mut kept = PillPositions::new();
    let listed = vec![monitor(Some("A"), 10, 10)];
    assert!(pill_candidates(&kept, &None, &listed).is_empty());
    kept.insert("A_10x10".to_string(), position(1.0, 1.0));
    assert!(pill_candidates(&kept, &None, &vec![]).is_empty());
    assert_eq!(pill_candidates(&kept, &None, &listed).len(), 1);
}

#[test]
fn the_first_candidate_on_its_screen_is_chosen() {
    assert_eq!(saved_pill_position(&vec![]), None);
    assert_eq!(saved_pill_position(&vec![false, false]), None);
    assert_eq!(saved_pill_position(&vec![false, true, true]), Some(1));
}

#[test]
fn a_position_is_anchored_to_an_attached_monitor() {
    assert!(anchor_monitor(&vec![false, true, true], true) == Some(Place::Listed(1)));
    assert!(anchor_monitor(&vec![false, false], true) == Some(Place::Primary));
    assert!(anchor_monitor(&vec![false, false], false) == Some(Place::Listed(0)));
    assert!(anchor_monitor(&vec![], true) == Some(Place::Primary));
    assert!(anchor_monitor(&vec![], false).is_none());
}

#[test]
fn the_only_kept_position_is_restored() {
    let primary = Some(monitor(Some("A"), 10, 10));
    let listed = vec![monitor(Some("A"), 10, 10), monitor(Some("B"), 20, 20)];
    let place = anchor_monitor(&vec![false, true], true).unwrap();
    assert!(place == Place::Listed(1));
    let mut kept = PillPositions::new();
    kept.insert(monitor_fingerprint(&listed[1]), position(3.0, 4.0));
    let found = pill_candidates(&kept, &primary, &listed);
    assert_eq!(found.len(), 1);
    assert!(found[0].place == place && found[0].position == position(3.0, 4.0));
    assert_eq!(saved_pill_position(&vec![true]), Some(0));
}

#[test]
fn a_kept_position_is_found_again() {
    let primary = Some(monitor(Some("A"), 10, 10));
    let listed = vec![monitor(Some("A"), 10, 10), monitor(Some("B"), 20, 20)];
    for under_centre in [vec![false, true], vec![true, false], vec![false, false]] {
        let place = anchor_monitor(&under_centre, true).unwrap();
        let fingerprint = match place {
            Place::Primary => monitor_fingerprint(primary.as_ref().unwrap()),
            Place::Listed(i) => monitor_fingerprint(&listed[i]),
        };
        let mut kept = PillPositions::new();
        kept.insert(fingerprint, position(7.0, 8.0));
        let found = pill_candidates(&kept, &primary, &listed);
        assert_eq!(found.len(), 1);
        assert!(found[0].position == position(7.0, 8.0));
    }
}
