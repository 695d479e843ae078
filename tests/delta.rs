use mone::{InterfaceStat, InterfaceStats};

fn stat(rx: u64, tx: u64) -> Option<InterfaceStat> {
    Some(InterfaceStat { rx, tx })
}

#[test]
fn delta_of_growing_counters() {
    let a = InterfaceStats(vec![stat(1000, 500)]);
    let b = InterfaceStats(vec![stat(1500, 900)]);
    let d = b.delta_from(&a);
    assert_eq!(d.0, vec![stat(500, 400)]);
}

#[test]
fn delta_absent_on_rx_reset() {
    let a = InterfaceStats(vec![stat(1000, 500)]);
    let b = InterfaceStats(vec![stat(100, 900)]);
    let d = b.delta_from(&a);
    assert_eq!(d.0, vec![None]);
}

#[test]
fn delta_absent_on_tx_reset() {
    let a = InterfaceStats(vec![stat(1000, 500)]);
    let b = InterfaceStats(vec![stat(2000, 499)]);
    assert_eq!(b.delta_from(&a).0, vec![None]);
}

#[test]
fn delta_absent_where_either_slot_is_absent() {
    let a = InterfaceStats(vec![None, stat(10, 10), stat(1, 2)]);
    let b = InterfaceStats(vec![stat(5, 5), None, stat(4, 8)]);
    let d = b.delta_from(&a);
    assert_eq!(d.0, vec![None, None, stat(3, 6)]);
}

#[test]
fn delta_of_equal_counters_is_zero() {
    let a = InterfaceStats(vec![stat(u64::MAX, 0)]);
    let d = a.delta_from(&a);
    assert_eq!(d.0, vec![stat(0, 0)]);
}

#[test]
fn delta_of_empty_snapshots_is_empty() {
    let a = InterfaceStats(vec![]);
    assert_eq!(a.delta_from(&a).0.len(), 0);
}

#[test]
fn single_stat_delta() {
    let prev = InterfaceStat { rx: 7, tx: 9 };
    let cur = InterfaceStat { rx: 10, tx: 19 };
    assert_eq!(cur.delta_from(&prev), Some(InterfaceStat { rx: 3, tx: 10 }));
    assert_eq!(prev.delta_from(&cur), None);
}

#[test]
fn empty_snapshot_has_absent_slots() {
    let e = InterfaceStats::empty(3);
    assert_eq!(e.0, vec![None, None, None]);
    assert_eq!(e.len(), 3);
}

#[test]
fn interface_header_pads_and_joins() {
    let info = mone::InterfaceInfo(vec![
        mone::InterfaceInfoItem::new("lo".to_string()),
        mone::InterfaceInfoItem::new("a-very-long-interface".to_string()),
        mone::InterfaceInfoItem::new("eth0".to_string()),
    ]);
    assert_eq!(
        info.to_display_string(),
        "lo                | a-very-long-interface | eth0             "
    );
    assert_eq!(info.0[0].to_display_string(), format!("{:<17}", "lo"));
    assert_eq!(mone::InterfaceInfo(vec![]).to_display_string(), "");
}
