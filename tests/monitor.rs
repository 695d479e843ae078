use mone::history::{Metric, NO_DATA};
use mone::monitor::events::Event;
use mone::monitor::Monitor;
use mone::{InterfaceInfo, InterfaceInfoItem, InterfaceStat, InterfaceStats};

fn info() -> InterfaceInfo {
    InterfaceInfo(vec![
        InterfaceInfoItem::new("lo".to_string()),
        InterfaceInfoItem::new("eth0".to_string()),
    ])
}

fn snap(a: Option<(u64, u64)>, b: Option<(u64, u64)>) -> InterfaceStats {
    let f = |o: Option<(u64, u64)>| o.map(|(rx, tx)| InterfaceStat { rx, tx });
    InterfaceStats(vec![f(a), f(b)])
}

#[test]
fn ticks_become_deltas_and_history() {
    let mut m = Monitor::new(&info(), snap(Some((100, 100)), Some((10, 10))), 2);
    assert!(m.is_running());
    let d = m.step(Event::Tick(snap(Some((150, 130)), None))).unwrap();
    assert_eq!(d.0, snap(Some((50, 30)), None).0);
    let d = m.step(Event::Tick(snap(Some((170, 131)), Some((20, 20))))).unwrap();
    assert_eq!(d.0, snap(Some((20, 1)), None).0);
    let h = m.history();
    assert_eq!(h.get_data(Metric::Rx, 0), vec![(1, 50), (2, 20)]);
    assert_eq!(h.get_data(Metric::Tx, 0), vec![(1, 30), (2, 1)]);
    assert_eq!(h.get_data(Metric::Rx, 1), vec![(1, NO_DATA), (2, NO_DATA)]);
}

#[test]
fn shutdown_is_terminal() {
    let mut m = Monitor::new(&info(), snap(None, None), 3);
    assert!(m.step(Event::Shutdown).is_none());
    assert!(!m.is_running());
    assert!(m.step(Event::Tick(snap(Some((1, 1)), None))).is_none());
    assert!(!m.is_running());
    assert_eq!(m.history().current(), 0);
}
