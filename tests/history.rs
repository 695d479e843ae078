use mone::history::{History, Metric, NO_DATA};
use mone::{InterfaceInfo, InterfaceInfoItem, InterfaceStat, InterfaceStats};

fn info(n: usize) -> InterfaceInfo {
    InterfaceInfo((0..n).map(|i| InterfaceInfoItem::new(format!("eth{}", i))).collect())
}

fn one(rx: u64, tx: u64) -> InterfaceStats {
    InterfaceStats(vec![Some(InterfaceStat { rx, tx })])
}

#[test]
fn new_history_is_blank() {
    let h = History::empty(&info(2), 3);
    assert_eq!(h.current(), 0);
    assert_eq!(h.n_histories(), 3);
    for m in Metric::variants().iter() {
        for i in 0..2 {
            assert_eq!(h.get_data(*m, i), vec![(0, NO_DATA); 3]);
        }
    }
}

#[test]
fn window_keeps_latest_three() {
    let mut h = History::empty(&info(1), 3);
    for v in [10u64, 20, 30, 40].iter() {
        h.push_back_pop_front(&one(*v, *v + 1));
    }
    assert_eq!(h.get_data(Metric::Rx, 0), vec![(2, 20), (3, 30), (4, 40)]);
    assert_eq!(h.get_data(Metric::Tx, 0), vec![(2, 21), (3, 31), (4, 41)]);
    assert_eq!(h.current(), 4);
}

#[test]
fn absent_delta_records_no_data() {
    let mut h = History::empty(&info(2), 2);
    let diff = InterfaceStats(vec![None, Some(InterfaceStat { rx: 5, tx: 6 })]);
    h.push_back_pop_front(&diff);
    assert_eq!(h.get_data(Metric::Rx, 0), vec![(0, NO_DATA), (1, NO_DATA)]);
    assert_eq!(h.get_data(Metric::Tx, 0).len(), 2);
    assert_eq!(h.get_data(Metric::Rx, 1), vec![(0, NO_DATA), (1, 5)]);
    assert_eq!(h.get_data(Metric::Tx, 1), vec![(0, NO_DATA), (1, 6)]);
}

#[test]
fn zero_delta_is_floored_at_one() {
    let mut h = History::empty(&info(1), 1);
    h.push_back_pop_front(&one(0, 3));
    assert_eq!(h.get_data(Metric::Rx, 0), vec![(1, 1)]);
    assert_eq!(h.get_data(Metric::Tx, 0), vec![(1, 3)]);
}

#[test]
fn zero_capacity_window_stays_empty() {
    let mut h = History::empty(&info(1), 0);
    for v in 0..5u64 {
        h.push_back_pop_front(&one(v, v));
    }
    assert_eq!(h.get_data(Metric::Rx, 0), vec![]);
    assert_eq!(h.get_data(Metric::Tx, 0), vec![]);
    assert_eq!(h.current(), 5);
}

#[test]
fn window_length_never_changes() {
    let mut h = History::empty(&info(3), 7);
    for v in 0..50u64 {
        let diff = InterfaceStats(vec![
            Some(InterfaceStat { rx: v, tx: v }),
            None,
            Some(InterfaceStat { rx: 1 << v, tx: 0 }),
        ]);
        h.push_back_pop_front(&diff);
        for m in Metric::variants().iter() {
            for i in 0..3 {
                assert_eq!(h.get_data(*m, i).len(), 7);
            }
        }
    }
}

#[test]
fn metrics_in_chart_order() {
    assert_eq!(Metric::variants(), [Metric::Rx, Metric::Tx]);
    assert_eq!(Metric::Rx.label(), "rx");
    assert_eq!(Metric::Tx.label(), "tx");
    let s = InterfaceStat { rx: 1, tx: 2 };
    assert_eq!(Metric::Rx.of(&s), 1);
    assert_eq!(Metric::Tx.of(&s), 2);
}
