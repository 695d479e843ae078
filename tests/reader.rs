use mone::reader::in_libc::{IfData, InterfaceAddress, LibcReader};
use mone::reader::link::{LinkStats, LinkStatsError, LINK_STATS32_LEN};
use mone::{InterfaceInfo, InterfaceInfoItem, InterfaceStat};

fn addr(name: &str, data: Option<(u32, u32)>) -> InterfaceAddress {
    InterfaceAddress {
        interface_name: name.to_string(),
        data: data.map(|(i, o)| IfData { ifi_ibytes: i, ifi_obytes: o }),
    }
}

fn names(r: &LibcReader) -> Vec<String> {
    r.get_info().0.iter().map(|i| i.name.clone()).collect()
}

#[test]
fn interfaces_are_the_entries_with_data() {
    let addrs = vec![
        addr("lo", Some((1, 2))),
        addr("lo", None),
        addr("eth0", None),
        addr("wlan0", Some((3, 4))),
    ];
    let r = LibcReader::new(&addrs);
    assert_eq!(names(&r), vec!["lo".to_string(), "wlan0".to_string()]);
}

#[test]
fn read_fills_slots_by_name() {
    let r = LibcReader::new(&vec![addr("lo", Some((0, 0))), addr("eth0", Some((0, 0)))]);
    let later = vec![
        addr("eth0", Some((10, 20))),
        addr("usb0", Some((7, 7))),
        addr("lo", None),
    ];
    let s = r.read(&later);
    assert_eq!(s.0, vec![None, Some(InterfaceStat { rx: 10, tx: 20 })]);
}

#[test]
fn later_entry_wins() {
    let r = LibcReader::new(&vec![addr("lo", Some((0, 0)))]);
    let s = r.read(&vec![addr("lo", Some((1, 1))), addr("lo", Some((u32::MAX, 5)))]);
    assert_eq!(s.0, vec![Some(InterfaceStat { rx: u32::MAX as u64, tx: 5 })]);
}

#[test]
fn index_finds_first_position() {
    let info = InterfaceInfo(vec![
        InterfaceInfoItem::new("a".to_string()),
        InterfaceInfoItem::new("b".to_string()),
        InterfaceInfoItem::new("b".to_string()),
    ]);
    assert_eq!(info.index(&"b".to_string()), Some(1));
    assert_eq!(info.index(&"a".to_string()), Some(0));
    assert_eq!(info.index(&"c".to_string()), None);
    assert_eq!(info.len(), 3);
}

#[test]
fn link_stats_short_buffer_refused() {
    let buf = vec![0u8; LINK_STATS32_LEN - 1];
    assert_eq!(
        LinkStats::from_bytes(&buf),
        Err(LinkStatsError { expected: 96, actual: 95 })
    );
}

#[test]
fn link_stats_counters_in_native_order() {
    let mut buf = vec![];
    for k in 0..24u32 {
        buf.extend_from_slice(&(1000 + k).to_ne_bytes());
    }
    buf.push(0xff);
    let s = LinkStats::from_bytes(&buf).unwrap();
    assert_eq!(s.rx_packets, 1000);
    assert_eq!(s.tx_packets, 1001);
    assert_eq!(s.rx_bytes, 1002);
    assert_eq!(s.tx_bytes, 1003);
    assert_eq!(s.rx_errors, 1004);
    assert_eq!(s.collisions, 1009);
    assert_eq!(s.rx_nohandler, 1023);
    let d = IfData::from_link_stats(&s);
    assert_eq!(d, IfData { ifi_ibytes: 1002, ifi_obytes: 1003 });
}
