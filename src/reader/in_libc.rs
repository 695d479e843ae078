//! Interface entries as `getifaddrs` reports them, and the reader that
//! fixes the interface set once and builds a snapshot from each later report.
use vstd::prelude::*;

use crate::reader::link::LinkStats;
use crate::stats::{index_of, is_first_index, InterfaceInfo, InterfaceInfoItem, InterfaceStat, InterfaceStats};

verus! {

/// The byte counters of one interface entry.
#[derive(Clone, Copy, Debug, PartialEq, Eq, Hash, Structural)]
pub struct IfData {
    pub ifi_ibytes: u32,
    pub ifi_obytes: u32,
}

impl IfData {
    /// The byte counters of a link's statistics.
    pub fn from_link_stats(stats: &LinkStats<u32>) -> (r: IfData)
        ensures
            r.ifi_ibytes == stats.rx_bytes,
            r.ifi_obytes == stats.tx_bytes,
    {
        IfData { ifi_ibytes: stats.rx_bytes, ifi_obytes: stats.tx_bytes }
    }
}

/// One entry of the operating system's interface report: the interface's
/// name, and its counters where the entry carries them.
#[derive(Clone, Debug)]
pub struct InterfaceAddress {
    /// Name of the network interface
    pub interface_name: String,
    /// Byte counters, present on the entries that carry link data
    pub data: Option<IfData>,
}

/// The names of the entries that carry counters, in report order.
pub open spec fn names_with_data(addrs: Seq<InterfaceAddress>) -> Seq<Seq<char>>
    decreases addrs.len(),
{
    if addrs.len() == 0 {
        Seq::empty()
    } else {
        let rest = names_with_data(addrs.drop_last());
        if addrs.last().data is Some {
            rest.push(addrs.last().interface_name@)
        } else {
            rest
        }
    }
}

/// The counter reading of one entry.
pub open spec fn stat_of(d: IfData) -> InterfaceStat {
    InterfaceStat { rx: d.ifi_ibytes as u64, tx: d.ifi_obytes as u64 }
}

/// The snapshot built from a report: each entry with counters fills the
/// slot of its interface, a later entry over an earlier one; slots that no
/// entry fills stay absent, and entries of unknown interfaces are ignored.
pub open spec fn snapshot_of(info: Seq<InterfaceInfoItem>, addrs: Seq<InterfaceAddress>) -> Seq<
    Option<InterfaceStat>,
>
    decreases addrs.len(),
{
    if addrs.len() == 0 {
        Seq::new(info.len(), |i: int| None::<InterfaceStat>)
    } else {
        let prev = snapshot_of(info, addrs.drop_last());
        let a = addrs.last();
        match a.data {
            Some(d) => match index_of(info, a.interface_name@) {
                Some(i) => prev.update(i, Some(stat_of(d))),
                None => prev,
            },
            None => prev,
        }
    }
}

proof fn lemma_snapshot_len(info: Seq<InterfaceInfoItem>, addrs: Seq<InterfaceAddress>)
    ensures
        snapshot_of(info, addrs).len() == info.len(),
    decreases addrs.len(),
{
    if addrs.len() > 0 {
        lemma_snapshot_len(info, addrs.drop_last());
    }
}

/// Reads interface counters from the `getifaddrs` report. The interfaces
/// with counters in the report it is built from are the run's interface set.
#[derive(Debug)]
pub struct LibcReader {
    info: InterfaceInfo,
}

impl LibcReader {
    pub closed spec fn spec_info(&self) -> Seq<InterfaceInfoItem> {
        self.info@
    }

    /// A reader whose interfaces are those entries of `addrs` that carry
    /// counters, in report order.
    pub fn new(addrs: &Vec<InterfaceAddress>) -> (r: LibcReader)
        ensures
            r.spec_info().map_values(|item: InterfaceInfoItem| item.name@) == names_with_data(
                addrs@,
            ),
    {
        let mut info: Vec<InterfaceInfoItem> = Vec::new();
        let mut i: usize = 0;
        while i < addrs.len()
            invariant
                i <= addrs@.len(),
                info@.map_values(|item: InterfaceInfoItem| item.name@) == names_with_data(
                    addrs@.take(i as int),
                ),
            decreases addrs@.len() - i,
        {
            let a = &addrs[i];
            proof {
                assert(addrs@.take(i + 1).drop_last() =~= addrs@.take(i as int));
            }
            if a.data.is_some() {
                let name = a.interface_name.clone();
                info.push(InterfaceInfoItem::new(name));
                assert(info@.map_values(|item: InterfaceInfoItem| item.name@) =~= names_with_data(
                    addrs@.take(i + 1),
                ));
            }
            i += 1;
        }
        assert(addrs@.take(addrs@.len() as int) =~= addrs@);
        LibcReader { info: InterfaceInfo(info) }
    }

    /// The run's interfaces, in index order.
    pub fn get_info(&self) -> (r: &InterfaceInfo)
        ensures
            r@ == self.spec_info(),
    {
        &self.info
    }

    /// The snapshot of the report `addrs`, with a slot per interface.
    pub fn read(&self, addrs: &Vec<InterfaceAddress>) -> (r: InterfaceStats)
        ensures
            r@ == snapshot_of(self.spec_info(), addrs@),
            r@.len() == self.spec_info().len(),
    {
        let mut stats = InterfaceStats::empty(self.info.len());
        let mut i: usize = 0;
        while i < addrs.len()
            invariant
                i <= addrs@.len(),
                stats@ == snapshot_of(self.spec_info(), addrs@.take(i as int)),
            decreases addrs@.len() - i,
        {
            let a = &addrs[i];
            proof {
                assert(addrs@.take(i + 1).drop_last() =~= addrs@.take(i as int));
                lemma_snapshot_len(self.spec_info(), addrs@.take(i as int));
            }
            match &a.data {
                Some(d) => match self.info.index(&a.interface_name) {
                    Some(k) => {
                        proof {
                            let w = choose|w: int| is_first_index(self.spec_info(), a.interface_name@, w);
                            assert(is_first_index(self.spec_info(), a.interface_name@, w));
                        }
                        let s = InterfaceStat { rx: d.ifi_ibytes as u64, tx: d.ifi_obytes as u64 };
                        stats.0.set(k, Some(s));
                    },
                    None => {},
                },
                None => {},
            }
            i += 1;
        }
        proof {
            assert(addrs@.take(addrs@.len() as int) =~= addrs@);
            lemma_snapshot_len(self.spec_info(), addrs@);
        }
        stats
    }
}

} // verus!
