//! Interface names, counter snapshots and the delta engine.
use vstd::prelude::*;

verus! {

/// Name of one monitored network interface.
#[derive(Clone, Debug)]
pub struct InterfaceInfoItem {
    pub name: String,
}

impl InterfaceInfoItem {
    pub fn new(name: String) -> (r: InterfaceInfoItem)
        ensures
            r.name@ == name@,
    {
        InterfaceInfoItem { name }
    }
}

/// The fixed, ordered interface list of one run. The position of an
/// interface in this list is its index in every snapshot.
#[derive(Clone, Debug)]
pub struct InterfaceInfo(pub Vec<InterfaceInfoItem>);

/// Is `i` the first position in `items` whose name is `name`?
pub open spec fn is_first_index(items: Seq<InterfaceInfoItem>, name: Seq<char>, i: int) -> bool {
    &&& 0 <= i < items.len()
    &&& items[i].name@ == name
    &&& forall|j: int| 0 <= j < i ==> items[j].name@ != name
}

/// The first position in `items` whose name is `name`, if there is one.
pub open spec fn index_of(items: Seq<InterfaceInfoItem>, name: Seq<char>) -> Option<int> {
    if exists|i: int| is_first_index(items, name, i) {
        Some(choose|i: int| is_first_index(items, name, i))
    } else {
        None
    }
}

proof fn lemma_first_index_unique(items: Seq<InterfaceInfoItem>, name: Seq<char>, i: int, k: int)
    requires
        is_first_index(items, name, i),
        is_first_index(items, name, k),
    ensures
        i == k,
{
}

impl View for InterfaceInfo {
    type V = Seq<InterfaceInfoItem>;

    open spec fn view(&self) -> Seq<InterfaceInfoItem> {
        self.0@
    }
}

impl InterfaceInfo {
    /// The header line of the interface columns.
    pub fn to_display_string(&self) -> (r: String)
        ensures
            r@ == info_line(self@),
    {
        let mut out = String::new();
        let mut i: usize = 0;
        while i < self.0.len()
            invariant
                i <= self@.len(),
                out@ == info_line(self@.take(i as int)),
            decreases self@.len() - i,
        {
            proof {
                assert(self@.take(i + 1).drop_last() =~= self@.take(i as int));
            }
            if i > 0 {
                push_delimiter(&mut out);
            }
            push_padded(&mut out, self.0[i].name.as_str(), STAT_WIDTH);
            i += 1;
            proof {
                if i == 1 {
                    assert(out@ =~= info_line(self@.take(i as int)));
                }
            }
        }
        assert(self@.take(self@.len() as int) =~= self@);
        out
    }

    pub fn len(&self) -> (r: usize)
        ensures
            r == self@.len(),
    {
        self.0.len()
    }

    /// The index of the interface called `name`: its first position in the
    /// list, or `None` when no interface has that name.
    pub fn index(&self, name: &String) -> (r: Option<usize>)
        ensures
            r matches Some(i) ==> index_of(self@, name@) == Some(i as int),
            r is None ==> index_of(self@, name@) is None,
    {
        let mut i: usize = 0;
        while i < self.0.len()
            invariant
                i <= self@.len(),
                forall|j: int| 0 <= j < i ==> self@[j].name@ != name@,
            decreases self@.len() - i,
        {
            if self.0[i].name == *name {
                proof {
                    assert(is_first_index(self@, name@, i as int));
                    let k = choose|k: int| is_first_index(self@, name@, k);
                    lemma_first_index_unique(self@, name@, i as int, k);
                }
                return Some(i);
            }
            i += 1;
        }
        proof {
            assert forall|k: int| !is_first_index(self@, name@, k) by {
                if is_first_index(self@, name@, k) {
                    assert(self@[k].name@ == name@);
                }
            }
        }
        None
    }
}

/// Received and transmitted byte counters of one interface (or, in a delta,
/// the bytes received and transmitted during one interval).
#[derive(Clone, Copy, Debug, PartialEq, Eq, Structural)]
pub struct InterfaceStat {
    pub rx: u64,
    pub tx: u64,
}

/// The delta of one slot: present only when both readings are present and
/// neither counter went down.
pub open spec fn slot_delta(previous: Option<InterfaceStat>, current: Option<InterfaceStat>) -> Option<InterfaceStat> {
    match (previous, current) {
        (Some(p), Some(c)) => if p.rx <= c.rx && p.tx <= c.tx {
            Some(InterfaceStat { rx: (c.rx - p.rx) as u64, tx: (c.tx - p.tx) as u64 })
        } else {
            None
        },
        _ => None,
    }
}

/// The delta sample of two snapshots of equal length, slot by slot.
pub open spec fn snapshot_delta(
    previous: Seq<Option<InterfaceStat>>,
    current: Seq<Option<InterfaceStat>>,
) -> Seq<Option<InterfaceStat>> {
    Seq::new(current.len(), |i: int| slot_delta(previous[i], current[i]))
}

impl InterfaceStat {
    /// The counters gained since `previous`, or `None` when either counter
    /// decreased (a counter reset).
    pub fn delta_from(&self, previous: &InterfaceStat) -> (r: Option<InterfaceStat>)
        ensures
            r == slot_delta(Some(*previous), Some(*self)),
    {
        if previous.rx <= self.rx && previous.tx <= self.tx {
            Some(InterfaceStat { rx: self.rx - previous.rx, tx: self.tx - previous.tx })
        } else {
            None
        }
    }
}

/// One snapshot (or delta sample): a slot per interface, absent where no
/// reading is available.
#[derive(Clone, Debug)]
pub struct InterfaceStats(pub Vec<Option<InterfaceStat>>);

impl View for InterfaceStats {
    type V = Seq<Option<InterfaceStat>>;

    open spec fn view(&self) -> Seq<Option<InterfaceStat>> {
        self.0@
    }
}

impl InterfaceStats {
    /// A snapshot of `len` absent slots.
    pub fn empty(len: usize) -> (r: InterfaceStats)
        ensures
            r@ == Seq::new(len as nat, |i: int| None::<InterfaceStat>),
    {
        let mut v: Vec<Option<InterfaceStat>> = Vec::new();
        let mut i: usize = 0;
        while i < len
            invariant
                i <= len,
                v@ == Seq::new(i as nat, |k: int| None::<InterfaceStat>),
            decreases len - i,
        {
            v.push(None);
            i += 1;
            assert(v@ =~= Seq::new(i as nat, |k: int| None::<InterfaceStat>));
        }
        InterfaceStats(v)
    }

    pub fn len(&self) -> (r: usize)
        ensures
            r == self@.len(),
    {
        self.0.len()
    }

    /// The delta sample from `previous` to this snapshot.
    pub fn delta_from(&self, previous: &InterfaceStats) -> (r: InterfaceStats)
        requires
            previous@.len() == self@.len(),
        ensures
            r@ == snapshot_delta(previous@, self@),
    {
        let mut out: Vec<Option<InterfaceStat>> = Vec::new();
        let mut i: usize = 0;
        while i < self.0.len()
            invariant
                i <= self@.len(),
                previous@.len() == self@.len(),
                out@ == snapshot_delta(previous@, self@).take(i as int),
            decreases self@.len() - i,
        {
            let slot = match (&previous.0[i], &self.0[i]) {
                (Some(p), Some(c)) => c.delta_from(p),
                _ => None,
            };
            out.push(slot);
            i += 1;
            assert(out@ =~= snapshot_delta(previous@, self@).take(i as int));
        }
        assert(out@ =~= snapshot_delta(previous@, self@));
        InterfaceStats(out)
    }
}

/// A slot that is absent in either snapshot is absent in the delta.
pub proof fn lemma_absent_slot_has_no_delta(
    previous: Seq<Option<InterfaceStat>>,
    current: Seq<Option<InterfaceStat>>,
    i: int,
)
    requires
        previous.len() == current.len(),
        0 <= i < current.len(),
        previous[i] is None || current[i] is None,
    ensures
        snapshot_delta(previous, current)[i] is None,
{
}

/// A counter that went down gives an absent slot, never a negative or
/// wrapped value.
pub proof fn lemma_decrease_has_no_delta(
    previous: Seq<Option<InterfaceStat>>,
    current: Seq<Option<InterfaceStat>>,
    i: int,
)
    requires
        previous.len() == current.len(),
        0 <= i < current.len(),
        previous[i] is Some,
        current[i] is Some,
        current[i].unwrap().rx < previous[i].unwrap().rx || current[i].unwrap().tx
            < previous[i].unwrap().tx,
    ensures
        snapshot_delta(previous, current)[i] is None,
{
}

/// Where both readings are present and no counter went down, the delta is
/// the difference of the counters.
pub proof fn lemma_delta_is_difference(
    previous: Seq<Option<InterfaceStat>>,
    current: Seq<Option<InterfaceStat>>,
    i: int,
)
    requires
        previous.len() == current.len(),
        0 <= i < current.len(),
        previous[i] is Some,
        current[i] is Some,
        previous[i].unwrap().rx <= current[i].unwrap().rx,
        previous[i].unwrap().tx <= current[i].unwrap().tx,
    ensures
        snapshot_delta(previous, current).len() == current.len(),
        snapshot_delta(previous, current)[i] is Some,
        snapshot_delta(previous, current)[i].unwrap().rx == current[i].unwrap().rx
            - previous[i].unwrap().rx,
        snapshot_delta(previous, current)[i].unwrap().tx == current[i].unwrap().tx
            - previous[i].unwrap().tx,
{
}

/// Relies on `String::push`: the character is appended.
#[verifier::external_body]
fn push_char(s: &mut String, c: char)
    ensures
        final(s)@ == old(s)@.push(c),
{
    s.push(c)
}

/// `n` spaces.
pub open spec fn spaces(n: nat) -> Seq<char> {
    Seq::new(n, |i: int| ' ')
}

/// `s` followed by spaces up to `width` characters; a longer `s` is kept
/// whole.
pub open spec fn padded(s: Seq<char>, width: nat) -> Seq<char> {
    if s.len() >= width {
        s
    } else {
        s + spaces((width - s.len()) as nat)
    }
}

/// Appends `name`, padded with spaces to `width` characters, to `out`.
fn push_padded(out: &mut String, name: &str, width: usize)
    ensures
        final(out)@ == old(out)@ + padded(name@, width as nat),
{
    broadcast use vstd::string::axiom_spec_iter;
    let mut n: usize = 0;
    for c in it: name.chars()
        invariant
            it.seq() == name@,
            n == if it.index() < width { it.index() as int } else { width as int },
            out@ == old(out)@ + name@.take(it.index()),
    {
        push_char(out, c);
        if n < width {
            n += 1;
        }
        assert(out@ =~= old(out)@ + name@.take(it.index() + 1));
    }
    let ghost len = name@.len();
    while n < width
        invariant
            n <= width,
            len < width ==> len <= n && out@ == old(out)@ + name@ + spaces((n - len) as nat),
            len >= width ==> n == width && out@ == old(out)@ + name@,
        decreases width - n,
    {
        push_char(out, ' ');
        n += 1;
        assert(out@ =~= old(out)@ + name@ + spaces((n - len) as nat));
    }
    assert(out@ =~= old(out)@ + padded(name@, width as nat));
}

/// Width of one formatted byte count.
pub const BYTES_WIDTH: usize = 8;

/// Width of one formatted interface statistic: two byte counts and a space.
pub const STAT_WIDTH: usize = 17;

/// What separates the columns of two interfaces.
pub open spec fn delimiter() -> Seq<char> {
    seq![' ', '|', ' ']
}

fn push_delimiter(out: &mut String)
    ensures
        final(out)@ == old(out)@ + delimiter(),
{
    push_char(out, ' ');
    push_char(out, '|');
    push_char(out, ' ');
    assert(out@ =~= old(out)@ + delimiter());
}

/// The header line of the interface columns: each name padded to the
/// column width, columns separated by the delimiter.
pub open spec fn info_line(items: Seq<InterfaceInfoItem>) -> Seq<char>
    decreases items.len(),
{
    if items.len() == 0 {
        Seq::empty()
    } else if items.len() == 1 {
        padded(items[0].name@, STAT_WIDTH as nat)
    } else {
        info_line(items.drop_last()) + delimiter() + padded(items.last().name@, STAT_WIDTH as nat)
    }
}

impl InterfaceInfoItem {
    /// The name padded to the width of an interface column.
    pub fn to_display_string(&self) -> (r: String)
        ensures
            r@ == padded(self.name@, STAT_WIDTH as nat),
    {
        let mut out = String::new();
        push_padded(&mut out, self.name.as_str(), STAT_WIDTH);
        assert(out@ =~= padded(self.name@, STAT_WIDTH as nat));
        out
    }
}

} // verus!
