use vstd::prelude::*;

verus! {

/// One paired device as the outside utility reports it.
pub struct PairedDevice {
    /// Opaque identifier handed back to the utility.
    pub address: String,
    /// When the device was last used, where the utility knows it.
    pub recent_access_date: Option<String>,
    /// Marked as a favourite in the host's settings.
    pub favourite: bool,
    /// Human-readable name.
    pub name: String,
    /// A link to the device is currently up.
    pub connected: bool,
    /// The device is bonded with the host.
    pub paired: bool,
}

/// The devices of `s` that are connected, in their order in `s`.
pub open spec fn connected_devices(s: Seq<PairedDevice>) -> Seq<PairedDevice> {
    s.filter(|d: PairedDevice| d.connected)
}

/// The devices of `s` that are not connected, in their order in `s`.
pub open spec fn disconnected_devices(s: Seq<PairedDevice>) -> Seq<PairedDevice> {
    s.filter(|d: PairedDevice| !d.connected)
}

/// The menu order: connected devices first, each group in its input order.
pub open spec fn menu_order(s: Seq<PairedDevice>) -> Seq<PairedDevice> {
    connected_devices(s) + disconnected_devices(s)
}

/// Filtering keeps every element that passes and none that fails.
proof fn lemma_filter_uniform(s: Seq<PairedDevice>, pred: spec_fn(PairedDevice) -> bool)
    ensures
        (forall|i: int| 0 <= i < s.len() ==> pred(s[i])) ==> s.filter(pred) == s,
        (forall|i: int| 0 <= i < s.len() ==> !pred(s[i])) ==> s.filter(pred) == Seq::<
            PairedDevice,
        >::empty(),
    decreases s.len(),
{
    reveal(Seq::filter);
    if s.len() > 0 {
        lemma_filter_uniform(s.drop_last(), pred);
        assert(s.drop_last().push(s.last()) =~= s);
    }
    if s.len() == 0 {
        assert(s =~= Seq::<PairedDevice>::empty());
    }
}

/// The two groups together hold as many devices as the whole list.
proof fn lemma_groups_cover(s: Seq<PairedDevice>)
    ensures
        connected_devices(s).len() + disconnected_devices(s).len() == s.len(),
    decreases s.len(),
{
    reveal(Seq::filter);
    if s.len() > 0 {
        lemma_groups_cover(s.drop_last());
    }
}

/// The menu order is a stable partition of the devices: it has the same
/// length, no disconnected device stands before a connected one, and taking
/// either group out of it gives that group in the input order.
pub proof fn lemma_menu_order_stable(s: Seq<PairedDevice>)
    ensures
        menu_order(s).len() == s.len(),
        forall|i: int, j: int|
            0 <= i < j < s.len() && #[trigger] menu_order(s)[j].connected ==> #[trigger] menu_order(
                s,
            )[i].connected,
        connected_devices(menu_order(s)) == connected_devices(s),
        disconnected_devices(menu_order(s)) == disconnected_devices(s),
{
    broadcast use Seq::lemma_filter_pred;

    let c = connected_devices(s);
    let d = disconnected_devices(s);
    let conn = |x: PairedDevice| x.connected;
    let disc = |x: PairedDevice| !x.connected;
    lemma_groups_cover(s);
    Seq::filter_distributes_over_add(c, d, conn);
    Seq::filter_distributes_over_add(c, d, disc);
    assert forall|i: int| 0 <= i < c.len() implies conn(c[i]) by {
        s.lemma_filter_pred(conn, i);
    }
    assert forall|i: int| 0 <= i < d.len() implies disc(d[i]) by {
        s.lemma_filter_pred(disc, i);
    }
    lemma_filter_uniform(c, conn);
    lemma_filter_uniform(c, disc);
    lemma_filter_uniform(d, conn);
    lemma_filter_uniform(d, disc);
    assert(c + Seq::<PairedDevice>::empty() =~= c);
    assert(Seq::<PairedDevice>::empty() + d =~= d);
    assert forall|i: int, j: int|
        0 <= i < j < s.len() && #[trigger] menu_order(s)[j].connected implies #[trigger] menu_order(
        s,
    )[i].connected by {
        if i >= c.len() {
            assert(disc(d[j - c.len()]));
        } else {
            assert(conn(c[i]));
        }
    }
}

/// Reorders `devices` so that connected devices come before the others,
/// keeping the relative order within each group.
pub fn sort_devices(devices: Vec<PairedDevice>) -> (r: Vec<PairedDevice>)
    ensures
        r@ == menu_order(devices@),
{
    let ghost orig = devices@;
    let mut rest = devices;
    let mut front: Vec<PairedDevice> = Vec::new();
    let mut back: Vec<PairedDevice> = Vec::new();
    let ghost mut k: int = 0;
    while rest.len() > 0
        invariant
            0 <= k <= orig.len(),
            rest@ == orig.subrange(k, orig.len() as int),
            front@ == connected_devices(orig.subrange(0, k)),
            back@ == disconnected_devices(orig.subrange(0, k)),
        decreases rest.len(),
    {
        let d = rest.remove(0);
        proof {
            assert(orig.subrange(0, k + 1) =~= orig.subrange(0, k).push(d));
            orig.subrange(0, k).lemma_filter_push(d, |d: PairedDevice| d.connected);
            orig.subrange(0, k).lemma_filter_push(d, |d: PairedDevice| !d.connected);
            assert(rest@ =~= orig.subrange(k + 1, orig.len() as int));
            k = k + 1;
        }
        if d.connected {
            front.push(d);
        } else {
            back.push(d);
        }
    }
    proof {
        assert(orig.subrange(0, k) =~= orig);
    }
    front.append(&mut back);
    front
}

} // verus!
