//! The window list as the window manager reports it, flattened, and the
//! lookup of the overlay window in it.
use vstd::prelude::*;

verus! {

/// Which attribute of a window carries the overlay marker.
#[derive(Clone, Copy, Debug, PartialEq, Eq, Structural)]
pub enum MarkerKind {
    Title,
    AppId,
}

/// The fixed identifier that tells the overlay window apart from all others.
#[derive(Debug)]
pub struct Marker {
    pub kind: MarkerKind,
    pub value: String,
}

/// One window: its numeric id and its identifying attributes.
#[derive(Debug)]
pub struct WindowRef {
    pub id: i64,
    pub title: Option<String>,
    pub app_id: Option<String>,
}

/// A tab of an output, holding windows.
#[derive(Debug)]
pub struct Tab {
    pub windows: Vec<WindowRef>,
}

/// An output of the window list, holding tabs.
#[derive(Debug)]
pub struct OutputNode {
    pub tabs: Vec<Tab>,
}

pub open spec fn ident_matches(ident: Option<String>, m: Marker) -> bool {
    ident matches Some(s) && s@ == m.value@
}

/// The window carries the marker in the attribute that the marker's kind names.
pub open spec fn window_matches(w: WindowRef, m: Marker) -> bool {
    match m.kind {
        MarkerKind::Title => ident_matches(w.title, m),
        MarkerKind::AppId => ident_matches(w.app_id, m),
    }
}

pub open spec fn tabs_windows(tabs: Seq<Tab>) -> Seq<WindowRef>
    decreases tabs.len(),
{
    if tabs.len() == 0 {
        Seq::empty()
    } else {
        tabs_windows(tabs.drop_last()) + tabs.last().windows@
    }
}

/// Every window of the tree, output by output and tab by tab.
pub open spec fn tree_windows(outputs: Seq<OutputNode>) -> Seq<WindowRef>
    decreases outputs.len(),
{
    if outputs.len() == 0 {
        Seq::empty()
    } else {
        tree_windows(outputs.drop_last()) + tabs_windows(outputs.last().tabs@)
    }
}

pub open spec fn any_matches(ws: Seq<WindowRef>, m: Marker) -> bool {
    exists|i: int| 0 <= i < ws.len() && window_matches(#[trigger] ws[i], m)
}

/// Ids of the windows that carry the marker, in order.
pub open spec fn matching_ids(ws: Seq<WindowRef>, m: Marker) -> Seq<i64>
    decreases ws.len(),
{
    if ws.len() == 0 {
        Seq::empty()
    } else if window_matches(ws.last(), m) {
        matching_ids(ws.drop_last(), m).push(ws.last().id)
    } else {
        matching_ids(ws.drop_last(), m)
    }
}

/// Windows of a list-windows reply; an empty reply holds none.
pub open spec fn reply_windows(reply: Option<Vec<OutputNode>>) -> Seq<WindowRef> {
    match reply {
        Some(t) => tree_windows(t@),
        None => Seq::empty(),
    }
}

fn copy_ident(ident: &Option<String>) -> (r: Option<String>)
    ensures
        r == *ident,
{
    match ident {
        Some(s) => Some(s.clone()),
        None => None,
    }
}

impl Marker {
    /// A field-by-field copy.
    pub fn duplicate(&self) -> (r: Marker)
        ensures
            r == *self,
    {
        Marker { kind: self.kind, value: self.value.clone() }
    }
}

impl WindowRef {
    /// A field-by-field copy.
    pub fn duplicate(&self) -> (r: WindowRef)
        ensures
            r == *self,
    {
        WindowRef { id: self.id, title: copy_ident(&self.title), app_id: copy_ident(&self.app_id) }
    }
}

fn ident_is(ident: &Option<String>, m: &Marker) -> (r: bool)
    ensures
        r == ident_matches(*ident, *m),
{
    match ident {
        Some(s) => s.eq(&m.value),
        None => false,
    }
}

/// Whether `w` carries the marker `m`.
pub fn matches_marker(w: &WindowRef, m: &Marker) -> (r: bool)
    ensures
        r == window_matches(*w, *m),
{
    match m.kind {
        MarkerKind::Title => ident_is(&w.title, m),
        MarkerKind::AppId => ident_is(&w.app_id, m),
    }
}

/// Every window of the output / tab / window tree, in one sequence.
pub fn all_windows(tree: &Vec<OutputNode>) -> (r: Vec<WindowRef>)
    ensures
        r@ == tree_windows(tree@),
{
    let mut r: Vec<WindowRef> = Vec::new();
    let mut o: usize = 0;
    while o < tree.len()
        invariant
            o <= tree@.len(),
            r@ == tree_windows(tree@.take(o as int)),
        decreases tree.len() - o,
    {
        let tabs = &tree[o].tabs;
        let ghost base = r@;
        let mut t: usize = 0;
        while t < tabs.len()
            invariant
                t <= tabs@.len(),
                r@ == base + tabs_windows(tabs@.take(t as int)),
            decreases tabs.len() - t,
        {
            let ws = &tabs[t].windows;
            let ghost mid = r@;
            let mut k: usize = 0;
            while k < ws.len()
                invariant
                    k <= ws@.len(),
                    r@ == mid + ws@.take(k as int),
                decreases ws.len() - k,
            {
                r.push(ws[k].duplicate());
                assert(ws@.take(k + 1) =~= ws@.take(k as int).push(ws@[k as int]));
                k += 1;
            }
            assert(tabs@.take(t + 1).drop_last() =~= tabs@.take(t as int));
            assert(ws@.take(k as int) =~= ws@);
            assert(r@ =~= base + tabs_windows(tabs@.take(t + 1)));
            t += 1;
        }
        assert(tree@.take(o + 1).drop_last() =~= tree@.take(o as int));
        assert(tabs@.take(t as int) =~= tabs@);
        assert(r@ =~= tree_windows(tree@.take(o + 1)));
        o += 1;
    }
    assert(tree@.take(o as int) =~= tree@);
    r
}

/// Whether a list-windows reply holds a window carrying the marker. An empty
/// reply (`None`) holds no window.
pub fn query_overlay_exists(reply: &Option<Vec<OutputNode>>, m: &Marker) -> (r: bool)
    ensures
        r == any_matches(reply_windows(*reply), *m),
{
    match reply {
        None => false,
        Some(tree) => {
            let ws = all_windows(tree);
            let mut i: usize = 0;
            while i < ws.len()
                invariant
                    ws@ == reply_windows(*reply),
                    i <= ws@.len(),
                    forall|j: int| 0 <= j < i ==> !window_matches(#[trigger] ws@[j], *m),
                decreases ws.len() - i,
            {
                if matches_marker(&ws[i], m) {
                    assert(window_matches(ws@[i as int], *m));
                    return true;
                }
                i += 1;
            }
            false
        },
    }
}

/// Ids of the windows in a list-windows reply that carry the marker.
pub fn overlay_ids(reply: &Option<Vec<OutputNode>>, m: &Marker) -> (r: Vec<i64>)
    ensures
        r@ == matching_ids(reply_windows(*reply), *m),
{
    let mut r: Vec<i64> = Vec::new();
    match reply {
        None => {},
        Some(tree) => {
            let ws = all_windows(tree);
            let mut i: usize = 0;
            while i < ws.len()
                invariant
                    ws@ == reply_windows(*reply),
                    i <= ws@.len(),
                    r@ == matching_ids(ws@.take(i as int), *m),
                decreases ws.len() - i,
            {
                assert(ws@.take(i + 1).drop_last() =~= ws@.take(i as int));
                if matches_marker(&ws[i], m) {
                    r.push(ws[i].id);
                }
                i += 1;
            }
            assert(ws@.take(i as int) =~= ws@);
        },
    }
    r
}

} // verus!
