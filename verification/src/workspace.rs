//! Workspaces as the bar displays them, and the pure computations the
//! workspace widgets run on them: assembling the list from raw desktop
//! properties, filtering it per monitor, and picking the next workspace
//! when cycling.

use vstd::prelude::*;

verus! {

/// One workspace, as shown by the bar.
#[derive(Debug, Clone, PartialEq)]
pub struct Workspace {
    /// One-based display number, re-derived from the final ordering.
    pub number: i32,
    /// The workspace's name.
    pub name: String,
    /// Whether the workspace is visible on some monitor.
    pub visible: bool,
    /// Whether the workspace has input focus.
    pub focused: bool,
    /// Whether the workspace is flagged urgent.
    pub urgent: bool,
    /// Name of the monitor output the workspace lives on.
    pub output: String,
}

/// An exact copy of a workspace.
pub fn copy_workspace(w: &Workspace) -> (r: Workspace)
    ensures
        r == *w,
{
    Workspace {
        number: w.number,
        name: w.name.clone(),
        visible: w.visible,
        focused: w.focused,
        urgent: w.urgent,
        output: w.output.clone(),
    }
}

/// Whether a workspace is kept by [`filter_by_name`].
pub open spec fn kept_by_output(w: Workspace, show_all: bool, name_opt: Option<String>) -> bool {
    show_all || match name_opt {
        Option::Some(n) => n@ == w.output@,
        Option::None => true,
    }
}

/// Keep the workspaces on the named output; with `show_all`, or without a
/// name, keep everything.  Order is preserved.
pub fn filter_by_name(workspaces: &Vec<Workspace>, show_all: bool, name_opt: &Option<String>) -> (r:
    Vec<Workspace>)
    ensures
        r@ == workspaces@.filter(
            |w: Workspace| kept_by_output(w, show_all, *name_opt),
        ),
{
    let ghost pred = |w: Workspace| kept_by_output(w, show_all, *name_opt);
    let mut r: Vec<Workspace> = Vec::new();
    let mut i: usize = 0;
    proof {
        reveal(Seq::filter);
        assert(workspaces@.take(0) =~= Seq::<Workspace>::empty());
        assert(r@ =~= workspaces@.take(0).filter(pred));
    }
    while i < workspaces.len()
        invariant
            i <= workspaces.len(),
            r@ == workspaces@.take(i as int).filter(pred),
        decreases workspaces.len() - i,
    {
        let keep = match name_opt {
            Option::Some(n) => {
                if show_all {
                    true
                } else {
                    string_eq(n, &workspaces[i].output)
                }
            },
            Option::None => true,
        };
        proof {
            assert(workspaces@.take(i + 1).drop_last() =~= workspaces@.take(i as int));
            assert(workspaces@.take(i + 1).last() == workspaces@[i as int]);
            assert(keep == pred(workspaces@[i as int]));
        }
        if keep {
            let w = copy_workspace(&workspaces[i]);
            r.push(w);
        }
        proof {
            reveal(Seq::filter);
            assert(r@ =~= workspaces@.take(i + 1).filter(pred));
        }
        i = i + 1;
    }
    proof {
        assert(workspaces@.take(workspaces@.len() as int) =~= workspaces@);
    }
    r
}

/// Whether two strings hold the same characters.
pub fn string_eq(a: &String, b: &String) -> (r: bool)
    ensures
        r == (a@ == b@),
{
    a.eq(b)
}

/// What the assembly reads of one desktop: name, focus, the monitor
/// slot it was matched to, and the monitor's output name.
pub type WsEntry = (Seq<char>, bool, int, Seq<char>);

/// A monitor as the caller reports it: x position, y position, output
/// name.
pub type Monitor = (i32, i32, String);

/// The first monitor whose position equals the viewport, if any.
pub open spec fn monitor_match(monitors: Seq<Monitor>, vp: (i32, i32)) -> Option<int>
    decreases monitors.len(),
{
    if monitors.len() == 0 {
        Option::None
    } else if monitors[0].0 == vp.0 && monitors[0].1 == vp.1 {
        Option::Some(0)
    } else {
        match monitor_match(monitors.drop_first(), vp) {
            Option::Some(i) => Option::Some(i + 1),
            Option::None => Option::None,
        }
    }
}

/// The viewport of desktop `k`; desktops without a reported viewport
/// count as (0, 0).
pub open spec fn viewport_of(viewports: Seq<(i32, i32)>, k: int) -> (i32, i32) {
    if 0 <= k < viewports.len() {
        viewports[k]
    } else {
        (0, 0)
    }
}

/// The monitor slot a viewport is assigned to: the matching monitor's
/// index, or 0 when none matches.
pub open spec fn monitor_slot(monitors: Seq<Monitor>, vp: (i32, i32)) -> int {
    match monitor_match(monitors, vp) {
        Option::Some(i) => i,
        Option::None => 0,
    }
}

/// The output name a viewport is assigned to: the matching monitor's,
/// else the first monitor's, else a placeholder.
pub open spec fn output_name(monitors: Seq<Monitor>, vp: (i32, i32)) -> Seq<char> {
    match monitor_match(monitors, vp) {
        Option::Some(i) => monitors[i].2@,
        Option::None => if monitors.len() > 0 {
            monitors[0].2@
        } else {
            "[unknown]"@
        },
    }
}

/// The raw entry of desktop `k`.
pub open spec fn ws_entry(
    names: Seq<String>,
    viewports: Seq<(i32, i32)>,
    monitors: Seq<Monitor>,
    current: int,
    k: int,
) -> WsEntry {
    (
        names[k]@,
        k == current,
        monitor_slot(monitors, viewport_of(viewports, k)),
        output_name(monitors, viewport_of(viewports, k)),
    )
}

/// The raw entries of all desktops, in desktop order.
pub open spec fn ws_entries(
    names: Seq<String>,
    viewports: Seq<(i32, i32)>,
    monitors: Seq<Monitor>,
    current: int,
) -> Seq<WsEntry> {
    Seq::new(names.len(), |k: int| ws_entry(names, viewports, monitors, current, k))
}

/// How many monitor slots the grouping walks: at least one, so that
/// unmatched desktops (slot 0) are kept even without monitors.
pub open spec fn group_count(monitors: Seq<Monitor>) -> int {
    if monitors.len() == 0 {
        1
    } else {
        monitors.len() as int
    }
}

/// Membership in one monitor slot.
pub open spec fn in_group(g: int) -> spec_fn(WsEntry) -> bool {
    |e: WsEntry| e.2 == g
}

/// Membership in the slots below `g`.
pub open spec fn slot_below(g: int) -> spec_fn(WsEntry) -> bool {
    |e: WsEntry| 0 <= e.2 < g
}

/// The entries of the first `g` monitor slots, slot by slot, each slot
/// keeping desktop order: a stable grouping by monitor.
pub open spec fn ordered_entries_upto(entries: Seq<WsEntry>, g: int) -> Seq<WsEntry>
    decreases g,
{
    if g <= 0 {
        Seq::<WsEntry>::empty()
    } else {
        ordered_entries_upto(entries, g - 1) + entries.filter(in_group(g - 1))
    }
}

/// The fully ordered entries.
pub open spec fn ordered_entries(entries: Seq<WsEntry>, monitors: Seq<Monitor>) -> Seq<WsEntry> {
    ordered_entries_upto(entries, group_count(monitors))
}

/// A matched monitor index lies within the monitor list.
proof fn lemma_monitor_match_range(monitors: Seq<Monitor>, vp: (i32, i32))
    ensures
        match monitor_match(monitors, vp) {
            Option::Some(i) => 0 <= i < monitors.len(),
            Option::None => true,
        },
    decreases monitors.len(),
{
    if monitors.len() > 0 {
        lemma_monitor_match_range(monitors.drop_first(), vp);
    }
}

/// Every slot lies below the group count.
proof fn lemma_slot_in_range(monitors: Seq<Monitor>, vp: (i32, i32))
    ensures
        0 <= monitor_slot(monitors, vp) < group_count(monitors),
{
    lemma_monitor_match_range(monitors, vp);
}

/// A filter that keeps everything returns the whole sequence.
proof fn lemma_filter_all(s: Seq<WsEntry>, pred: spec_fn(WsEntry) -> bool)
    requires
        forall|i: int| 0 <= i < s.len() ==> pred(#[trigger] s[i]),
    ensures
        s.filter(pred) == s,
    decreases s.len(),
{
    reveal(Seq::filter);
    if s.len() > 0 {
        lemma_filter_all(s.drop_last(), pred);
        assert(s.drop_last().filter(pred).push(s.last()) =~= s);
    }
}

/// A filter that keeps nothing returns the empty sequence.
proof fn lemma_filter_none(s: Seq<WsEntry>, pred: spec_fn(WsEntry) -> bool)
    requires
        forall|i: int| 0 <= i < s.len() ==> !pred(#[trigger] s[i]),
    ensures
        s.filter(pred) == Seq::<WsEntry>::empty(),
    decreases s.len(),
{
    reveal(Seq::filter);
    if s.len() > 0 {
        lemma_filter_none(s.drop_last(), pred);
    }
}

/// The slots below `g` split into the slots below `g - 1` and slot
/// `g - 1` itself.
proof fn lemma_filter_split_len(entries: Seq<WsEntry>, g: int)
    requires
        g >= 1,
    ensures
        entries.filter(slot_below(g)).len() == entries.filter(slot_below(g - 1)).len()
            + entries.filter(in_group(g - 1)).len(),
    decreases entries.len(),
{
    reveal(Seq::filter);
    if entries.len() > 0 {
        lemma_filter_split_len(entries.drop_last(), g);
    }
}

/// The grouped prefix holds exactly the desktops whose slot lies below
/// `g`.
proof fn lemma_upto_len(entries: Seq<WsEntry>, g: int)
    requires
        g >= 0,
    ensures
        ordered_entries_upto(entries, g).len() == entries.filter(slot_below(g)).len(),
    decreases g,
{
    if g == 0 {
        assert forall|i: int| 0 <= i < entries.len() implies !slot_below(0)(#[trigger] entries[i]) by {}
        lemma_filter_none(entries, slot_below(0));
    } else {
        lemma_upto_len(entries, g - 1);
        lemma_filter_split_len(entries, g);
    }
}

/// The stable grouping loses no desktop and invents none: when every
/// slot lies below the group count, it is a permutation of the entries.
proof fn lemma_ordered_len(entries: Seq<WsEntry>, groups: int)
    requires
        groups >= 1,
        forall|i: int| 0 <= i < entries.len() ==> 0 <= (#[trigger] entries[i]).2 < groups,
    ensures
        ordered_entries_upto(entries, groups).len() == entries.len(),
{
    lemma_upto_len(entries, groups);
    assert forall|i: int| 0 <= i < entries.len() implies slot_below(groups)(
        #[trigger] entries[i],
    ) by {}
    lemma_filter_all(entries, slot_below(groups));
}

/// One desktop while the list is assembled.
struct RawEntry {
    name: String,
    focused: bool,
    slot: usize,
    output: String,
}

/// The spec-level reading of an assembled desktop.
spec fn entry_model(e: RawEntry) -> WsEntry {
    (e.name@, e.focused, e.slot as int, e.output@)
}

/// The same reading, as a function value for `map_values`.
spec fn raw_model() -> spec_fn(RawEntry) -> WsEntry {
    |e: RawEntry| entry_model(e)
}

/// An exact copy of a raw entry.
fn copy_raw(e: &RawEntry) -> (r: RawEntry)
    ensures
        entry_model(r) == entry_model(*e),
{
    RawEntry {
        name: e.name.clone(),
        focused: e.focused,
        slot: e.slot,
        output: e.output.clone(),
    }
}

/// Relates the monitor search over the whole list to the search over
/// its tail from `j`.
pub open spec fn monitor_match_offset(monitors: Seq<Monitor>, vp: (i32, i32), j: int) -> bool {
    monitor_match(monitors, vp) == match monitor_match(monitors.skip(j), vp) {
        Option::Some(i) => Option::Some(i + j),
        Option::None => Option::None::<int>,
    }
}

/// Find the slot and output name for a viewport: the first monitor at
/// that position, or the first monitor (or a placeholder) when none
/// matches.
fn monitor_lookup(monitors: &Vec<Monitor>, vp: (i32, i32)) -> (r: (usize, String))
    ensures
        r.0 == monitor_slot(monitors@, vp),
        r.1@ == output_name(monitors@, vp),
        r.0 < group_count(monitors@),
{
    let mut j: usize = 0;
    proof {
        assert(monitors@.skip(0) =~= monitors@);
    }
    while j < monitors.len()
        invariant
            j <= monitors.len(),
            monitor_match_offset(monitors@, vp, j as int),
        decreases monitors.len() - j,
    {
        proof {
            assert(monitors@.skip(j as int)[0] == monitors@[j as int]);
            assert(monitors@.skip(j as int).drop_first() =~= monitors@.skip(j + 1));
        }
        let m = &monitors[j];
        if m.0 == vp.0 && m.1 == vp.1 {
            proof {
                lemma_monitor_match_range(monitors@, vp);
            }
            return (j, m.2.clone());
        }
        j = j + 1;
    }
    proof {
        assert(monitors@.skip(monitors@.len() as int).len() == 0);
        assert(monitor_match(monitors@, vp) matches Option::None);
    }
    if monitors.len() > 0 {
        (0, monitors[0].2.clone())
    } else {
        (0, "[unknown]".to_owned())
    }
}

/// Assemble the workspace list the bar displays from the raw desktop
/// properties: the current-desktop index, the desktop names, the
/// desktop viewports, and the monitors.
///
/// Each desktop is matched to the monitor at its viewport (the first
/// monitor, or a placeholder, when none matches); the list is then
/// grouped by monitor, keeping desktop order within each monitor, and
/// re-numbered from one.
pub fn get_workspaces(
    current: usize,
    names: Vec<String>,
    viewports: Vec<(i32, i32)>,
    monitors: &Vec<Monitor>,
) -> (r: Vec<Workspace>)
    requires
        names@.len() < 0x7fffffff,
    ensures
        ({
            let entries = ws_entries(names@, viewports@, monitors@, current as int);
            let ordered = ordered_entries(entries, monitors@);
            &&& r@.len() == ordered.len()
            &&& r@.len() == names@.len()
            &&& forall|k: int|
                0 <= k < ordered.len() ==> {
                    let e = ordered[k];
                    &&& (#[trigger] r@[k]).number == k + 1
                    &&& r@[k].name@ == e.0
                    &&& r@[k].visible == e.1
                    &&& r@[k].focused == e.1
                    &&& !r@[k].urgent
                    &&& r@[k].output@ == e.3
                }
        }),
{
    let ghost entries = ws_entries(names@, viewports@, monitors@, current as int);
    let mut raw: Vec<RawEntry> = Vec::new();
    let mut k: usize = 0;
    while k < names.len()
        invariant
            k <= names.len(),
            raw@.len() == k,
            forall|i: int|
                0 <= i < k ==> entry_model(#[trigger] raw@[i]) == entries[i],
        decreases names.len() - k,
    {
        let focused = k == current;
        let vp: (i32, i32) = if k < viewports.len() {
            viewports[k]
        } else {
            (0, 0)
        };
        let looked = monitor_lookup(monitors, vp);
        let entry = RawEntry {
            name: names[k].clone(),
            focused,
            slot: looked.0,
            output: looked.1,
        };
        proof {
            assert(entry_model(entry) == entries[k as int]);
        }
        raw.push(entry);
        k = k + 1;
    }
    proof {
        assert forall|i: int| 0 <= i < entries.len() implies 0 <= (#[trigger] entries[i]).2
            < group_count(monitors@) by {
            lemma_slot_in_range(monitors@, viewport_of(viewports@, i));
        }
    }
    let groups: usize = if monitors.len() == 0 {
        1
    } else {
        monitors.len()
    };
    let mut ordered_raw: Vec<RawEntry> = Vec::new();
    let mut g: usize = 0;
    proof {
        assert(ordered_raw@.map_values(raw_model()) =~= ordered_entries_upto(entries, 0));
    }
    while g < groups
        invariant
            g <= groups,
            ordered_raw@.map_values(raw_model()) == ordered_entries_upto(entries, g as int),
        decreases groups - g,
    {
        let mut k2: usize = 0;
        proof {
            reveal(Seq::filter);
            assert(entries.take(0) =~= Seq::<WsEntry>::empty());
            assert(ordered_raw@.map_values(raw_model()) =~= ordered_entries_upto(
                entries,
                g as int,
            ) + entries.take(0).filter(in_group(g as int)));
        }
        while k2 < raw.len()
            invariant
                k2 <= raw.len(),
                ordered_raw@.map_values(raw_model()) == ordered_entries_upto(entries, g as int)
                    + entries.take(k2 as int).filter(in_group(g as int)),
            decreases raw.len() - k2,
        {
            proof {
                reveal(Seq::filter);
                assert(entries.take(k2 + 1).drop_last() =~= entries.take(k2 as int));
                assert(entries.take(k2 + 1).last() == entries[k2 as int]);
                assert(entry_model(raw@[k2 as int]) == entries[k2 as int]);
            }
            let e = &raw[k2];
            if e.slot == g {
                let ghost before = ordered_raw@;
                let c = copy_raw(e);
                proof {
                    assert(entry_model(c) == entries[k2 as int]);
                }
                ordered_raw.push(c);
                proof {
                    assert(in_group(g as int)(entries[k2 as int]));
                    assert(entries.take(k2 + 1).filter(in_group(g as int)) == entries.take(
                        k2 as int,
                    ).filter(in_group(g as int)).push(entries[k2 as int]));
                    assert(ordered_raw@ == before.push(c));
                    assert(ordered_raw@.map_values(raw_model()) =~= before.map_values(
                        raw_model(),
                    ).push(entry_model(c)));
                    assert(ordered_raw@.map_values(raw_model()) =~= ordered_entries_upto(
                        entries,
                        g as int,
                    ) + entries.take(k2 + 1).filter(in_group(g as int)));
                }
            } else {
                proof {
                    assert(ordered_raw@.map_values(raw_model()) =~= ordered_entries_upto(
                        entries,
                        g as int,
                    ) + entries.take(k2 + 1).filter(in_group(g as int)));
                }
            }
            k2 = k2 + 1;
        }
        proof {
            assert(entries.take(entries.len() as int) =~= entries);
            assert(ordered_raw@.map_values(raw_model()) =~= ordered_entries_upto(
                entries,
                g as int + 1,
            ));
        }
        g = g + 1;
    }
    proof {
        lemma_ordered_len(entries, groups as int);
        assert(ordered_raw@.map_values(raw_model()).len() == entries.len());
    }
    let ghost ordered = ordered_entries(entries, monitors@);
    let mut r: Vec<Workspace> = Vec::new();
    let mut k3: usize = 0;
    while k3 < ordered_raw.len()
        invariant
            k3 <= ordered_raw.len(),
            r@.len() == k3,
            forall|i: int|
                0 <= i < k3 ==> {
                    let e = ordered[i];
                    &&& (#[trigger] r@[i]).number == i + 1
                    &&& r@[i].name@ == e.0
                    &&& r@[i].visible == e.1
                    &&& r@[i].focused == e.1
                    &&& !r@[i].urgent
                    &&& r@[i].output@ == e.3
                },
        decreases ordered_raw.len() - k3,
    {
        proof {
            assert(entry_model(ordered_raw@[k3 as int]) == ordered[k3 as int]);
        }
        let e = &ordered_raw[k3];
        let w = Workspace {
            number: (k3 as i32) + 1,
            name: e.name.clone(),
            visible: e.focused,
            focused: e.focused,
            urgent: false,
            output: e.output.clone(),
        };
        r.push(w);
        k3 = k3 + 1;
    }
    r
}

} // verus!
