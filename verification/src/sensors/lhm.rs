//! The sensors of LibreHardwareMonitor, as its web server publishes them.
//!
//! Up to version 0.9.4, LHM published its sensors in the WMI namespace
//! `root\LibreHardwareMonitor`. Version 0.9.5 removed that provider and only keeps its HTTP
//! server, whose `data.json` carries exactly the same fields in another shape: a tree, in
//! which only sensor nodes carry a `SensorId`. The providers that read this source only
//! see a list of rows, the same whichever way it was read.

use vstd::prelude::*;

use crate::sensors::metric::Value;
use crate::text::{lowercase, to_lowercase};

verus! {

/// Default listening port of LHM's web server. The user may pick another in its options.
pub const DEFAULT_PORT: u16 = 8085;

/// What is missing when the source cannot be reached, in the user's terms.
pub const UNAVAILABLE_REASON: &'static str = "LibreHardwareMonitor ne publie aucune mesure";

/// What to do about it.
pub const UNAVAILABLE_HINT: &'static str = "Lancer LibreHardwareMonitor en administrateur, puis activer son serveur web (Options → Remote Web Server → Run) : depuis la version 0.9.5, c'est la seule voie de lecture.";

/// What must be known of a sensor, whichever way it was read.
pub struct SensorRow {
    /// Hierarchical identifier: `/intelcpu/0/temperature/0`, `/gpu-amd/0/load/0`.
    pub id: String,
    /// `Temperature`, `Power`, `Clock`, `Load`…
    pub kind: String,
    /// Displayed label, already in lowercase — every comparison is made that way.
    pub name: String,
    pub value: Value,
}

/// A sensor row, as plain values.
pub struct RowView {
    pub id: Seq<char>,
    pub kind: Seq<char>,
    pub name: Seq<char>,
    pub value: Value,
}

impl View for SensorRow {
    type V = RowView;

    open spec fn view(&self) -> RowView {
        RowView { id: self.id@, kind: self.kind@, name: self.name@, value: self.value }
    }
}

/// A node of the tree `data.json` holds. Only sensor nodes carry a `SensorId`; the others
/// are there for their children.
pub struct Node {
    pub text: String,
    pub sensor_id: Option<String>,
    pub kind: Option<String>,
    /// The number `RawValue` holds, if it holds one: a sensor without a reading writes the
    /// string `"NaN"`, which arrives here as a not-a-number value. `Value` is a localised
    /// string, hence useless, and is not kept.
    pub raw_value: Option<Value>,
    pub children: Vec<Node>,
}

/// The row a node contributes itself: one when it is a sensor with a number.
pub open spec fn own_rows(n: Node) -> Seq<RowView> {
    match (n.sensor_id, n.raw_value) {
        (Some(id), Some(value)) => seq![
            RowView {
                id: id@,
                kind: match n.kind {
                    Some(k) => k@,
                    None => Seq::empty(),
                },
                name: lowercase(n.text@),
                value,
            },
        ],
        _ => Seq::empty(),
    }
}

/// The rows of a subtree, depth first: the node's own, then those of each child in order.
pub open spec fn rows_of(n: Node) -> Seq<RowView>
    decreases n, 1int,
{
    own_rows(n) + rows_of_all(n.children@)
}

/// The rows of a list of subtrees, in order.
pub open spec fn rows_of_all(ns: Seq<Node>) -> Seq<RowView>
    decreases ns, 0int,
{
    if ns.len() == 0 {
        Seq::empty()
    } else {
        rows_of_all(ns.drop_last()) + rows_of(ns.last())
    }
}

/// The views of a list of rows.
pub open spec fn row_views(v: Seq<SensorRow>) -> Seq<RowView> {
    v.map_values(|r: SensorRow| r@)
}

/// Appends the rows of the subtree at `node` to `out`, depth first.
pub fn collect(node: &Node, out: &mut Vec<SensorRow>)
    ensures
        row_views(final(out)@) == row_views(old(out)@) + rows_of(*node),
    decreases node, 1int,
{
    let ghost start = row_views(out@);
    match (&node.sensor_id, &node.raw_value) {
        (Some(id), Some(value)) => {
            let kind = match &node.kind {
                Some(k) => k.clone(),
                None => String::new(),
            };
            out.push(SensorRow { id: id.clone(), kind, name: to_lowercase(node.text.as_str()), value: *value });
        },
        _ => {},
    }
    assert(row_views(out@) == start + own_rows(*node));
    let mut i: usize = 0;
    while i < node.children.len()
        invariant
            i <= node.children.len(),
            row_views(out@) == start + own_rows(*node) + rows_of_all(node.children@.take(i as int)),
        decreases node.children.len() - i,
    {
        let ghost before = row_views(out@);
        assert(decreases_to!(node => node.children@[i as int]));
        collect(&node.children[i], out);
        assert(node.children@.take(i as int + 1).drop_last() == node.children@.take(i as int));
        assert(node.children@.take(i as int + 1).last() == node.children@[i as int]);
        i = i + 1;
    }
    assert(node.children@.take(node.children.len() as int) == node.children@);
}

/// The sensor rows of a whole tree.
pub fn flatten(root: &Node) -> (rows: Vec<SensorRow>)
    ensures
        row_views(rows@) == rows_of(*root),
{
    let mut out: Vec<SensorRow> = Vec::new();
    assert(row_views(out@) =~= Seq::<RowView>::empty());
    collect(root, &mut out);
    assert(row_views(out@) =~= rows_of(*root));
    out
}

} // verus!
