//! The status document: labelled entries in insertion order.

use linear_map::LinearMap;
use vstd::prelude::*;
use vstd::string::*;

use crate::outside::{stat_entries, stat_map_insert, stat_map_new, stat_map_rows};

verus! {

/// One entry of the status document.
#[derive(Clone, Debug, PartialEq, Eq)]
pub struct Stat {
    /// The kind of value; every entry written here is a `"string"`.
    pub value_type: &'static str,
    /// The rendered value.
    pub value: String,
    /// What the value means, for a human reader.
    pub description: Option<String>,
    /// Whether the presentation layer offers to copy the value.
    pub copyable: bool,
    /// Whether the value may be shown as a QR code.
    pub qr: bool,
    /// Whether the value is sensitive and shown masked.
    pub masked: bool,
}

/// What an entry holds, as plain values.
pub struct StatView {
    pub value_type: Seq<char>,
    pub value: Seq<char>,
    pub description: Option<Seq<char>>,
    pub copyable: bool,
    pub qr: bool,
    pub masked: bool,
}

impl View for Stat {
    type V = StatView;

    open spec fn view(&self) -> StatView {
        StatView {
            value_type: self.value_type@,
            value: self.value@,
            description: match self.description {
                Some(d) => Some(d@),
                None => None,
            },
            copyable: self.copyable,
            qr: self.qr,
            masked: self.masked,
        }
    }
}

/// A labelled entry.
pub type Row = (Seq<char>, StatView);

/// Labelled entries in the order in which their labels first appeared.
pub type Rows = Seq<Row>;

/// A text entry with a description and the three display flags.
pub open spec fn text_stat(
    value: Seq<char>,
    description: Seq<char>,
    copyable: bool,
    qr: bool,
    masked: bool,
) -> StatView {
    StatView { value_type: "string"@, value, description: Some(description), copyable, qr, masked }
}

/// A text entry that is shown as it is: not copyable, no QR code, not masked.
pub open spec fn plain_stat(value: Seq<char>, description: Seq<char>) -> StatView {
    text_stat(value, description, false, false, false)
}

impl Stat {
    /// See [`text_stat`].
    pub fn text(value: String, description: String, copyable: bool, qr: bool, masked: bool) -> (stat:
        Stat)
        ensures
            stat@ == text_stat(value@, description@, copyable, qr, masked),
    {
        Stat { value_type: "string", value, description: Some(description), copyable, qr, masked }
    }

    /// See [`plain_stat`].
    pub fn plain(value: String, description: String) -> (stat: Stat)
        ensures
            stat@ == plain_stat(value@, description@),
    {
        Stat::text(value, description, false, false, false)
    }
}

/// Whether some entry of `rows` carries `label`.
pub open spec fn has_label(rows: Rows, label: Seq<char>) -> bool {
    exists|i: int| 0 <= i < rows.len() && (#[trigger] rows[i]).0 == label
}

/// Whether no label occurs twice in `rows`.
pub open spec fn distinct_labels(rows: Rows) -> bool {
    forall|i: int, j: int|
        0 <= i < j < rows.len() ==> (#[trigger] rows[i]).0 != (#[trigger] rows[j]).0
}

/// `rows` after `label` is set to `stat`: an entry that already carries the
/// label keeps its place and takes the new value; otherwise the entry is
/// added at the end.
pub open spec fn linear_insert(rows: Rows, label: Seq<char>, stat: StatView) -> Rows
    decreases rows.len(),
{
    if rows.len() == 0 {
        seq![(label, stat)]
    } else if rows[0].0 == label {
        seq![(label, stat)] + rows.drop_first()
    } else {
        seq![rows[0]] + linear_insert(rows.drop_first(), label, stat)
    }
}

/// `rows` after each entry of `added` has been set, first to last.
pub open spec fn insert_all(rows: Rows, added: Rows) -> Rows
    decreases added.len(),
{
    if added.len() == 0 {
        rows
    } else {
        linear_insert(insert_all(rows, added.drop_last()), added.last().0, added.last().1)
    }
}

/// The value that `rows` holds under `label`, if any.
pub open spec fn lookup(rows: Rows, label: Seq<char>) -> Option<StatView>
    decreases rows.len(),
{
    if rows.len() == 0 {
        None
    } else if rows[0].0 == label {
        Some(rows[0].1)
    } else {
        lookup(rows.drop_first(), label)
    }
}

/// Setting a label changes the number of entries by one exactly when the
/// label is new, and never disturbs the labels that were there.
pub proof fn lemma_linear_insert_shape(rows: Rows, label: Seq<char>, stat: StatView)
    ensures
        linear_insert(rows, label, stat).len() == if has_label(rows, label) {
            rows.len()
        } else {
            rows.len() + 1
        },
        forall|i: int| 0 <= i < rows.len() ==> (#[trigger] linear_insert(rows, label, stat)[i]).0 == rows[i].0,
        !has_label(rows, label) ==> linear_insert(rows, label, stat) == rows.push((label, stat)),
    decreases rows.len(),
{
    let out = linear_insert(rows, label, stat);
    if rows.len() == 0 {
        assert(out =~= rows.push((label, stat)));
    } else if rows[0].0 == label {
        assert(has_label(rows, label));
    } else {
        let rest = rows.drop_first();
        lemma_linear_insert_shape(rest, label, stat);
        if has_label(rows, label) {
            let i = choose|i: int| 0 <= i < rows.len() && (#[trigger] rows[i]).0 == label;
            assert(rest[i - 1] == rows[i]);
            assert(has_label(rest, label));
        } else {
            if has_label(rest, label) {
                let i = choose|i: int| 0 <= i < rest.len() && (#[trigger] rest[i]).0 == label;
                assert(rows[i + 1] == rest[i]);
            }
            assert(out =~= rows.push((label, stat)));
        }
        assert forall|i: int| 0 <= i < rows.len() implies (#[trigger] out[i]).0 == rows[i].0 by {
            if i > 0 {
                assert(out[i] == linear_insert(rest, label, stat)[i - 1]);
                assert(rest[i - 1] == rows[i]);
            }
        }
    }
}

/// Setting a label keeps the labels distinct.
pub proof fn lemma_linear_insert_distinct(rows: Rows, label: Seq<char>, stat: StatView)
    requires
        distinct_labels(rows),
    ensures
        distinct_labels(linear_insert(rows, label, stat)),
{
    lemma_linear_insert_shape(rows, label, stat);
    let out = linear_insert(rows, label, stat);
    if !has_label(rows, label) {
        assert forall|i: int, j: int| 0 <= i < j < out.len() implies (#[trigger] out[i]).0 != (
        #[trigger] out[j]).0 by {
            if j == rows.len() {
                assert(out[i].0 == rows[i].0);
            } else {
                assert(out[i].0 == rows[i].0);
                assert(out[j].0 == rows[j].0);
            }
        }
    } else {
        assert forall|i: int, j: int| 0 <= i < j < out.len() implies (#[trigger] out[i]).0 != (
        #[trigger] out[j]).0 by {
            assert(out[i].0 == rows[i].0);
            assert(out[j].0 == rows[j].0);
        }
    }
}

/// After a label is set, looking it up gives the new value, and every
/// other label gives what it gave before.
pub proof fn lemma_lookup_after_insert(
    rows: Rows,
    label: Seq<char>,
    stat: StatView,
    other: Seq<char>,
)
    ensures
        lookup(linear_insert(rows, label, stat), label) == Some(stat),
        other != label ==> lookup(linear_insert(rows, label, stat), other) == lookup(rows, other),
    decreases rows.len(),
{
    let out = linear_insert(rows, label, stat);
    if rows.len() == 0 {
        assert(out.drop_first() =~= rows);
    } else if rows[0].0 == label {
        assert(out.drop_first() =~= rows.drop_first());
    } else {
        lemma_lookup_after_insert(rows.drop_first(), label, stat, other);
        assert(out.drop_first() =~= linear_insert(rows.drop_first(), label, stat));
    }
}

/// The value of the last entry of `rows` that carries `label`, if any.
pub open spec fn last_with(rows: Rows, label: Seq<char>) -> Option<StatView>
    decreases rows.len(),
{
    if rows.len() == 0 {
        None
    } else if rows.last().0 == label {
        Some(rows.last().1)
    } else {
        last_with(rows.drop_last(), label)
    }
}

/// After entries have been set one after another, a label gives the value
/// of the last of them that carries it, and what it gave before if none does.
pub proof fn lemma_lookup_after_insert_all(rows: Rows, added: Rows, label: Seq<char>)
    ensures
        lookup(insert_all(rows, added), label) == match last_with(added, label) {
            Some(stat) => Some(stat),
            None => lookup(rows, label),
        },
    decreases added.len(),
{
    if added.len() > 0 {
        lemma_lookup_after_insert_all(rows, added.drop_last(), label);
        lemma_lookup_after_insert(
            insert_all(rows, added.drop_last()),
            added.last().0,
            added.last().1,
            label,
        );
    }
}

/// The last entry of `a + b` that carries a label is the last such entry
/// of `b`, or else of `a`.
pub proof fn lemma_last_with_concat(a: Rows, b: Rows, label: Seq<char>)
    ensures
        last_with(a + b, label) == match last_with(b, label) {
            Some(stat) => Some(stat),
            None => last_with(a, label),
        },
    decreases b.len(),
{
    if b.len() == 0 {
        assert(a + b =~= a);
    } else {
        assert((a + b).drop_last() =~= a + b.drop_last());
        assert((a + b).last() == b.last());
        lemma_last_with_concat(a, b.drop_last(), label);
    }
}

/// Where no entry carries a label, there is no last one that does.
pub proof fn lemma_last_with_absent(rows: Rows, label: Seq<char>)
    requires
        !has_label(rows, label),
    ensures
        last_with(rows, label) is None,
    decreases rows.len(),
{
    if rows.len() > 0 {
        assert(rows[rows.len() - 1].0 != label);
        assert forall|i: int| 0 <= i < rows.drop_last().len() implies (
        #[trigger] rows.drop_last()[i]).0 != label by {
            assert(rows[i].0 != label);
        }
        lemma_last_with_absent(rows.drop_last(), label);
    }
}

/// Setting the entries of `a + b` is setting those of `a`, then those of `b`.
pub proof fn lemma_insert_all_concat(rows: Rows, a: Rows, b: Rows)
    ensures
        insert_all(rows, a + b) == insert_all(insert_all(rows, a), b),
    decreases b.len(),
{
    if b.len() == 0 {
        assert(a + b =~= a);
    } else {
        lemma_insert_all_concat(rows, a, b.drop_last());
        assert((a + b).drop_last() =~= a + b.drop_last());
        assert((a + b).last() == b.last());
    }
}

/// Setting entries one after another keeps the labels distinct.
pub proof fn lemma_insert_all_distinct(rows: Rows, added: Rows)
    requires
        distinct_labels(rows),
    ensures
        distinct_labels(insert_all(rows, added)),
    decreases added.len(),
{
    if added.len() > 0 {
        lemma_insert_all_distinct(rows, added.drop_last());
        lemma_linear_insert_distinct(
            insert_all(rows, added.drop_last()),
            added.last().0,
            added.last().1,
        );
    }
}

/// The published document: a format version and the labelled entries.
#[derive(Clone, Debug)]
pub struct Stats {
    /// The version of the document's layout.
    pub version: u8,
    /// The entries, by label.
    pub data: LinearMap<String, Stat>,
}

/// What a document holds, as plain values.
pub struct StatsView {
    pub version: u8,
    pub data: Rows,
}

impl View for Stats {
    type V = StatsView;

    open spec fn view(&self) -> StatsView {
        StatsView { version: self.version, data: stat_entries(self.data) }
    }
}

/// The layout version that this library writes.
pub const STATS_VERSION: u8 = 2;

impl Stats {
    /// An empty document of the current version.
    pub fn new() -> (stats: Stats)
        ensures
            stats@.version == STATS_VERSION,
            stats@.data == Rows::empty(),
    {
        Stats { version: STATS_VERSION, data: stat_map_new() }
    }

    /// Sets `label` to `stat`: replaces the value of an entry that carries
    /// the label already, or adds a new last entry.
    pub fn insert(&mut self, label: String, stat: Stat)
        ensures
            final(self)@.version == old(self)@.version,
            final(self)@.data == linear_insert(old(self)@.data, label@, stat@),
    {
        stat_map_insert(&mut self.data, label, stat);
    }

    /// The entry that carries `label`, if there is one.
    pub fn find(&self, label: &str) -> (found: Option<Stat>)
        ensures
            match found {
                Some(stat) => lookup(self@.data, label@) == Some(stat@),
                None => lookup(self@.data, label@) is None,
            },
    {
        let wanted = String::from_str(label);
        let mut rows = self.entries();
        let ghost data = self@.data;
        let mut i: usize = 0;
        assert(data.skip(0) =~= data);
        while i < rows.len()
            invariant
                i <= rows@.len(),
                rows@.len() == data.len(),
                data == self@.data,
                wanted@ == label@,
                forall|k: int|
                    0 <= k < rows@.len() ==> (#[trigger] rows@[k]).0@ == data[k].0 && rows@[k].1@
                        == data[k].1,
                lookup(data, label@) == lookup(data.skip(i as int), label@),
            decreases rows@.len() - i,
        {
            proof {
                assert(rows@[i as int].0@ == data[i as int].0);
                assert(data.skip(i as int).drop_first() =~= data.skip(i + 1));
                assert(data.skip(i as int)[0] == data[i as int]);
            }
            if rows[i].0 == wanted {
                let ghost row = rows@[i as int];
                let taken = rows.remove(i);
                assert(taken == row);
                assert(lookup(data.skip(i as int), label@) == Some(data[i as int].1));
                return Some(taken.1);
            }
            i = i + 1;
        }
        assert(data.skip(i as int).len() == 0);
        None
    }

    /// The entries in document order.
    pub fn entries(&self) -> (rows: Vec<(String, Stat)>)
        ensures
            rows@.len() == self@.data.len(),
            forall|i: int|
                0 <= i < rows@.len() ==> (#[trigger] rows@[i]).0@ == self@.data[i].0 && rows@[i].1@
                    == self@.data[i].1,
    {
        stat_map_rows(&self.data)
    }
}

} // verus!
