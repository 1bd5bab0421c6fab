//! Axis environments inside a picture: axis option keys with their conflict
//! groups, the plots an axis owns, and rendering of an axis to its
//! `\begin{axis}` … `\end{axis}` block.

use vstd::prelude::*;
use vstd::string::*;
use crate::axis::plot::plot_text;
use crate::axis::plot::Plot2D;
use crate::axis::plot::PlotView;

pub mod plot;

verus! {

/// PGFPlots options passed to the `Axis` environment.
///
/// The typed variants each form their own conflict group: an axis holds at
/// most one of each. The `Custom` variant carries a raw key-value fragment
/// written verbatim into the options of the axis; it never conflicts with
/// anything, other `Custom` entries included.
pub enum AxisKey {
    /// The title shown above the axis.
    Title(String),
    /// The label of the horizontal axis.
    XLabel(String),
    /// The label of the vertical axis.
    YLabel(String),
    /// Custom key-value pairs that have not been implemented. These are
    /// appended verbatim to the options of the axis.
    Custom(String),
}

/// Mathematical model of an [`AxisKey`].
pub enum AxisKeyView {
    Title(Seq<char>),
    XLabel(Seq<char>),
    YLabel(Seq<char>),
    Custom(Seq<char>),
}

impl View for AxisKey {
    type V = AxisKeyView;

    open spec fn view(&self) -> AxisKeyView {
        match self {
            AxisKey::Title(s) => AxisKeyView::Title(s@),
            AxisKey::XLabel(s) => AxisKeyView::XLabel(s@),
            AxisKey::YLabel(s) => AxisKeyView::YLabel(s@),
            AxisKey::Custom(s) => AxisKeyView::Custom(s@),
        }
    }
}

impl DeepView for AxisKey {
    type V = AxisKeyView;

    open spec fn deep_view(&self) -> AxisKeyView {
        self.view()
    }
}

impl Clone for AxisKey {
    /// Cloning a key preserves the option it models.
    fn clone(&self) -> (r: Self)
        ensures
            r@ == self@,
    {
        match self {
            AxisKey::Title(s) => AxisKey::Title(s.clone()),
            AxisKey::XLabel(s) => AxisKey::XLabel(s.clone()),
            AxisKey::YLabel(s) => AxisKey::YLabel(s.clone()),
            AxisKey::Custom(s) => AxisKey::Custom(s.clone()),
        }
    }
}

/// Whether an axis key belongs to the free-form fallback family, which is
/// never deduplicated.
pub open spec fn axis_key_is_custom(k: AxisKeyView) -> bool {
    k is Custom
}

/// Whether two axis keys are mutually exclusive on one axis: both belong to
/// the same non-fallback family.
pub open spec fn axis_keys_conflict(a: AxisKeyView, b: AxisKeyView) -> bool {
    (a is Title && b is Title) || (a is XLabel && b is XLabel) || (a is YLabel && b is YLabel)
}

/// The key list with every member of `k`'s conflict group removed; the
/// identity when `k` is a fallback key.
pub open spec fn axis_keys_without_group(s: Seq<AxisKeyView>, k: AxisKeyView) -> Seq<AxisKeyView>
    decreases s.len(),
{
    if s.len() == 0 {
        s
    } else {
        axis_keys_without_group(s.drop_last(), k) + (if axis_keys_conflict(s.last(), k) {
            Seq::<AxisKeyView>::empty()
        } else {
            seq![s.last()]
        })
    }
}

/// What one `add_key` call leaves of an axis's key list: conflicting keys are
/// evicted, then the new key is appended.
pub open spec fn axis_add_key_spec(s: Seq<AxisKeyView>, k: AxisKeyView) -> Seq<AxisKeyView> {
    axis_keys_without_group(s, k).push(k)
}

/// The members of `k`'s conflict group present in `s`, in list order.
pub open spec fn axis_group_members(s: Seq<AxisKeyView>, k: AxisKeyView) -> Seq<AxisKeyView>
    decreases s.len(),
{
    if s.len() == 0 {
        s
    } else {
        axis_group_members(s.drop_last(), k) + (if axis_keys_conflict(s.last(), k) {
            seq![s.last()]
        } else {
            Seq::<AxisKeyView>::empty()
        })
    }
}

/// Group membership distributes over concatenation of key lists.
proof fn lemma_axis_group_members_add(a: Seq<AxisKeyView>, b: Seq<AxisKeyView>, k: AxisKeyView)
    ensures
        axis_group_members(a + b, k) == axis_group_members(a, k) + axis_group_members(b, k),
    decreases b.len(),
{
    if b.len() == 0 {
        assert(a + b =~= a);
        assert(axis_group_members(a, k) + axis_group_members(b, k) =~= axis_group_members(a, k));
    } else {
        lemma_axis_group_members_add(a, b.drop_last(), k);
        assert((a + b).drop_last() =~= a + b.drop_last());
        assert((a + b).last() == b.last());
        assert(axis_group_members(a, k) + axis_group_members(b.drop_last(), k) + (if axis_keys_conflict(
            b.last(),
            k,
        ) {
            seq![b.last()]
        } else {
            Seq::<AxisKeyView>::empty()
        }) =~= axis_group_members(a, k) + axis_group_members(b, k));
    }
}

/// Evicting `k`'s conflict group really leaves no member of it behind.
proof fn lemma_axis_without_group_clears(s: Seq<AxisKeyView>, k: AxisKeyView)
    ensures
        axis_group_members(axis_keys_without_group(s, k), k) == Seq::<AxisKeyView>::empty(),
    decreases s.len(),
{
    if s.len() > 0 {
        lemma_axis_without_group_clears(s.drop_last(), k);
        let tail = if axis_keys_conflict(s.last(), k) {
            Seq::<AxisKeyView>::empty()
        } else {
            seq![s.last()]
        };
        assert(axis_keys_without_group(s, k) == axis_keys_without_group(s.drop_last(), k)
            + tail);
        lemma_axis_group_members_add(axis_keys_without_group(s.drop_last(), k), tail, k);
        if axis_keys_conflict(s.last(), k) {
            assert(axis_group_members(tail, k) == Seq::<AxisKeyView>::empty());
        } else {
            assert(tail.drop_last().len() == 0);
            assert(axis_group_members(tail.drop_last(), k) == Seq::<AxisKeyView>::empty());
            assert(axis_group_members(tail, k) =~= Seq::<AxisKeyView>::empty());
        }
        assert(axis_group_members(axis_keys_without_group(s, k), k) =~= Seq::<
            AxisKeyView,
        >::empty());
    }
}

/// Last write wins: after adding a non-fallback key, its conflict group holds
/// exactly that key, whatever sequence of additions came before. Applied to
/// the final call of any sequence of `add_key` calls with keys of one
/// non-fallback family, it says the surviving list holds exactly one key of
/// that family: the last one added.
pub proof fn lemma_axis_add_key_last_wins(s: Seq<AxisKeyView>, k: AxisKeyView)
    requires
        !axis_key_is_custom(k),
    ensures
        axis_group_members(axis_add_key_spec(s, k), k) == seq![k],
{
    assert(axis_keys_conflict(k, k));
    lemma_axis_without_group_clears(s, k);
    let w = axis_keys_without_group(s, k);
    assert(w.push(k).drop_last() =~= w);
    assert(w.push(k).last() == k);
    assert(axis_group_members(w.push(k), k) =~= seq![k]);
}

/// Evicting the conflict group of a fallback key removes nothing.
proof fn lemma_axis_without_group_custom_id(s: Seq<AxisKeyView>, k: AxisKeyView)
    requires
        axis_key_is_custom(k),
    ensures
        axis_keys_without_group(s, k) == s,
    decreases s.len(),
{
    if s.len() == 0 {
        assert(axis_keys_without_group(s, k) =~= s);
    } else {
        lemma_axis_without_group_custom_id(s.drop_last(), k);
        assert(!axis_keys_conflict(s.last(), k));
        assert(axis_keys_without_group(s, k) == axis_keys_without_group(s.drop_last(), k)
            + seq![s.last()]);
        assert(s.drop_last() + seq![s.last()] =~= s);
    }
}

/// Fallback keys are never deduplicated: adding one appends it and removes
/// nothing, so a sequence of fallback additions grows the list by one each
/// time, in insertion order.
pub proof fn lemma_axis_add_key_custom_appends(s: Seq<AxisKeyView>, k: AxisKeyView)
    requires
        axis_key_is_custom(k),
    ensures
        axis_add_key_spec(s, k) == s.push(k),
    decreases s.len(),
{
    lemma_axis_without_group_custom_id(s, k);
    assert(axis_keys_without_group(s, k).push(k) =~= s.push(k));
}

/// The option text one axis key contributes, one line of the bracketed
/// options clause. Fallback text is emitted verbatim, unescaped.
pub open spec fn axis_key_text(k: AxisKeyView) -> Seq<char> {
    match k {
        AxisKeyView::Title(s) => "title={"@ + s + "}"@,
        AxisKeyView::XLabel(s) => "xlabel={"@ + s + "}"@,
        AxisKeyView::YLabel(s) => "ylabel={"@ + s + "}"@,
        AxisKeyView::Custom(s) => s,
    }
}

/// The key lines of the options clause: one tab-indented, comma-terminated
/// line per key, in list order.
pub open spec fn axis_key_lines(keys: Seq<AxisKeyView>) -> Seq<char>
    decreases keys.len(),
{
    if keys.len() == 0 {
        Seq::<char>::empty()
    } else {
        axis_key_lines(keys.drop_last()) + "\t"@ + axis_key_text(keys.last()) + ",\n"@
    }
}

/// One options line per key: appending a key to the list appends exactly its
/// tab-indented, comma-terminated line to the rendered key lines.
pub proof fn lemma_axis_key_lines_push(keys: Seq<AxisKeyView>, k: AxisKeyView)
    ensures
        axis_key_lines(keys.push(k)) == axis_key_lines(keys) + "\t"@ + axis_key_text(k)
            + ",\n"@,
{
    assert(keys.push(k).drop_last() =~= keys);
    assert(keys.push(k).last() == k);
}

/// The bracketed options clause of an axis: absent when the key list is
/// empty.
pub open spec fn axis_key_clause(keys: Seq<AxisKeyView>) -> Seq<char> {
    if keys.len() == 0 {
        Seq::<char>::empty()
    } else {
        "[\n"@ + axis_key_lines(keys) + "]"@
    }
}

/// The plot blocks of an axis, one per line, in list order.
pub open spec fn axis_plot_lines(plots: Seq<PlotView>) -> Seq<char>
    decreases plots.len(),
{
    if plots.len() == 0 {
        Seq::<char>::empty()
    } else {
        axis_plot_lines(plots.drop_last()) + plot_text(plots.last()) + "\n"@
    }
}

/// Mathematical model of an [`Axis`]: its key list and its plots.
pub struct AxisView {
    pub keys: Seq<AxisKeyView>,
    pub plots: Seq<PlotView>,
}

/// The full block of an axis: envelope, options clause, then every plot in
/// list order.
pub open spec fn axis_text(a: AxisView) -> Seq<char> {
    "\\begin{axis}"@ + axis_key_clause(a.keys) + "\n"@ + axis_plot_lines(a.plots)
        + "\\end{axis}"@
}

/// Axis environment inside a picture. An axis owns its plots and its option
/// keys; keys added to an axis never affect its plots' keys or vice versa.
pub struct Axis {
    keys: Vec<AxisKey>,
    /// The plots drawn inside this axis, in order.
    pub plots: Vec<Plot2D>,
}

impl View for Axis {
    type V = AxisView;

    closed spec fn view(&self) -> AxisView {
        AxisView { keys: self.keys.deep_view(), plots: self.plots.deep_view() }
    }
}

impl DeepView for Axis {
    type V = AxisView;

    open spec fn deep_view(&self) -> AxisView {
        self.view()
    }
}

/// Exactly the fallback keys fail the conflict test against everything.
fn axis_keys_conflict_exec(a: &AxisKey, b: &AxisKey) -> (r: bool)
    ensures
        r == axis_keys_conflict(a@, b@),
{
    match (a, b) {
        (AxisKey::Title(_), AxisKey::Title(_)) => true,
        (AxisKey::XLabel(_), AxisKey::XLabel(_)) => true,
        (AxisKey::YLabel(_), AxisKey::YLabel(_)) => true,
        _ => false,
    }
}

impl Clone for Axis {
    /// Cloning an axis preserves its keys and its plots.
    fn clone(&self) -> (r: Self)
        ensures
            r@ == self@,
    {
        let r = Axis { keys: self.keys.clone(), plots: self.plots.clone() };
        proof {
            assert forall|i: int| 0 <= i < self.keys@.len() implies r.keys@[i]@ == self.keys@[
                i
            ]@ by {
                assert(cloned::<AxisKey>(self.keys[i], r.keys[i]));
            }
            assert(r.keys.deep_view() =~= self.keys.deep_view());
            assert forall|i: int| 0 <= i < self.plots@.len() implies r.plots@[i]@ == self.plots@[
                i
            ]@ by {
                assert(cloned::<Plot2D>(self.plots[i], r.plots[i]));
            }
            assert(r.plots.deep_view() =~= self.plots.deep_view());
        }
        r
    }
}

impl Default for Axis {
    /// An empty axis environment.
    fn default() -> (a: Axis)
        ensures
            a@.keys == Seq::<AxisKeyView>::empty(),
            a@.plots == Seq::<PlotView>::empty(),
    {
        Axis::new()
    }
}

impl Axis {
    /// Create a new, empty axis environment.
    pub fn new() -> (a: Axis)
        ensures
            a@.keys == Seq::<AxisKeyView>::empty(),
            a@.plots == Seq::<PlotView>::empty(),
    {
        let a = Axis { keys: Vec::new(), plots: Vec::new() };
        proof {
            assert(a@.keys =~= Seq::<AxisKeyView>::empty());
            assert(a@.plots =~= Seq::<PlotView>::empty());
        }
        a
    }

    /// Add a key to control the appearance of the axis. This overwrites every
    /// previous mutually exclusive key; the fallback `Custom` keys are never
    /// overwritten. Adding a key cannot fail.
    pub fn add_key(&mut self, key: AxisKey)
        ensures
            final(self)@.keys == axis_add_key_spec(old(self)@.keys, key@),
            final(self)@.plots == old(self)@.plots,
    {
        let ghost orig = self.keys.deep_view();
        let mut kept: Vec<AxisKey> = Vec::new();
        let mut i: usize = 0;
        proof {
            assert(kept.deep_view() =~= axis_keys_without_group(orig.take(0), key@));
        }
        while i < self.keys.len()
            invariant
                i <= self.keys.len(),
                *self == *old(self),
                orig == self.keys.deep_view(),
                kept.deep_view() == axis_keys_without_group(orig.take(i as int), key@),
            decreases self.keys.len() - i,
        {
            let k = &self.keys[i];
            proof {
                assert(k@ == orig[i as int]);
            }
            if !axis_keys_conflict_exec(k, &key) {
                let ghost before = kept.deep_view();
                kept.push(k.clone());
                proof {
                    assert(kept.deep_view() =~= before.push(orig[i as int]));
                }
            }
            proof {
                let t = orig.take(i as int + 1);
                assert(t.drop_last() =~= orig.take(i as int));
                assert(t.last() == orig[i as int]);
                assert(kept.deep_view() =~= axis_keys_without_group(t, key@));
            }
            i = i + 1;
        }
        proof {
            assert(orig.take(orig.len() as int) =~= orig);
        }
        let ghost before = kept.deep_view();
        kept.push(key);
        self.keys = kept;
        proof {
            assert(self.keys.deep_view() =~= before.push(key@));
        }
    }

    /// Set the title of the axis, replacing any previous title key.
    pub fn set_title(&mut self, title: &str)
        ensures
            final(self)@.keys == axis_add_key_spec(
                old(self)@.keys,
                AxisKeyView::Title(title@),
            ),
            final(self)@.plots == old(self)@.plots,
    {
        self.add_key(AxisKey::Title(String::from_str(title)));
    }

    /// Set the label of the horizontal axis, replacing any previous one.
    pub fn set_x_label(&mut self, label: &str)
        ensures
            final(self)@.keys == axis_add_key_spec(
                old(self)@.keys,
                AxisKeyView::XLabel(label@),
            ),
            final(self)@.plots == old(self)@.plots,
    {
        self.add_key(AxisKey::XLabel(String::from_str(label)));
    }

    /// Set the label of the vertical axis, replacing any previous one.
    pub fn set_y_label(&mut self, label: &str)
        ensures
            final(self)@.keys == axis_add_key_spec(
                old(self)@.keys,
                AxisKeyView::YLabel(label@),
            ),
            final(self)@.plots == old(self)@.plots,
    {
        self.add_key(AxisKey::YLabel(String::from_str(label)));
    }

    /// Render the key at index `i` of this axis's key list.
    fn render_key_at(&self, i: usize) -> (r: String)
        requires
            i < self@.keys.len(),
        ensures
            r@ == axis_key_text(self@.keys[i as int]),
    {
        let k = &self.keys[i];
        proof {
            assert(k@ == self@.keys[i as int]);
        }
        match k {
            AxisKey::Title(text) => {
                let mut s = String::from_str("title={");
                s.append(text.as_str());
                s.append("}");
                proof {
                    assert(s@ =~= axis_key_text(k@));
                }
                s
            },
            AxisKey::XLabel(text) => {
                let mut s = String::from_str("xlabel={");
                s.append(text.as_str());
                s.append("}");
                proof {
                    assert(s@ =~= axis_key_text(k@));
                }
                s
            },
            AxisKey::YLabel(text) => {
                let mut s = String::from_str("ylabel={");
                s.append(text.as_str());
                s.append("}");
                proof {
                    assert(s@ =~= axis_key_text(k@));
                }
                s
            },
            AxisKey::Custom(text) => text.clone(),
        }
    }

    /// Render this axis to its `\begin{axis}` … `\end{axis}` block.
    pub fn render(&self) -> (r: String)
        ensures
            r@ == axis_text(self@),
    {
        let mut s = String::new();
        s.append("\\begin{axis}");
        if self.keys.len() > 0 {
            s.append("[\n");
            let mut i: usize = 0;
            proof {
                assert(s@ =~= "\\begin{axis}"@ + "[\n"@ + axis_key_lines(
                    self.keys.deep_view().take(0),
                ));
            }
            while i < self.keys.len()
                invariant
                    i <= self.keys.len(),
                    s@ == "\\begin{axis}"@ + "[\n"@ + axis_key_lines(
                        self.keys.deep_view().take(i as int),
                    ),
                decreases self.keys.len() - i,
            {
                let ghost orig = self.keys.deep_view();
                s.append("\t");
                let kt = self.render_key_at(i);
                s.append(kt.as_str());
                s.append(",\n");
                proof {
                    let t = orig.take(i as int + 1);
                    assert(t.drop_last() =~= orig.take(i as int));
                    assert(t.last() == orig[i as int]);
                    assert(s@ =~= "\\begin{axis}"@ + "[\n"@ + axis_key_lines(t));
                }
                i = i + 1;
            }
            s.append("]");
            proof {
                assert(self.keys.deep_view().take(self.keys.deep_view().len() as int)
                    =~= self.keys.deep_view());
                assert(s@ =~= "\\begin{axis}"@ + axis_key_clause(self@.keys));
            }
        }
        s.append("\n");
        let ghost head = s@;
        let mut j: usize = 0;
        proof {
            assert(s@ =~= head + axis_plot_lines(self.plots.deep_view().take(0)));
        }
        while j < self.plots.len()
            invariant
                j <= self.plots.len(),
                s@ == head + axis_plot_lines(self.plots.deep_view().take(j as int)),
            decreases self.plots.len() - j,
        {
            let ghost plots = self.plots.deep_view();
            let p = &self.plots[j];
            let pt = p.render();
            s.append(pt.as_str());
            s.append("\n");
            proof {
                let t = plots.take(j as int + 1);
                assert(t.drop_last() =~= plots.take(j as int));
                assert(t.last() == plots[j as int]);
                assert(s@ =~= head + axis_plot_lines(t));
            }
            j = j + 1;
        }
        proof {
            assert(self.plots.deep_view().take(self.plots.deep_view().len() as int)
                =~= self.plots.deep_view());
        }
        s.append("\\end{axis}");
        proof {
            assert(s@ =~= axis_text(self@));
        }
        s
    }
}

} // verus!
