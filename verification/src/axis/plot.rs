//! Two-dimensional plots inside an axis environment: ordered coordinate
//! series, plot option keys with their conflict groups, and rendering of a
//! plot to its `\addplot` block.

use vstd::prelude::*;
use vstd::string::*;
use crate::text::char_count;
use crate::text::i64_text;
use crate::text::int_text;
use crate::text::lemma_char_count_add;
use crate::text::lemma_char_count_single;
use crate::text::lemma_int_text_count;

verus! {

/// One point of a plot's series. Order of coordinates within a series is the
/// draw order and is preserved exactly through rendering.
#[derive(Clone, Copy, PartialEq, Eq, Structural)]
pub struct Coordinate2D {
    pub x: i64,
    pub y: i64,
}

/// Mathematical model of a [`Coordinate2D`].
pub struct CoordinateView {
    pub x: int,
    pub y: int,
}

impl View for Coordinate2D {
    type V = CoordinateView;

    open spec fn view(&self) -> CoordinateView {
        CoordinateView { x: self.x as int, y: self.y as int }
    }
}

impl DeepView for Coordinate2D {
    type V = CoordinateView;

    open spec fn deep_view(&self) -> CoordinateView {
        self.view()
    }
}

/// The geometry family of a plot: how consecutive coordinates are joined.
/// All variants belong to one conflict group on a plot.
#[derive(Clone, Copy, PartialEq, Eq, Structural)]
pub enum Type2D {
    /// Join consecutive points with straight lines.
    Linear,
    /// Draw a mark at each point and no connecting line.
    OnlyMarks,
    /// A horizontal bar of the given width (and shift) at each point.
    XBar { bar_width: i64, bar_shift: i64 },
    /// A vertical bar of the given width (and shift) at each point.
    YBar { bar_width: i64, bar_shift: i64 },
}

/// PGFPlots options passed to an `\addplot` command.
///
/// The `Custom` variant carries a raw key-value fragment written verbatim into
/// the options of the plot; it never conflicts with anything, other `Custom`
/// entries included.
pub enum PlotKey {
    /// The geometry family of the plot; one plot holds at most one.
    Type2D(Type2D),
    /// Custom key-value pairs that have not been implemented. These are
    /// appended verbatim to the options of the plot.
    Custom(String),
}

/// Mathematical model of a [`PlotKey`].
pub enum PlotKeyView {
    Type2D(Type2D),
    Custom(Seq<char>),
}

impl View for PlotKey {
    type V = PlotKeyView;

    open spec fn view(&self) -> PlotKeyView {
        match self {
            PlotKey::Type2D(t) => PlotKeyView::Type2D(*t),
            PlotKey::Custom(s) => PlotKeyView::Custom(s@),
        }
    }
}

impl DeepView for PlotKey {
    type V = PlotKeyView;

    open spec fn deep_view(&self) -> PlotKeyView {
        self.view()
    }
}

impl Clone for PlotKey {
    /// Cloning a key preserves the option it models.
    fn clone(&self) -> (r: Self)
        ensures
            r@ == self@,
    {
        match self {
            PlotKey::Type2D(t) => PlotKey::Type2D(*t),
            PlotKey::Custom(s) => PlotKey::Custom(s.clone()),
        }
    }
}

/// Whether a plot key belongs to the free-form fallback family, which is
/// never deduplicated.
pub open spec fn plot_key_is_custom(k: PlotKeyView) -> bool {
    k is Custom
}

/// Whether two plot keys are mutually exclusive on one plot: both belong to
/// the same non-fallback family.
pub open spec fn plot_keys_conflict(a: PlotKeyView, b: PlotKeyView) -> bool {
    a is Type2D && b is Type2D
}

/// The key list with every member of `k`'s conflict group removed; the
/// identity when `k` is a fallback key.
pub open spec fn plot_keys_without_group(s: Seq<PlotKeyView>, k: PlotKeyView) -> Seq<PlotKeyView>
    decreases s.len(),
{
    if s.len() == 0 {
        s
    } else {
        plot_keys_without_group(s.drop_last(), k) + (if plot_keys_conflict(s.last(), k) {
            Seq::<PlotKeyView>::empty()
        } else {
            seq![s.last()]
        })
    }
}

/// What one `add_key` call leaves of a plot's key list: conflicting keys are
/// evicted, then the new key is appended.
pub open spec fn plot_add_key_spec(s: Seq<PlotKeyView>, k: PlotKeyView) -> Seq<PlotKeyView> {
    plot_keys_without_group(s, k).push(k)
}

/// The members of `k`'s conflict group present in `s`, in list order.
pub open spec fn plot_group_members(s: Seq<PlotKeyView>, k: PlotKeyView) -> Seq<PlotKeyView>
    decreases s.len(),
{
    if s.len() == 0 {
        s
    } else {
        plot_group_members(s.drop_last(), k) + (if plot_keys_conflict(s.last(), k) {
            seq![s.last()]
        } else {
            Seq::<PlotKeyView>::empty()
        })
    }
}

/// Group membership distributes over concatenation of key lists.
proof fn lemma_plot_group_members_add(a: Seq<PlotKeyView>, b: Seq<PlotKeyView>, k: PlotKeyView)
    ensures
        plot_group_members(a + b, k) == plot_group_members(a, k) + plot_group_members(b, k),
    decreases b.len(),
{
    if b.len() == 0 {
        assert(a + b =~= a);
        assert(plot_group_members(a, k) + plot_group_members(b, k) =~= plot_group_members(a, k));
    } else {
        lemma_plot_group_members_add(a, b.drop_last(), k);
        assert((a + b).drop_last() =~= a + b.drop_last());
        assert((a + b).last() == b.last());
        assert(plot_group_members(a, k) + plot_group_members(b.drop_last(), k) + (if plot_keys_conflict(
            b.last(),
            k,
        ) {
            seq![b.last()]
        } else {
            Seq::<PlotKeyView>::empty()
        }) =~= plot_group_members(a, k) + plot_group_members(b, k));
    }
}

/// Evicting `k`'s conflict group really leaves no member of it behind.
proof fn lemma_plot_without_group_clears(s: Seq<PlotKeyView>, k: PlotKeyView)
    ensures
        plot_group_members(plot_keys_without_group(s, k), k) == Seq::<PlotKeyView>::empty(),
    decreases s.len(),
{
    if s.len() > 0 {
        lemma_plot_without_group_clears(s.drop_last(), k);
        let tail = if plot_keys_conflict(s.last(), k) {
            Seq::<PlotKeyView>::empty()
        } else {
            seq![s.last()]
        };
        assert(plot_keys_without_group(s, k) == plot_keys_without_group(s.drop_last(), k)
            + tail);
        lemma_plot_group_members_add(plot_keys_without_group(s.drop_last(), k), tail, k);
        if plot_keys_conflict(s.last(), k) {
            assert(plot_group_members(tail, k) == Seq::<PlotKeyView>::empty());
        } else {
            assert(tail.drop_last().len() == 0);
            assert(plot_group_members(tail.drop_last(), k) == Seq::<PlotKeyView>::empty());
            assert(plot_group_members(tail, k) =~= Seq::<PlotKeyView>::empty());
        }
        assert(plot_group_members(plot_keys_without_group(s, k), k) =~= Seq::<
            PlotKeyView,
        >::empty());
    }
}

/// Last write wins: after adding a non-fallback key, its conflict group holds
/// exactly that key, whatever sequence of additions came before. Applied to
/// the final call of any sequence of `add_key` calls with keys of one
/// non-fallback family, it says the surviving list holds exactly one key of
/// that family: the last one added.
pub proof fn lemma_plot_add_key_last_wins(s: Seq<PlotKeyView>, k: PlotKeyView)
    requires
        !plot_key_is_custom(k),
    ensures
        plot_group_members(plot_add_key_spec(s, k), k) == seq![k],
{
    lemma_plot_without_group_clears(s, k);
    let w = plot_keys_without_group(s, k);
    assert(w.push(k).drop_last() =~= w);
    assert(w.push(k).last() == k);
    assert(plot_group_members(w.push(k), k) =~= seq![k]);
}

/// Evicting the conflict group of a fallback key removes nothing.
proof fn lemma_plot_without_group_custom_id(s: Seq<PlotKeyView>, k: PlotKeyView)
    requires
        plot_key_is_custom(k),
    ensures
        plot_keys_without_group(s, k) == s,
    decreases s.len(),
{
    if s.len() == 0 {
        assert(plot_keys_without_group(s, k) =~= s);
    } else {
        lemma_plot_without_group_custom_id(s.drop_last(), k);
        assert(!plot_keys_conflict(s.last(), k));
        assert(plot_keys_without_group(s, k) == plot_keys_without_group(s.drop_last(), k)
            + seq![s.last()]);
        assert(s.drop_last() + seq![s.last()] =~= s);
    }
}

/// Fallback keys are never deduplicated: adding one appends it and removes
/// nothing, so a sequence of fallback additions grows the list by one each
/// time, in insertion order.
pub proof fn lemma_plot_add_key_custom_appends(s: Seq<PlotKeyView>, k: PlotKeyView)
    requires
        plot_key_is_custom(k),
    ensures
        plot_add_key_spec(s, k) == s.push(k),
    decreases s.len(),
{
    lemma_plot_without_group_custom_id(s, k);
    assert(plot_keys_without_group(s, k).push(k) =~= s.push(k));
}

/// The option text of a geometry key.
pub open spec fn type2d_text(t: Type2D) -> Seq<char> {
    match t {
        Type2D::Linear => "sharp plot"@,
        Type2D::OnlyMarks => "only marks"@,
        Type2D::XBar { bar_width, bar_shift } => "xbar, bar width="@ + int_text(bar_width as int)
            + ", bar shift="@ + int_text(bar_shift as int),
        Type2D::YBar { bar_width, bar_shift } => "ybar, bar width="@ + int_text(bar_width as int)
            + ", bar shift="@ + int_text(bar_shift as int),
    }
}

/// The option text one plot key contributes, one line of the bracketed
/// options clause. Fallback text is emitted verbatim, unescaped.
pub open spec fn plot_key_text(k: PlotKeyView) -> Seq<char> {
    match k {
        PlotKeyView::Type2D(t) => type2d_text(t),
        PlotKeyView::Custom(s) => s,
    }
}

/// The key lines of the options clause: one tab-indented, comma-terminated
/// line per key, in list order.
pub open spec fn plot_key_lines(keys: Seq<PlotKeyView>) -> Seq<char>
    decreases keys.len(),
{
    if keys.len() == 0 {
        Seq::<char>::empty()
    } else {
        plot_key_lines(keys.drop_last()) + "\t"@ + plot_key_text(keys.last()) + ",\n"@
    }
}

/// One options line per key: appending a key to the list appends exactly its
/// tab-indented, comma-terminated line to the rendered key lines.
pub proof fn lemma_plot_key_lines_push(keys: Seq<PlotKeyView>, k: PlotKeyView)
    ensures
        plot_key_lines(keys.push(k)) == plot_key_lines(keys) + "\t"@ + plot_key_text(k)
            + ",\n"@,
{
    assert(keys.push(k).drop_last() =~= keys);
    assert(keys.push(k).last() == k);
}

/// The bracketed options clause of a plot: absent when the key list is empty.
pub open spec fn plot_key_clause(keys: Seq<PlotKeyView>) -> Seq<char> {
    if keys.len() == 0 {
        Seq::<char>::empty()
    } else {
        "[\n"@ + plot_key_lines(keys) + "]"@
    }
}

/// The text of one coordinate entry.
pub open spec fn coordinate_text(c: CoordinateView) -> Seq<char> {
    "("@ + int_text(c.x) + ","@ + int_text(c.y) + ")"@
}

/// The entries of the coordinate block: one tab-indented line per coordinate,
/// in series order, duplicates and all.
pub open spec fn coordinate_lines(s: Seq<CoordinateView>) -> Seq<char>
    decreases s.len(),
{
    if s.len() == 0 {
        Seq::<char>::empty()
    } else {
        coordinate_lines(s.drop_last()) + "\t"@ + coordinate_text(s.last()) + "\n"@
    }
}

/// Mathematical model of a [`Plot2D`]: its key list and its series.
pub struct PlotView {
    pub keys: Seq<PlotKeyView>,
    pub coordinates: Seq<CoordinateView>,
}

/// The full `\addplot` block of a plot: the options clause, then the
/// coordinate block nested in the plot's own envelope.
pub open spec fn plot_text(p: PlotView) -> Seq<char> {
    "\\addplot"@ + plot_key_clause(p.keys) + "\n"@ + "coordinates {\n"@ + coordinate_lines(
        p.coordinates,
    ) + "};"@
}

/// One two-dimensional plot: an ordered series of coordinates and the option
/// keys that control its appearance.
pub struct Plot2D {
    keys: Vec<PlotKey>,
    /// The plotted points, in draw order.
    pub coordinates: Vec<Coordinate2D>,
}

impl View for Plot2D {
    type V = PlotView;

    closed spec fn view(&self) -> PlotView {
        PlotView { keys: self.keys.deep_view(), coordinates: self.coordinates.deep_view() }
    }
}

impl DeepView for Plot2D {
    type V = PlotView;

    open spec fn deep_view(&self) -> PlotView {
        self.view()
    }
}

/// Exactly the fallback keys fail the conflict test against everything.
fn plot_keys_conflict_exec(a: &PlotKey, b: &PlotKey) -> (r: bool)
    ensures
        r == plot_keys_conflict(a@, b@),
{
    match (a, b) {
        (PlotKey::Type2D(_), PlotKey::Type2D(_)) => true,
        _ => false,
    }
}

impl Clone for Plot2D {
    /// Cloning a plot preserves its keys and its series.
    fn clone(&self) -> (r: Self)
        ensures
            r@ == self@,
    {
        let r = Plot2D { keys: self.keys.clone(), coordinates: self.coordinates.clone() };
        proof {
            assert forall|i: int| 0 <= i < self.keys@.len() implies r.keys@[i]@ == self.keys@[
                i
            ]@ by {
                assert(cloned::<PlotKey>(self.keys[i], r.keys[i]));
            }
            assert(r.keys.deep_view() =~= self.keys.deep_view());
            assert forall|i: int|
                0 <= i < self.coordinates@.len() implies r.coordinates@[i]
                == self.coordinates@[i] by {
                assert(cloned::<Coordinate2D>(self.coordinates[i], r.coordinates[i]));
            }
            assert(r.coordinates.deep_view() =~= self.coordinates.deep_view());
        }
        r
    }
}

impl Default for Plot2D {
    /// An empty plot.
    fn default() -> (p: Plot2D)
        ensures
            p@.keys == Seq::<PlotKeyView>::empty(),
            p@.coordinates == Seq::<CoordinateView>::empty(),
    {
        Plot2D::new()
    }
}

impl From<(i64, i64)> for Coordinate2D {
    /// The coordinate with the pair's first member as `x` and its second as
    /// `y`.
    fn from(pair: (i64, i64)) -> (c: Coordinate2D) {
        Coordinate2D { x: pair.0, y: pair.1 }
    }
}

impl vstd::std_specs::convert::FromSpecImpl<(i64, i64)> for Coordinate2D {
    open spec fn obeys_from_spec() -> bool {
        true
    }

    open spec fn from_spec(pair: (i64, i64)) -> Coordinate2D {
        Coordinate2D { x: pair.0, y: pair.1 }
    }
}

impl Plot2D {
    /// Create a new, empty plot.
    pub fn new() -> (p: Plot2D)
        ensures
            p@.keys == Seq::<PlotKeyView>::empty(),
            p@.coordinates == Seq::<CoordinateView>::empty(),
    {
        let p = Plot2D { keys: Vec::new(), coordinates: Vec::new() };
        proof {
            assert(p@.keys =~= Seq::<PlotKeyView>::empty());
            assert(p@.coordinates =~= Seq::<CoordinateView>::empty());
        }
        p
    }

    /// Add a key to control the appearance of the plot. This overwrites every
    /// previous mutually exclusive key; the fallback `Custom` keys are never
    /// overwritten. Adding a key cannot fail.
    pub fn add_key(&mut self, key: PlotKey)
        ensures
            final(self)@.keys == plot_add_key_spec(old(self)@.keys, key@),
            final(self)@.coordinates == old(self)@.coordinates,
    {
        let ghost orig = self.keys.deep_view();
        let mut kept: Vec<PlotKey> = Vec::new();
        let mut i: usize = 0;
        proof {
            assert(kept.deep_view() =~= plot_keys_without_group(orig.take(0), key@));
        }
        while i < self.keys.len()
            invariant
                i <= self.keys.len(),
                *self == *old(self),
                orig == self.keys.deep_view(),
                kept.deep_view() == plot_keys_without_group(orig.take(i as int), key@),
            decreases self.keys.len() - i,
        {
            let k = &self.keys[i];
            proof {
                assert(k@ == orig[i as int]);
            }
            if !plot_keys_conflict_exec(k, &key) {
                let ghost before = kept.deep_view();
                kept.push(k.clone());
                proof {
                    assert(kept.deep_view() =~= before.push(orig[i as int]));
                }
            }
            proof {
                let t = orig.take(i as int + 1);
                assert(t.drop_last() =~= orig.take(i as int));
                assert(t.last() == orig[i as int]);
                assert(kept.deep_view() =~= plot_keys_without_group(t, key@));
            }
            i = i + 1;
        }
        proof {
            assert(orig.take(orig.len() as int) =~= orig);
        }
        let ghost before = kept.deep_view();
        kept.push(key);
        self.keys = kept;
        proof {
            assert(self.keys.deep_view() =~= before.push(key@));
        }
    }

    /// Render this plot to its `\addplot` block.
    pub fn render(&self) -> (r: String)
        ensures
            r@ == plot_text(self@),
    {
        let mut s = String::new();
        s.append("\\addplot");
        if self.keys.len() > 0 {
            s.append("[\n");
            let mut i: usize = 0;
            proof {
                assert(s@ =~= "\\addplot"@ + "[\n"@ + plot_key_lines(
                    self.keys.deep_view().take(0),
                ));
            }
            while i < self.keys.len()
                invariant
                    i <= self.keys.len(),
                    s@ == "\\addplot"@ + "[\n"@ + plot_key_lines(
                        self.keys.deep_view().take(i as int),
                    ),
                decreases self.keys.len() - i,
            {
                let ghost orig = self.keys.deep_view();
                s.append("\t");
                let kt = self.render_key_at(i);
                s.append(kt.as_str());
                s.append(",\n");
                proof {
                    let t = orig.take(i as int + 1);
                    assert(t.drop_last() =~= orig.take(i as int));
                    assert(t.last() == orig[i as int]);
                    assert(s@ =~= "\\addplot"@ + "[\n"@ + plot_key_lines(t));
                }
                i = i + 1;
            }
            s.append("]");
            proof {
                assert(self.keys.deep_view().take(self.keys.deep_view().len() as int)
                    =~= self.keys.deep_view());
                assert(s@ =~= "\\addplot"@ + plot_key_clause(self@.keys));
            }
        }
        s.append("\n");
        s.append("coordinates {\n");
        let ghost head = s@;
        let mut j: usize = 0;
        proof {
            assert(s@ =~= head + coordinate_lines(self.coordinates.deep_view().take(0)));
        }
        while j < self.coordinates.len()
            invariant
                j <= self.coordinates.len(),
                s@ == head + coordinate_lines(self.coordinates.deep_view().take(j as int)),
            decreases self.coordinates.len() - j,
        {
            let ghost coords = self.coordinates.deep_view();
            s.append("\t");
            s.append("(");
            let xt = i64_text(self.coordinates[j].x);
            s.append(xt.as_str());
            s.append(",");
            let yt = i64_text(self.coordinates[j].y);
            s.append(yt.as_str());
            s.append(")");
            s.append("\n");
            proof {
                let t = coords.take(j as int + 1);
                assert(t.drop_last() =~= coords.take(j as int));
                assert(t.last() == coords[j as int]);
                assert(s@ =~= head + coordinate_lines(t));
            }
            j = j + 1;
        }
        proof {
            assert(self.coordinates.deep_view().take(self.coordinates.deep_view().len() as int)
                =~= self.coordinates.deep_view());
        }
        s.append("};");
        proof {
            assert(s@ =~= plot_text(self@));
        }
        s
    }

    /// Render the key at index `i` of this plot's key list.
    fn render_key_at(&self, i: usize) -> (r: String)
        requires
            i < self@.keys.len(),
        ensures
            r@ == plot_key_text(self@.keys[i as int]),
    {
        let k = &self.keys[i];
        proof {
            assert(k@ == self@.keys[i as int]);
        }
        match k {
            PlotKey::Custom(text) => text.clone(),
            PlotKey::Type2D(t) => render_type2d(t),
        }
    }
}

/// Render a geometry key to its option text.
fn render_type2d(t: &Type2D) -> (r: String)
    ensures
        r@ == type2d_text(*t),
{
    match t {
        Type2D::Linear => String::from_str("sharp plot"),
        Type2D::OnlyMarks => String::from_str("only marks"),
        Type2D::XBar { bar_width, bar_shift } => {
            let mut s = String::from_str("xbar, bar width=");
            s.append(i64_text(*bar_width).as_str());
            s.append(", bar shift=");
            s.append(i64_text(*bar_shift).as_str());
            proof {
                assert(s@ =~= type2d_text(*t));
            }
            s
        },
        Type2D::YBar { bar_width, bar_shift } => {
            let mut s = String::from_str("ybar, bar width=");
            s.append(i64_text(*bar_width).as_str());
            s.append(", bar shift=");
            s.append(i64_text(*bar_shift).as_str());
            proof {
                assert(s@ =~= type2d_text(*t));
            }
            s
        },
    }
}

/// One coordinate entry holds exactly one line, whatever its values: the
/// newline count of a rendered entry is one.
proof fn lemma_coordinate_text_newlines(c: CoordinateView)
    ensures
        char_count("\t"@ + coordinate_text(c) + "\n"@, '\n') == 1,
{
    reveal_strlit("\t");
    reveal_strlit("(");
    reveal_strlit(",");
    reveal_strlit(")");
    reveal_strlit("\n");
    lemma_char_count_single("\t"@, '\n');
    lemma_char_count_single("("@, '\n');
    lemma_char_count_single(","@, '\n');
    lemma_char_count_single(")"@, '\n');
    lemma_char_count_single("\n"@, '\n');
    lemma_int_text_count(c.x, '\n');
    lemma_int_text_count(c.y, '\n');
    lemma_char_count_add("("@, int_text(c.x), '\n');
    lemma_char_count_add("("@ + int_text(c.x), ","@, '\n');
    lemma_char_count_add("("@ + int_text(c.x) + ","@, int_text(c.y), '\n');
    lemma_char_count_add("("@ + int_text(c.x) + ","@ + int_text(c.y), ")"@, '\n');
    lemma_char_count_add("\t"@, coordinate_text(c), '\n');
    lemma_char_count_add("\t"@ + coordinate_text(c), "\n"@, '\n');
}

/// Round trip of a series through rendering: the coordinate block holds one
/// line per input coordinate — `n` coordinates in, `n` rendered entries out,
/// in series order by construction.
pub proof fn lemma_coordinate_lines_count(s: Seq<CoordinateView>)
    ensures
        char_count(coordinate_lines(s), '\n') == s.len(),
    decreases s.len(),
{
    if s.len() > 0 {
        lemma_coordinate_lines_count(s.drop_last());
        lemma_coordinate_text_newlines(s.last());
        lemma_char_count_add(
            coordinate_lines(s.drop_last()),
            "\t"@ + coordinate_text(s.last()) + "\n"@,
            '\n',
        );
        assert(coordinate_lines(s) =~= coordinate_lines(s.drop_last()) + ("\t"@ + coordinate_text(
            s.last(),
        ) + "\n"@));
    }
}

} // verus!
