//! A PGFPlots code generator: build a picture/axis/plot scene graph, attach
//! typed or free-form option keys to each node, and serialize the graph to
//! standalone LaTeX source ready for a TeX engine.
//!
//! Rendering is a pure read of the structure: every `render` method and
//! `standalone_string` is specified as equal to a mathematical function of
//! the node's view, so rendering an unmutated graph twice yields
//! byte-identical text.

use vstd::prelude::*;
use vstd::string::*;

use crate::axis::axis_text;
use crate::axis::Axis;
use crate::axis::AxisView;

/// Axis environment inside a [`Picture`].
pub mod axis;
/// Compilation of an assembled document into a viewable artifact.
pub mod pipeline;
/// Decimal text of integers and character counting.
pub mod text;

pub use crate::pipeline::Compiler;
pub use crate::pipeline::Engine;
pub use crate::pipeline::ShowPdfError;

verus! {

/// TikZ options passed to the `Picture` environment.
///
/// The `Custom` variant carries a raw key-value fragment that is written
/// verbatim into the options of the picture environment; it never conflicts
/// with anything, other `Custom` entries included.
pub enum PictureKey {
    /// Custom key-value pairs that have not been implemented. These are
    /// appended verbatim to the options of the `Picture`.
    Custom(String),
}

/// Mathematical model of a [`PictureKey`].
pub enum PictureKeyView {
    Custom(Seq<char>),
}

impl View for PictureKey {
    type V = PictureKeyView;

    open spec fn view(&self) -> PictureKeyView {
        match self {
            PictureKey::Custom(s) => PictureKeyView::Custom(s@),
        }
    }
}

impl DeepView for PictureKey {
    type V = PictureKeyView;

    open spec fn deep_view(&self) -> PictureKeyView {
        self.view()
    }
}

impl Clone for PictureKey {
    /// Cloning a key preserves the option it models.
    fn clone(&self) -> (r: Self)
        ensures
            r@ == self@,
    {
        match self {
            PictureKey::Custom(s) => PictureKey::Custom(s.clone()),
        }
    }
}

/// The option text one picture key contributes, one line of the bracketed
/// options clause. Fallback text is emitted verbatim, unescaped.
pub open spec fn picture_key_text(k: PictureKeyView) -> Seq<char> {
    match k {
        PictureKeyView::Custom(s) => s,
    }
}

/// The key lines of the options clause: one tab-indented, comma-terminated
/// line per key, in list order.
pub open spec fn picture_key_lines(keys: Seq<PictureKeyView>) -> Seq<char>
    decreases keys.len(),
{
    if keys.len() == 0 {
        Seq::<char>::empty()
    } else {
        picture_key_lines(keys.drop_last()) + "\t"@ + picture_key_text(keys.last()) + ",\n"@
    }
}

/// One options line per key: appending a key to the list appends exactly its
/// tab-indented, comma-terminated line to the rendered key lines.
pub proof fn lemma_picture_key_lines_push(keys: Seq<PictureKeyView>, k: PictureKeyView)
    ensures
        picture_key_lines(keys.push(k)) == picture_key_lines(keys) + "\t"@ + picture_key_text(k)
            + ",\n"@,
{
    assert(keys.push(k).drop_last() =~= keys);
    assert(keys.push(k).last() == k);
}

/// The bracketed options clause of a picture: absent when the key list is
/// empty; otherwise it holds every surviving key exactly once, in list order.
pub open spec fn picture_key_clause(keys: Seq<PictureKeyView>) -> Seq<char> {
    if keys.len() == 0 {
        Seq::<char>::empty()
    } else {
        "[\n"@ + picture_key_lines(keys) + "]"@
    }
}

/// The axis blocks of a picture, one per line, in list order.
pub open spec fn picture_axis_lines(axes: Seq<AxisView>) -> Seq<char>
    decreases axes.len(),
{
    if axes.len() == 0 {
        Seq::<char>::empty()
    } else {
        picture_axis_lines(axes.drop_last()) + axis_text(axes.last()) + "\n"@
    }
}

/// Mathematical model of a [`Picture`]: its key list and its axes.
pub struct PictureView {
    pub keys: Seq<PictureKeyView>,
    pub axes: Seq<AxisView>,
}

/// The full `tikzpicture` block of a picture.
pub open spec fn picture_text(p: PictureView) -> Seq<char> {
    "\\begin{tikzpicture}"@ + picture_key_clause(p.keys) + "\n"@ + picture_axis_lines(p.axes)
        + "\\end{tikzpicture}"@
}

/// The standalone LaTeX document that wraps one picture: a fixed preamble,
/// the picture block, and the closing of the document environment.
pub open spec fn standalone_text(p: PictureView) -> Seq<char> {
    "\\documentclass{standalone}\n\\usepackage{pgfplots}\n\\begin{document}\n"@ + picture_text(p)
        + "\n\\end{document}"@
}

/// Picture environment.
///
/// Creating a `Picture` is equivalent to the TikZ graphics environment:
///
/// ```text
/// \begin{tikzpicture}[PictureKeys]
///     % axis environments
/// \end{tikzpicture}
/// ```
///
/// You will rarely interact with a `Picture` directly. It is only useful to
/// generate complex layouts with multiple axis environments.
pub struct Picture {
    keys: Vec<PictureKey>,
    /// The axis environments of the picture, in order.
    pub axes: Vec<Axis>,
}

impl View for Picture {
    type V = PictureView;

    closed spec fn view(&self) -> PictureView {
        PictureView { keys: self.keys.deep_view(), axes: self.axes.deep_view() }
    }
}

impl Clone for Picture {
    /// Cloning a picture preserves its keys and its axes.
    fn clone(&self) -> (r: Self)
        ensures
            r@ == self@,
    {
        let r = Picture { keys: self.keys.clone(), axes: self.axes.clone() };
        proof {
            assert forall|i: int| 0 <= i < self.keys@.len() implies r.keys@[i]@ == self.keys@[
                i
            ]@ by {
                assert(cloned::<PictureKey>(self.keys[i], r.keys[i]));
            }
            assert(r.keys.deep_view() =~= self.keys.deep_view());
            assert forall|i: int| 0 <= i < self.axes@.len() implies r.axes@[i]@ == self.axes@[
                i
            ]@ by {
                assert(cloned::<Axis>(self.axes[i], r.axes[i]));
            }
            assert(r.axes.deep_view() =~= self.axes.deep_view());
        }
        r
    }
}

impl Default for Picture {
    /// An empty picture environment.
    fn default() -> (p: Picture)
        ensures
            p@.keys == Seq::<PictureKeyView>::empty(),
            p@.axes == Seq::<AxisView>::empty(),
    {
        Picture::new()
    }
}

impl Picture {
    /// Create a new, empty picture environment.
    pub fn new() -> (p: Picture)
        ensures
            p@.keys == Seq::<PictureKeyView>::empty(),
            p@.axes == Seq::<AxisView>::empty(),
    {
        let p = Picture { keys: Vec::new(), axes: Vec::new() };
        proof {
            assert(p@.keys =~= Seq::<PictureKeyView>::empty());
            assert(p@.axes =~= Seq::<AxisView>::empty());
        }
        p
    }

    /// Add a key to control the appearance of the picture. This would
    /// overwrite any previous mutually exclusive key; as the only key family
    /// today is the fallback `Custom` family, which never conflicts, the key
    /// is always appended. Adding a key cannot fail.
    pub fn add_key(&mut self, key: PictureKey)
        ensures
            final(self)@.keys == old(self)@.keys.push(key@),
            final(self)@.axes == old(self)@.axes,
    {
        let ghost before = self.keys.deep_view();
        self.keys.push(key);
        proof {
            assert(self.keys.deep_view() =~= before.push(key@));
        }
    }

    /// Render the key at index `i` of this picture's key list.
    fn render_key_at(&self, i: usize) -> (r: String)
        requires
            i < self@.keys.len(),
        ensures
            r@ == picture_key_text(self@.keys[i as int]),
    {
        let k = &self.keys[i];
        proof {
            assert(k@ == self@.keys[i as int]);
        }
        match k {
            PictureKey::Custom(text) => text.clone(),
        }
    }

    /// Render this picture to its `tikzpicture` block.
    pub fn render(&self) -> (r: String)
        ensures
            r@ == picture_text(self@),
    {
        let mut s = String::new();
        s.append("\\begin{tikzpicture}");
        if self.keys.len() > 0 {
            s.append("[\n");
            let mut i: usize = 0;
            proof {
                assert(s@ =~= "\\begin{tikzpicture}"@ + "[\n"@ + picture_key_lines(
                    self.keys.deep_view().take(0),
                ));
            }
            while i < self.keys.len()
                invariant
                    i <= self.keys.len(),
                    s@ == "\\begin{tikzpicture}"@ + "[\n"@ + picture_key_lines(
                        self.keys.deep_view().take(i as int),
                    ),
                decreases self.keys.len() - i,
            {
                let ghost orig = self.keys.deep_view();
                s.append("\t");
                let kt = self.render_key_at(i);
                s.append(kt.as_str());
                s.append(",\n");
                proof {
                    let t = orig.take(i as int + 1);
                    assert(t.drop_last() =~= orig.take(i as int));
                    assert(t.last() == orig[i as int]);
                    assert(s@ =~= "\\begin{tikzpicture}"@ + "[\n"@ + picture_key_lines(t));
                }
                i = i + 1;
            }
            s.append("]");
            proof {
                assert(self.keys.deep_view().take(self.keys.deep_view().len() as int)
                    =~= self.keys.deep_view());
                assert(s@ =~= "\\begin{tikzpicture}"@ + picture_key_clause(self@.keys));
            }
        }
        s.append("\n");
        let ghost head = s@;
        let mut j: usize = 0;
        proof {
            assert(s@ =~= head + picture_axis_lines(self.axes.deep_view().take(0)));
        }
        while j < self.axes.len()
            invariant
                j <= self.axes.len(),
                s@ == head + picture_axis_lines(self.axes.deep_view().take(j as int)),
            decreases self.axes.len() - j,
        {
            let ghost axes = self.axes.deep_view();
            let a = &self.axes[j];
            let at = a.render();
            s.append(at.as_str());
            s.append("\n");
            proof {
                let t = axes.take(j as int + 1);
                assert(t.drop_last() =~= axes.take(j as int));
                assert(t.last() == axes[j as int]);
                assert(s@ =~= head + picture_axis_lines(t));
            }
            j = j + 1;
        }
        proof {
            assert(self.axes.deep_view().take(self.axes.deep_view().len() as int)
                =~= self.axes.deep_view());
        }
        s.append("\\end{tikzpicture}");
        proof {
            assert(s@ =~= picture_text(self@));
        }
        s
    }

    /// Return a `String` with valid LaTeX code that generates a standalone
    /// PDF with the picture environment.
    ///
    /// The embedded newlines and tabs are cosmetic, for human readability of
    /// the generated source. Passing this string directly as a command-line
    /// argument to a LaTeX compiler can fail; it is then necessary to replace
    /// all occurrences of `\n` and `\t` with white space first, which
    /// [`crate::pipeline::normalized`] does. The compilation pipeline's own
    /// plan writes the text to a file instead, where no such replacement is
    /// needed.
    pub fn standalone_string(&self) -> (r: String)
        ensures
            r@ == standalone_text(self@),
    {
        let mut s = String::from_str(
            "\\documentclass{standalone}\n\\usepackage{pgfplots}\n\\begin{document}\n",
        );
        let pt = self.render();
        s.append(pt.as_str());
        s.append("\n\\end{document}");
        proof {
            assert(s@ =~= standalone_text(self@));
        }
        s
    }
}

} // verus!
