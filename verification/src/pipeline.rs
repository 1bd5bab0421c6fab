//! The compilation pipeline: how an assembled standalone document becomes a
//! viewable artifact.
//!
//! The pipeline itself performs no I/O. It is a state machine: from the
//! chosen strategy and the assembled text it derives the exact sequence of
//! outside actions to perform (prepare the scratch directory, write the
//! source file, run the engine or the embedded compiler, open the artifact),
//! and it classifies the reported outcome of those actions. A thin driver
//! performs each [`Action`] and feeds the outcome back as a [`StepEvent`].
//!
//! The scratch directory is a fixed path under the system temporary-file
//! root, deleted and recreated at the start of every compilation. Two
//! concurrent compilations on one host therefore race destructively on it:
//! compilations must be issued one at a time. Sequential compilations each
//! see a freshly emptied scratch directory.

use vstd::prelude::*;
use vstd::string::*;

verus! {

/// The strategy that turns the assembled document into an artifact.
#[derive(Clone, Copy, PartialEq, Eq, Structural)]
pub enum Compiler {
    /// The embedded compiler: an in-process function from LaTeX source to
    /// PDF bytes.
    Tectonic,
    /// An external engine installed on the host, run as a subprocess.
    Installed(Engine),
}

/// A LaTeX engine installed on the host.
#[derive(Clone, Copy, PartialEq, Eq, Structural)]
#[non_exhaustive]
pub enum Engine {
    PdfLatex,
}

/// The executable name of an engine.
pub open spec fn engine_text(e: Engine) -> Seq<char> {
    match e {
        Engine::PdfLatex => "pdflatex"@,
    }
}

impl Engine {
    /// The name under which the engine is invoked.
    pub fn name(&self) -> (r: String)
        ensures
            r@ == engine_text(*self),
    {
        match self {
            Engine::PdfLatex => String::from_str("pdflatex"),
        }
    }
}

/// The error type returned when showing a figure fails.
pub enum ShowPdfError {
    /// Compilation of the LaTeX source failed: the embedded compiler
    /// reported an error, or the external engine exited with a nonzero
    /// status.
    Tectonic(String),
    /// Encountered some kind of I/O error.
    IoError(String),
    /// Failed to launch a program: the engine could not be started, or the
    /// artifact could not be opened in a viewer.
    Open(String),
}

impl Clone for ShowPdfError {
    /// Cloning an error preserves its kind and its message.
    fn clone(&self) -> (r: Self)
        ensures
            r@ == self@,
    {
        match self {
            ShowPdfError::Tectonic(m) => ShowPdfError::Tectonic(m.clone()),
            ShowPdfError::IoError(m) => ShowPdfError::IoError(m.clone()),
            ShowPdfError::Open(m) => ShowPdfError::Open(m.clone()),
        }
    }
}

/// Mathematical model of a [`ShowPdfError`]: its kind and its message text.
pub enum ShowPdfErrorView {
    Tectonic(Seq<char>),
    IoError(Seq<char>),
    Open(Seq<char>),
}

impl View for ShowPdfError {
    type V = ShowPdfErrorView;

    open spec fn view(&self) -> ShowPdfErrorView {
        match self {
            ShowPdfError::Tectonic(m) => ShowPdfErrorView::Tectonic(m@),
            ShowPdfError::IoError(m) => ShowPdfErrorView::IoError(m@),
            ShowPdfError::Open(m) => ShowPdfErrorView::Open(m@),
        }
    }
}

impl DeepView for ShowPdfError {
    type V = ShowPdfErrorView;

    open spec fn deep_view(&self) -> ShowPdfErrorView {
        self.view()
    }
}

/// The description of an error, its kind first, then the message.
pub open spec fn show_pdf_error_text(e: ShowPdfErrorView) -> Seq<char> {
    match e {
        ShowPdfErrorView::Tectonic(m) => "failed to compile LaTeX source: "@ + m,
        ShowPdfErrorView::IoError(m) => "io task failed: "@ + m,
        ShowPdfErrorView::Open(m) => "failed to open file: "@ + m,
    }
}

impl ShowPdfError {
    /// Describe this error: its kind, then the message it carries.
    pub fn message(&self) -> (r: String)
        ensures
            r@ == show_pdf_error_text(self@),
    {
        match self {
            ShowPdfError::Tectonic(m) => {
                let mut s = String::from_str("failed to compile LaTeX source: ");
                s.append(m.as_str());
                s
            },
            ShowPdfError::IoError(m) => {
                let mut s = String::from_str("io task failed: ");
                s.append(m.as_str());
                s
            },
            ShowPdfError::Open(m) => {
                let mut s = String::from_str("failed to open file: ");
                s.append(m.as_str());
                s
            },
        }
    }
}

/// One outside step of a compilation, to be performed by a driver. The
/// file and directory names are fixed constants of the pipeline, never
/// derived from caller input; paths are relative to the system
/// temporary-file root.
pub enum Action {
    /// Delete the scratch directory recursively if it exists, then recreate
    /// it empty.
    PrepareScratch { dir: String },
    /// Write the assembled document verbatim to the source file inside the
    /// scratch directory.
    WriteSource { file: String, contents: String },
    /// Run the engine as a subprocess in the scratch directory, its standard
    /// output and error streams discarded, and wait for it to exit.
    RunEngine { program: String, args: Vec<String> },
    /// Hand the assembled document to the embedded compiler and keep the
    /// artifact bytes it returns.
    CompileEmbedded { source: String },
    /// Write the embedded compiler's artifact bytes to the artifact file
    /// inside the scratch directory.
    WriteArtifact { file: String },
    /// Ask the host to open the artifact file with the default viewer
    /// registered for its type.
    OpenArtifact { file: String },
}

/// The reported outcome of one outside step.
pub enum StepEvent {
    /// A filesystem operation failed.
    IoFailed { message: String },
    /// A program could not be started: the engine executable was not found
    /// or could not run, or the viewer could not open the artifact.
    LaunchFailed { message: String },
    /// The engine subprocess ran to completion; `success` is whether its
    /// exit status was zero.
    EngineExited { success: bool },
    /// The embedded compiler returned artifact bytes.
    EmbedCompiled,
    /// The embedded compiler reported a structured failure.
    EmbedFailed { message: String },
    /// The artifact was handed to the viewer.
    ArtifactOpened,
}

/// Where a compilation stands.
#[derive(Clone, Copy, PartialEq, Eq, Structural)]
pub enum PipelineState {
    /// The document is assembled; no outside work has started.
    Assembled,
    /// Outside work is under way.
    Dispatched,
    /// The artifact is believed to exist at the fixed artifact path.
    Succeeded,
    /// The pipeline terminated at its first failure.
    Failed,
}

/// What a cosmetic character of the assembled document collapses to: the
/// newlines and tabs inserted for human readability become plain spaces;
/// every other character stands.
pub open spec fn normal_char(c: char) -> char {
    if c == '\n' || c == '\t' {
        ' '
    } else {
        c
    }
}

/// The document text with its cosmetic newlines and tabs collapsed to plain
/// spaces. Same length, character for character.
pub open spec fn normalized_text(s: Seq<char>) -> Seq<char> {
    Seq::new(s.len(), |i: int| normal_char(s[i]))
}

/// Collapse the cosmetic newlines and tabs of an assembled document to plain
/// spaces.
///
/// The indentation a picture renders with is purely for human readability;
/// a consumer that takes the document text somewhere other than a source
/// file (say, as a command-line argument) needs it collapsed to plain white
/// space first. The pipeline's own plan writes the text to a file verbatim,
/// where no such replacement is needed.
pub fn normalized(doc: &str) -> (r: String)
    ensures
        r@ == normalized_text(doc@),
{
    let n = doc.unicode_len();
    let mut out = String::new();
    let mut i: usize = 0;
    proof {
        assert(out@ =~= normalized_text(doc@).take(0));
    }
    while i < n
        invariant
            n == doc@.len(),
            i <= n,
            out@ == normalized_text(doc@).take(i as int),
        decreases n - i,
    {
        let c = doc.get_char(i);
        if c == '\n' || c == '\t' {
            out.append(" ");
            proof {
                reveal_strlit(" ");
            }
        } else {
            let piece = doc.substring_char(i, i + 1);
            out.append(piece);
        }
        proof {
            assert(out@ =~= normalized_text(doc@).take(i as int + 1));
        }
        i = i + 1;
    }
    proof {
        assert(normalized_text(doc@).take(n as int) =~= normalized_text(doc@));
    }
    out
}

/// The pipeline has terminated with an I/O failure carrying `msg`.
pub open spec fn failed_with_io(p: Pipeline, msg: Seq<char>) -> bool {
    p.state == PipelineState::Failed && (p.error matches Some(ShowPdfError::IoError(m)) && m@
        == msg)
}

/// The pipeline has terminated with a launch failure carrying `msg`: a
/// program could not be started. A launch failure is never a silent success.
pub open spec fn failed_with_launch(p: Pipeline, msg: Seq<char>) -> bool {
    p.state == PipelineState::Failed && (p.error matches Some(ShowPdfError::Open(m)) && m@ == msg)
}

/// The pipeline has terminated with a compilation failure carrying `msg`.
pub open spec fn failed_with_compile(p: Pipeline, msg: Seq<char>) -> bool {
    p.state == PipelineState::Failed && (p.error matches Some(ShowPdfError::Tectonic(m)) && m@
        == msg)
}

/// One compilation of one assembled document.
///
/// Mutate a pipeline only through its methods; the fields are public so that
/// contracts and callers can read them.
pub struct Pipeline {
    /// The chosen dispatch strategy.
    pub compiler: Compiler,
    /// The assembled standalone document.
    pub document: String,
    /// Where the compilation stands.
    pub state: PipelineState,
    /// The failure that terminated the pipeline, if any.
    pub error: Option<ShowPdfError>,
    /// A failure of the reveal step. Reported, but it does not retroactively
    /// invalidate a successful compilation.
    pub open_failure: Option<ShowPdfError>,
}

impl Pipeline {
    /// A pipeline is well formed when its error slots agree with its state.
    pub open spec fn wf(&self) -> bool {
        &&& (self.state == PipelineState::Failed <==> self.error is Some)
        &&& (self.open_failure is Some ==> self.state == PipelineState::Succeeded)
    }

    /// Start a compilation of `document` with the given strategy.
    pub fn new(compiler: Compiler, document: String) -> (p: Pipeline)
        ensures
            p.wf(),
            p.compiler == compiler,
            p.document@ == document@,
            p.state == PipelineState::Assembled,
            p.error is None,
            p.open_failure is None,
    {
        Pipeline {
            compiler,
            document,
            state: PipelineState::Assembled,
            error: None,
            open_failure: None,
        }
    }

    /// The outside steps of this compilation, in the order a driver must
    /// perform them. Every compilation prepares the scratch directory anew
    /// before any file is staged in it, so each sequential compilation sees
    /// a freshly emptied scratch directory.
    pub fn actions(&self) -> (v: Vec<Action>)
        requires
            self.state == PipelineState::Assembled,
        ensures
            v@.len() == 4,
            self.compiler matches Compiler::Installed(engine) ==> {
                &&& v@[0] matches Action::PrepareScratch { dir } && dir@ == "output"@
                &&& v@[1] matches Action::WriteSource { file, contents } && file@ == "figure.tex"@
                    && contents@ == self.document@
                &&& v@[2] matches Action::RunEngine { program, args } && program@ == engine_text(
                    engine,
                ) && args.deep_view() == seq![
                    "-interaction=batchmode"@,
                    "-halt-on-error"@,
                    "-jobname=figure"@,
                    "figure.tex"@,
                ]
                &&& v@[3] matches Action::OpenArtifact { file } && file@ == "figure.pdf"@
            },
            self.compiler == Compiler::Tectonic ==> {
                &&& v@[0] matches Action::CompileEmbedded { source } && source@ == self.document@
                &&& v@[1] matches Action::PrepareScratch { dir } && dir@ == "output"@
                &&& v@[2] matches Action::WriteArtifact { file } && file@ == "figure.pdf"@
                &&& v@[3] matches Action::OpenArtifact { file } && file@ == "figure.pdf"@
            },
    {
        let mut v: Vec<Action> = Vec::new();
        match &self.compiler {
            Compiler::Installed(engine) => {
                v.push(Action::PrepareScratch { dir: String::from_str("output") });
                v.push(
                    Action::WriteSource {
                        file: String::from_str("figure.tex"),
                        contents: self.document.clone(),
                    },
                );
                let mut args: Vec<String> = Vec::new();
                args.push(String::from_str("-interaction=batchmode"));
                args.push(String::from_str("-halt-on-error"));
                args.push(String::from_str("-jobname=figure"));
                args.push(String::from_str("figure.tex"));
                proof {
                    assert(args.deep_view() =~= seq![
                        "-interaction=batchmode"@,
                        "-halt-on-error"@,
                        "-jobname=figure"@,
                        "figure.tex"@,
                    ]);
                }
                v.push(Action::RunEngine { program: engine.name(), args });
                v.push(Action::OpenArtifact { file: String::from_str("figure.pdf") });
            },
            Compiler::Tectonic => {
                v.push(Action::CompileEmbedded { source: self.document.clone() });
                v.push(Action::PrepareScratch { dir: String::from_str("output") });
                v.push(Action::WriteArtifact { file: String::from_str("figure.pdf") });
                v.push(Action::OpenArtifact { file: String::from_str("figure.pdf") });
            },
        }
        v
    }

    /// Record that outside work has started.
    pub fn dispatch(&mut self)
        requires
            old(self).wf(),
            old(self).state == PipelineState::Assembled,
        ensures
            final(self).wf(),
            final(self).state == PipelineState::Dispatched,
            final(self).compiler == old(self).compiler,
            final(self).document == old(self).document,
            final(self).error is None,
            final(self).open_failure is None,
    {
        self.state = PipelineState::Dispatched;
    }

    /// Advance the state machine on the reported outcome of one outside
    /// step.
    ///
    /// While dispatched, the first failure terminates the pipeline: an I/O
    /// failure as an `IoError`, a failed program launch as an `Open` error
    /// (so a non-existent engine name can never look like success), a
    /// nonzero engine exit or an embedded-compiler failure as a `Tectonic`
    /// compilation error. A zero engine exit or embedded artifact bytes mean
    /// the compilation succeeded.
    ///
    /// Once succeeded, a failure to open the artifact is recorded in
    /// `open_failure` — reported, but never undoing the success.
    pub fn step(&mut self, event: StepEvent)
        requires
            old(self).wf(),
            old(self).state == PipelineState::Dispatched || old(self).state
                == PipelineState::Succeeded,
        ensures
            final(self).wf(),
            final(self).compiler == old(self).compiler,
            final(self).document == old(self).document,
            final(self).state == PipelineState::Succeeded || final(self).state
                == PipelineState::Failed || final(self).state == PipelineState::Dispatched,
            old(self).state == PipelineState::Dispatched ==> {
                let after = *final(self);
                &&& (event matches StepEvent::IoFailed { message } ==> failed_with_io(
                    after,
                    message@,
                ))
                &&& (event matches StepEvent::LaunchFailed { message } ==> failed_with_launch(
                    after,
                    message@,
                ))
                &&& (event matches StepEvent::EngineExited { success } ==> (if success {
                    after.state == PipelineState::Succeeded
                } else {
                    failed_with_compile(
                        after,
                        "the LaTeX engine exited with a nonzero status"@,
                    )
                }))
                &&& (event matches StepEvent::EmbedCompiled ==> after.state
                    == PipelineState::Succeeded)
                &&& (event matches StepEvent::EmbedFailed { message } ==> failed_with_compile(
                    after,
                    message@,
                ))
                &&& (event matches StepEvent::ArtifactOpened ==> after == *old(self))
            },
            old(self).state == PipelineState::Succeeded ==> {
                let after = *final(self);
                &&& after.state == PipelineState::Succeeded
                &&& after.error == old(self).error
                &&& (event matches StepEvent::IoFailed { message } ==> (
                after.open_failure matches Some(ShowPdfError::IoError(m)) && m@ == message@))
                &&& (event matches StepEvent::LaunchFailed { message } ==> (
                after.open_failure matches Some(ShowPdfError::Open(m)) && m@ == message@))
                &&& (event matches StepEvent::ArtifactOpened ==> after == *old(self))
                &&& (event matches StepEvent::EngineExited { success } ==> after == *old(self))
                &&& (event matches StepEvent::EmbedCompiled ==> after == *old(self))
                &&& (event matches StepEvent::EmbedFailed { message } ==> after == *old(self))
            },
    {
        let dispatched = matches!(self.state, PipelineState::Dispatched);
        match event {
            StepEvent::IoFailed { message } => {
                if dispatched {
                    self.state = PipelineState::Failed;
                    self.error = Some(ShowPdfError::IoError(message));
                } else {
                    self.open_failure = Some(ShowPdfError::IoError(message));
                }
            },
            StepEvent::LaunchFailed { message } => {
                if dispatched {
                    self.state = PipelineState::Failed;
                    self.error = Some(ShowPdfError::Open(message));
                } else {
                    self.open_failure = Some(ShowPdfError::Open(message));
                }
            },
            StepEvent::EngineExited { success } => {
                if dispatched {
                    if success {
                        self.state = PipelineState::Succeeded;
                    } else {
                        self.state = PipelineState::Failed;
                        self.error = Some(
                            ShowPdfError::Tectonic(
                                String::from_str(
                                    "the LaTeX engine exited with a nonzero status",
                                ),
                            ),
                        );
                    }
                }
            },
            StepEvent::EmbedCompiled => {
                if dispatched {
                    self.state = PipelineState::Succeeded;
                }
            },
            StepEvent::EmbedFailed { message } => {
                if dispatched {
                    self.state = PipelineState::Failed;
                    self.error = Some(ShowPdfError::Tectonic(message));
                }
            },
            StepEvent::ArtifactOpened => {},
        }
    }
}

} // verus!
