//! Tests of the compilation pipeline state machine.

use pgfplots::pipeline::normalized;
use pgfplots::pipeline::Action;
use pgfplots::pipeline::Pipeline;
use pgfplots::pipeline::PipelineState;
use pgfplots::pipeline::StepEvent;
use pgfplots::Compiler;
use pgfplots::Engine;
use pgfplots::Picture;
use pgfplots::PictureKey;
use pgfplots::ShowPdfError;

#[test]
fn engine_name() {
    assert_eq!("pdflatex", Engine::PdfLatex.name());
}

#[test]
fn external_plan_shape() {
    let doc = Picture::new().standalone_string();
    let p = Pipeline::new(Compiler::Installed(Engine::PdfLatex), doc.clone());
    assert!(p.state == PipelineState::Assembled);
    let actions = p.actions();
    assert_eq!(actions.len(), 4);
    match &actions[0] {
        Action::PrepareScratch { dir } => assert_eq!(dir.as_str(), "output"),
        _ => panic!("plan must start by preparing the scratch directory"),
    }
    match &actions[1] {
        Action::WriteSource { file, contents } => {
            assert_eq!(file.as_str(), "figure.tex");
            assert_eq!(contents, &doc);
        },
        _ => panic!("second step must write the source file"),
    }
    match &actions[2] {
        Action::RunEngine { program, args } => {
            assert_eq!(program.as_str(), "pdflatex");
            assert_eq!(
                args,
                &vec![
                    String::from("-interaction=batchmode"),
                    String::from("-halt-on-error"),
                    String::from("-jobname=figure"),
                    String::from("figure.tex"),
                ]
            );
        },
        _ => panic!("third step must run the engine"),
    }
    match &actions[3] {
        Action::OpenArtifact { file } => assert_eq!(file.as_str(), "figure.pdf"),
        _ => panic!("last step must open the artifact"),
    }
}

#[test]
fn embedded_plan_shape() {
    let doc = Picture::new().standalone_string();
    let p = Pipeline::new(Compiler::Tectonic, doc.clone());
    let actions = p.actions();
    assert_eq!(actions.len(), 4);
    match &actions[0] {
        Action::CompileEmbedded { source } => assert_eq!(source, &doc),
        _ => panic!("embedded plan must start with the embedded compiler"),
    }
    match &actions[1] {
        Action::PrepareScratch { dir } => assert_eq!(dir.as_str(), "output"),
        _ => panic!("embedded plan must prepare the scratch directory"),
    }
    match &actions[2] {
        Action::WriteArtifact { file } => assert_eq!(file.as_str(), "figure.pdf"),
        _ => panic!("embedded plan must write the artifact bytes"),
    }
    match &actions[3] {
        Action::OpenArtifact { file } => assert_eq!(file.as_str(), "figure.pdf"),
        _ => panic!("embedded plan must open the artifact"),
    }
}

#[test]
fn launch_failure_is_reported() {
    // A non-existent engine name: the spawn fails, and the pipeline reports a
    // launch failure, never a silent success.
    let doc = Picture::new().standalone_string();
    let mut p = Pipeline::new(Compiler::Installed(Engine::PdfLatex), doc);
    p.dispatch();
    assert!(p.state == PipelineState::Dispatched);
    p.step(StepEvent::LaunchFailed { message: String::from("No such file or directory") });
    assert!(p.state == PipelineState::Failed);
    match &p.error {
        Some(ShowPdfError::Open(m)) => assert_eq!(m.as_str(), "No such file or directory"),
        _ => panic!("a failed launch must surface as an Open error"),
    }
    assert_eq!(
        "failed to open file: No such file or directory",
        p.error.as_ref().unwrap().message()
    );
}

#[test]
fn nonzero_exit_is_compile_failure() {
    let doc = Picture::new().standalone_string();
    let mut p = Pipeline::new(Compiler::Installed(Engine::PdfLatex), doc);
    p.dispatch();
    p.step(StepEvent::EngineExited { success: false });
    assert!(p.state == PipelineState::Failed);
    match &p.error {
        Some(ShowPdfError::Tectonic(m)) => {
            assert_eq!(m.as_str(), "the LaTeX engine exited with a nonzero status")
        },
        _ => panic!("a nonzero exit must surface as a compilation failure"),
    }
}

#[test]
fn io_failure_aborts() {
    let doc = Picture::new().standalone_string();
    let mut p = Pipeline::new(Compiler::Installed(Engine::PdfLatex), doc);
    p.dispatch();
    p.step(StepEvent::IoFailed { message: String::from("permission denied") });
    assert!(p.state == PipelineState::Failed);
    match &p.error {
        Some(ShowPdfError::IoError(m)) => assert_eq!(m.as_str(), "permission denied"),
        _ => panic!("a filesystem failure must surface as an IoError"),
    }
    assert_eq!("io task failed: permission denied", p.error.as_ref().unwrap().message());
}

#[test]
fn embed_failure_reported() {
    let doc = Picture::new().standalone_string();
    let mut p = Pipeline::new(Compiler::Tectonic, doc);
    p.dispatch();
    p.step(StepEvent::EmbedFailed { message: String::from("malformed input") });
    assert!(p.state == PipelineState::Failed);
    match &p.error {
        Some(ShowPdfError::Tectonic(m)) => assert_eq!(m.as_str(), "malformed input"),
        _ => panic!("an embedded-compiler failure must surface as a Tectonic error"),
    }
    assert_eq!("failed to compile LaTeX source: malformed input", p.error.as_ref().unwrap().message());
}

#[test]
fn open_failure_does_not_undo_success() {
    let doc = Picture::new().standalone_string();
    let mut p = Pipeline::new(Compiler::Installed(Engine::PdfLatex), doc);
    p.dispatch();
    p.step(StepEvent::EngineExited { success: true });
    assert!(p.state == PipelineState::Succeeded);
    p.step(StepEvent::LaunchFailed { message: String::from("no viewer registered") });
    assert!(p.state == PipelineState::Succeeded);
    match &p.open_failure {
        Some(ShowPdfError::Open(m)) => assert_eq!(m.as_str(), "no viewer registered"),
        _ => panic!("the reveal failure must be recorded"),
    }
}

#[test]
fn sequential_compilations_each_prepare_scratch() {
    // Two sequential (non-concurrent) compilations: each succeeds, and each
    // plan prepares the scratch directory anew before staging any file in it.
    let doc = Picture::new().standalone_string();
    for _ in 0..2 {
        let mut p = Pipeline::new(Compiler::Installed(Engine::PdfLatex), doc.clone());
        let actions = p.actions();
        assert!(matches!(&actions[0], Action::PrepareScratch { .. }));
        p.dispatch();
        p.step(StepEvent::EngineExited { success: true });
        p.step(StepEvent::ArtifactOpened);
        assert!(p.state == PipelineState::Succeeded);
        assert!(p.error.is_none());
        assert!(p.open_failure.is_none());
    }
}

#[test]
fn normalized_collapses_cosmetic_whitespace() {
    let mut picture = Picture::new();
    picture.add_key(PictureKey::Custom(String::from("baseline")));
    let doc = picture.standalone_string();
    let flat = normalized(&doc);
    assert_eq!(
        "\\documentclass{standalone} \\usepackage{pgfplots} \\begin{document} \\begin{tikzpicture}[  baseline, ] \\end{tikzpicture} \\end{document}",
        flat
    );
}

#[test]
fn normalized_keeps_other_characters() {
    assert_eq!("π β", normalized("π\nβ"));
    assert_eq!("", normalized(""));
    assert_eq!("a b c", normalized("a\tb\nc"));
}
