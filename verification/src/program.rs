//! Loading the two sources of a shader program.
//!
//! A program is built from a vertex stage and a fragment stage. Their
//! sources are read one after the other, the vertex stage first, and only
//! when both have been read as text are they handed on to be compiled and
//! linked. The loader never reads a file or compiles anything itself: it
//! says which file it needs next, is told what reading that file produced,
//! and answers with the next step.

use crate::error::{AssetError, ErrorModel, ShaderStage};
use crate::paths::{shader_path, shader_path_of};
use crate::reader::{outcome_model, slurp, text_of, ReadOutcome};
use vstd::prelude::*;

verus! {

/// The sources of the two stages of a program, ready to be compiled.
#[derive(Clone, Debug, PartialEq, Eq)]
pub struct ShaderSources {
    pub vertex: String,
    pub fragment: String,
}

/// A program whose sources are still being read.
#[derive(Debug)]
pub struct ProgramLoader {
    vertex_path: String,
    fragment_path: String,
    vertex: Option<String>,
}

/// What is to be done next for a program.
#[derive(Debug)]
pub enum ProgramStep {
    /// Read the file that the loader is waiting for and report the outcome.
    Read(ProgramLoader),
    /// Compile and link the two sources.
    Compile(ShaderSources),
    /// Give up: nothing is compiled.
    Failed(AssetError),
}

/// Mathematical model of a [`ProgramLoader`].
pub struct LoaderModel {
    pub vertex_path: Seq<char>,
    pub fragment_path: Seq<char>,
    pub vertex: Option<Seq<char>>,
}

/// Mathematical model of a [`ProgramStep`].
pub enum StepModel {
    Read(LoaderModel),
    Compile { vertex: Seq<char>, fragment: Seq<char> },
    Failed(ErrorModel),
}

impl LoaderModel {
    /// The stage whose source is read next.
    pub open spec fn pending_stage(self) -> ShaderStage {
        if self.vertex is None {
            ShaderStage::Vertex
        } else {
            ShaderStage::Fragment
        }
    }

    /// The path of the file that is read next.
    pub open spec fn pending_path(self) -> Seq<char> {
        if self.vertex is None {
            self.vertex_path
        } else {
            self.fragment_path
        }
    }

    /// The step that follows when reading the pending file gave `outcome`.
    pub open spec fn file_read(self, outcome: Result<Seq<u8>, Seq<char>>) -> StepModel {
        match text_of(self.pending_path(), outcome) {
            Ok(text) => match self.vertex {
                None => StepModel::Read(
                    LoaderModel {
                        vertex_path: self.vertex_path,
                        fragment_path: self.fragment_path,
                        vertex: Some(text),
                    },
                ),
                Some(vertex) => StepModel::Compile { vertex, fragment: text },
            },
            Err(e) => StepModel::Failed(e),
        }
    }
}

/// The loader that a program starts with: both paths resolved, no source
/// read yet.
pub open spec fn program_start(vertex_name: Seq<char>, fragment_name: Seq<char>) -> LoaderModel {
    LoaderModel {
        vertex_path: shader_path_of(vertex_name),
        fragment_path: shader_path_of(fragment_name),
        vertex: None,
    }
}

/// The outcome of loading a program whose two files gave the two outcomes:
/// the sources to compile, or the failure. The fragment file is looked at
/// only after the vertex file has been read as text.
pub open spec fn program_sources(
    vertex_name: Seq<char>,
    fragment_name: Seq<char>,
    vertex_outcome: Result<Seq<u8>, Seq<char>>,
    fragment_outcome: Result<Seq<u8>, Seq<char>>,
) -> StepModel {
    match program_start(vertex_name, fragment_name).file_read(vertex_outcome) {
        StepModel::Read(next) => next.file_read(fragment_outcome),
        other => other,
    }
}

impl View for ShaderSources {
    type V = (Seq<char>, Seq<char>);

    open spec fn view(&self) -> (Seq<char>, Seq<char>) {
        (self.vertex@, self.fragment@)
    }
}

impl View for ProgramLoader {
    type V = LoaderModel;

    closed spec fn view(&self) -> LoaderModel {
        LoaderModel {
            vertex_path: self.vertex_path@,
            fragment_path: self.fragment_path@,
            vertex: match self.vertex {
                Some(text) => Some(text@),
                None => None,
            },
        }
    }
}

impl View for ProgramStep {
    type V = StepModel;

    open spec fn view(&self) -> StepModel {
        match *self {
            ProgramStep::Read(loader) => StepModel::Read(loader@),
            ProgramStep::Compile(sources) => StepModel::Compile {
                vertex: sources.vertex@,
                fragment: sources.fragment@,
            },
            ProgramStep::Failed(e) => StepModel::Failed(e@),
        }
    }
}

/// Starts loading the program whose stages have the given relative names.
/// The loader that comes back waits for the vertex source.
pub fn load_program(vertex_shader_path: &str, fragment_shader_path: &str) -> (loader: ProgramLoader)
    ensures
        loader@ == program_start(vertex_shader_path@, fragment_shader_path@),
{
    ProgramLoader {
        vertex_path: shader_path(vertex_shader_path),
        fragment_path: shader_path(fragment_shader_path),
        vertex: None,
    }
}

impl ProgramLoader {
    /// The stage whose source the loader waits for.
    pub fn pending_stage(&self) -> (stage: ShaderStage)
        ensures
            stage == self@.pending_stage(),
    {
        match self.vertex {
            None => ShaderStage::Vertex,
            Some(_) => ShaderStage::Fragment,
        }
    }

    /// The path of the file that the loader waits for.
    pub fn pending_path(&self) -> (path: &str)
        ensures
            path@ == self@.pending_path(),
    {
        match self.vertex {
            None => self.vertex_path.as_str(),
            Some(_) => self.fragment_path.as_str(),
        }
    }

    /// Takes the outcome of reading the pending file and gives the next
    /// step. A file that could not be read, or that is not text, ends the
    /// load with a failure that names the file.
    pub fn file_read(self, outcome: ReadOutcome) -> (step: ProgramStep)
        ensures
            step@ == self@.file_read(outcome_model(outcome)),
    {
        let ProgramLoader { vertex_path, fragment_path, vertex } = self;
        match vertex {
            None => match slurp(vertex_path.as_str(), outcome) {
                Ok(text) => ProgramStep::Read(
                    ProgramLoader { vertex_path, fragment_path, vertex: Some(text) },
                ),
                Err(e) => ProgramStep::Failed(e),
            },
            Some(vertex) => match slurp(fragment_path.as_str(), outcome) {
                Ok(fragment) => ProgramStep::Compile(ShaderSources { vertex, fragment }),
                Err(e) => ProgramStep::Failed(e),
            },
        }
    }
}

/// A vertex source that cannot be read ends the load with an `Io` failure
/// that names exactly the path of the vertex source, whatever the fragment
/// file holds: no source reaches the compiler.
pub proof fn lemma_unreadable_vertex_source_stops_the_load(
    vertex_name: Seq<char>,
    fragment_name: Seq<char>,
    cause: Seq<char>,
    fragment_outcome: Result<Seq<u8>, Seq<char>>,
)
    ensures
        program_sources(vertex_name, fragment_name, Err(cause), fragment_outcome)
            == StepModel::Failed(
            ErrorModel::Io { path: shader_path_of(vertex_name), cause },
        ),
        !(program_sources(vertex_name, fragment_name, Err(cause), fragment_outcome)
            is Compile),
{
}

/// Whether reading a file gave bytes that are valid UTF-8.
pub open spec fn is_text(outcome: Result<Seq<u8>, Seq<char>>) -> bool {
    match outcome {
        Ok(bytes) => vstd::utf8::valid_utf8(bytes),
        Err(_) => false,
    }
}

/// The text that reading a file gave, where it gave one.
pub open spec fn text(outcome: Result<Seq<u8>, Seq<char>>) -> Seq<char> {
    match outcome {
        Ok(bytes) => vstd::utf8::decode_utf8(bytes),
        Err(_) => Seq::empty(),
    }
}

/// The sources reach the compiler exactly when both files were read and
/// both hold valid UTF-8. They are then the texts of the two files, the
/// vertex stage first.
pub proof fn lemma_program_compiles_iff_both_sources_are_text(
    vertex_name: Seq<char>,
    fragment_name: Seq<char>,
    vertex_outcome: Result<Seq<u8>, Seq<char>>,
    fragment_outcome: Result<Seq<u8>, Seq<char>>,
)
    ensures
        program_sources(vertex_name, fragment_name, vertex_outcome, fragment_outcome) is Compile
            <==> is_text(vertex_outcome) && is_text(fragment_outcome),
        is_text(vertex_outcome) && is_text(fragment_outcome) ==> program_sources(
            vertex_name,
            fragment_name,
            vertex_outcome,
            fragment_outcome,
        ) == (StepModel::Compile {
            vertex: text(vertex_outcome),
            fragment: text(fragment_outcome),
        }),
        !(program_sources(vertex_name, fragment_name, vertex_outcome, fragment_outcome) is Read),
{
}

/// Every failure of a program load names the path of the stage at fault:
/// the vertex source if it could not be read as text, else the fragment
/// source.
pub proof fn lemma_program_failure_names_the_stage_at_fault(
    vertex_name: Seq<char>,
    fragment_name: Seq<char>,
    vertex_outcome: Result<Seq<u8>, Seq<char>>,
    fragment_outcome: Result<Seq<u8>, Seq<char>>,
)
    ensures
        program_sources(vertex_name, fragment_name, vertex_outcome, fragment_outcome)
            matches StepModel::Failed(e) ==> e.path() == Some(
            if text_of(shader_path_of(vertex_name), vertex_outcome) is Err {
                shader_path_of(vertex_name)
            } else {
                shader_path_of(fragment_name)
            },
        ),
{
}

} // verus!
