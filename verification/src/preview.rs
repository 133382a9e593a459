//! Rules for rendering a revision of a document to a preview.
//!
//! A preview is compiled at most once per revision. Its status and log are
//! kept beside the rendered artifact and served from there on every later
//! request. The caller runs the compiler and reads and writes the stored
//! files; the functions here decide what is to be done and what is returned.

use vstd::prelude::*;
use vstd::string::StrSliceExecFns;
use vstd::string::StringExecFns;
use crate::api::{CompilationOutput, CompilationState, DocumentId, PreviewDetail, PreviewDetailType};
use crate::layout::{join, joined};
use crate::text::{last_position, same_text};

verus! {

/// The external program that renders a document.
#[derive(Clone, Copy, Debug, PartialEq, Eq, Structural)]
pub enum Compiler {
    PdfLatex,
    Pandoc,
}

/// Why a preview could not be produced or served.
#[derive(Clone, Copy, Debug, PartialEq, Eq, Structural)]
pub enum PreviewError {
    /// The working file's name has no extension to choose a compiler by.
    NoExtension,
    /// The place where previews are stored cannot be set up.
    CacheUnavailable,
    /// A stored preview exists, but its log cannot be read.
    MissingLog,
    /// A stored preview exists, but its status cannot be read.
    MissingStatus,
    /// A stored preview exists, but its status is neither of the two words.
    InvalidStatus,
    /// The compiler could not be started.
    LaunchFailed,
    /// The compiler ran, but its log cannot be read as text.
    LogUnavailable,
    /// The compiler ran, but its log or status could not be stored.
    StoreFailed,
    /// No successfully rendered artifact is stored for the revision.
    NotRendered,
}

/// The file names and the compiler that belong to one working file.
#[derive(Clone, Debug, PartialEq, Eq)]
pub struct PreviewPlan {
    /// The file name up to its last dot.
    pub root: String,
    /// The file name after its last dot.
    pub extension: String,
    pub log_name: String,
    pub status_name: String,
    pub output_name: String,
    pub compiler: Compiler,
}

/// What the caller found stored for one revision: nothing, or a log and a
/// status, either of which may fail to read. The store itself may be out of
/// reach.
#[derive(Clone, Debug, PartialEq, Eq)]
pub enum CacheEntry {
    Unavailable,
    Absent,
    Present { log: Option<String>, status: Option<String> },
}

/// What a preview request does after looking at the cache.
#[derive(Clone, Debug, PartialEq, Eq)]
pub enum PreviewStep {
    Serve(CompilationOutput),
    Compile,
    Fail(PreviewError),
}

/// What the caller observed while running a compiler. The caller first sets
/// up the place of the revision in the store, then starts the compiler, and
/// then takes the log: the TeX compiler writes its log into the store by
/// itself, where the caller reads it; the other compiler's log is its error
/// stream, which the caller puts into the store. The caller stops at the
/// first step that fails; the steps after it count as failed too.
#[derive(Clone, Debug, PartialEq, Eq)]
pub struct CompilerExit {
    pub compiler: Compiler,
    /// Whether the place of the revision in the store was set up.
    pub prepared: bool,
    /// Whether the process could be started at all.
    pub launched: bool,
    /// Whether the process reported success.
    pub succeeded: bool,
    /// Whether the log is in the store.
    pub log_stored: bool,
    /// The log as text, where it could be read as text.
    pub log: Option<String>,
}

/// What follows a compiler run: its output, whose status is to be stored
/// next, or the failure that ends the request.
#[derive(Clone, Debug, PartialEq, Eq)]
pub enum StoreStep {
    Store(CompilationOutput),
    Fail(PreviewError),
}

/// What is stored of the rendered artifact of one revision: the status word
/// and the bytes of the artifact, each where it is there and can be read.
#[derive(Clone, Debug, PartialEq, Eq)]
pub struct StoredArtifact {
    pub status: Option<String>,
    pub bytes: Option<Vec<u8>>,
}

/// The text that the `base64` crate writes for a sequence of bytes with its
/// standard alphabet and padding.
pub uninterp spec fn base64_text(bytes: Seq<u8>) -> Seq<char>;

/// `base64::Engine::encode`, on `base64::engine::general_purpose::STANDARD`.
/// The result is a function of the bytes alone.
#[verifier::external_body]
pub(crate) fn encode_base64(bytes: &Vec<u8>) -> (text: String)
    ensures
        text@ == base64_text(bytes@),
{
    base64::Engine::encode(&base64::engine::general_purpose::STANDARD, bytes)
}

/// Extensions are matched exactly: only `tex` goes to the TeX compiler.
pub open spec fn compiler_for(extension: Seq<char>) -> Compiler {
    if extension == "tex"@ {
        Compiler::PdfLatex
    } else {
        Compiler::Pandoc
    }
}

pub open spec fn output_suffix(compiler: Compiler) -> Seq<char> {
    match compiler {
        Compiler::PdfLatex => ".pdf"@,
        Compiler::Pandoc => ".html"@,
    }
}

pub open spec fn artifact_kind(compiler: Compiler) -> PreviewDetailType {
    match compiler {
        Compiler::PdfLatex => PreviewDetailType::PDF,
        Compiler::Pandoc => PreviewDetailType::HTML,
    }
}

/// The word stored for a compilation state.
pub open spec fn status_word(state: CompilationState) -> Seq<char> {
    match state {
        CompilationState::SUCCESS => "SUCCESS"@,
        CompilationState::FAILURE => "FAILURE"@,
    }
}

/// The compilation state that a stored word stands for.
pub open spec fn status_of(word: Seq<char>) -> Option<CompilationState> {
    if word == "SUCCESS"@ {
        Some(CompilationState::SUCCESS)
    } else if word == "FAILURE"@ {
        Some(CompilationState::FAILURE)
    } else {
        None
    }
}

pub open spec fn state_of_exit(succeeded: bool) -> CompilationState {
    if succeeded {
        CompilationState::SUCCESS
    } else {
        CompilationState::FAILURE
    }
}

impl PreviewPlan {
    /// The plan is the one that belongs to `file_name`: the name splits at its
    /// last dot, and every derived name extends the part before it.
    pub open spec fn describes(&self, file_name: Seq<char>) -> bool {
        &&& file_name == self.root@ + seq!['.'] + self.extension@
        &&& !self.extension@.contains('.')
        &&& self.log_name@ == self.root@ + ".log"@
        &&& self.status_name@ == self.root@ + ".status"@
        &&& self.compiler == compiler_for(self.extension@)
        &&& self.output_name@ == self.root@ + output_suffix(self.compiler)
    }
}

/// What follows from the cache entry of a revision: an entry that is there is
/// served or reported as broken, and only a missing one is compiled.
pub open spec fn cache_decision(entry: CacheEntry) -> PreviewStep {
    match entry {
        CacheEntry::Unavailable => PreviewStep::Fail(PreviewError::CacheUnavailable),
        CacheEntry::Absent => PreviewStep::Compile,
        CacheEntry::Present { log: None, status: _ } => PreviewStep::Fail(PreviewError::MissingLog),
        CacheEntry::Present { log: Some(_), status: None } => PreviewStep::Fail(
            PreviewError::MissingStatus,
        ),
        CacheEntry::Present { log: Some(log), status: Some(word) } => match status_of(word@) {
            Some(state) => PreviewStep::Serve(CompilationOutput { state, log }),
            None => PreviewStep::Fail(PreviewError::InvalidStatus),
        },
    }
}

/// What follows a compiler run. A run that could not be prepared, started
/// or logged ends the request; any other run has an output, whether the
/// compiler reported success or failure.
pub open spec fn exit_decision(exit: CompilerExit) -> StoreStep {
    if !exit.prepared {
        StoreStep::Fail(PreviewError::StoreFailed)
    } else if !exit.launched {
        StoreStep::Fail(PreviewError::LaunchFailed)
    } else if !exit.log_stored {
        StoreStep::Fail(
            match exit.compiler {
                Compiler::PdfLatex => PreviewError::LogUnavailable,
                Compiler::Pandoc => PreviewError::StoreFailed,
            },
        )
    } else if exit.log is None {
        StoreStep::Fail(PreviewError::LogUnavailable)
    } else {
        StoreStep::Store(
            CompilationOutput { state: state_of_exit(exit.succeeded), log: exit.log->0 },
        )
    }
}

/// What a preview request comes to once the caller has tried to store the
/// status of its output.
pub open spec fn store_result(output: CompilationOutput, stored: bool) -> Result<
    CompilationOutput,
    PreviewError,
> {
    if stored {
        Ok(output)
    } else {
        Err(PreviewError::StoreFailed)
    }
}

/// The directory in the store that holds the previews of one document: it
/// is named by the document's identity.
pub open spec fn document_previews(root: Seq<char>, id: DocumentId) -> Seq<char> {
    joined(root, id.text())
}

/// The place in the store of the previews of one revision: a directory named
/// by the revision's hash, inside the directory of the document.
pub open spec fn preview_path(root: Seq<char>, id: DocumentId, revision: Seq<char>) -> Seq<char> {
    joined(document_previews(root, id), revision)
}

/// The revision that a request for an artifact names. A request that names
/// none finds nothing.
pub open spec fn revision_asked(revision: Option<String>) -> Result<String, PreviewError> {
    match revision {
        Some(revision) => Ok(revision),
        None => Err(PreviewError::NotRendered),
    }
}

/// The directory of a document's previews under `root`.
pub fn previews_of(root: &str, id: DocumentId) -> (path: String)
    ensures
        path@ == document_previews(root@, id),
{
    let name = id.to_text();
    join(root, name.as_str())
}

/// The directory of one revision's previews under `root`.
pub fn preview_directory(root: &str, id: DocumentId, revision: &str) -> (path: String)
    ensures
        path@ == preview_path(root@, id, revision@),
{
    let document = previews_of(root, id);
    join(document.as_str(), revision)
}

/// The revision whose artifact is asked for.
pub fn requested_revision(revision: Option<String>) -> (result: Result<String, PreviewError>)
    ensures
        result == revision_asked(revision),
{
    match revision {
        Some(revision) => Ok(revision),
        None => Err(PreviewError::NotRendered),
    }
}

/// Splits a file name at its last dot into the part before and the part after
/// it. A name without a dot has no extension.
pub fn split_file_name(file_name: &str) -> (parts: Option<(String, String)>)
    ensures
        match parts {
            Some((root, extension)) => file_name@ == root@ + seq!['.'] + extension@
                && !extension@.contains('.'),
            None => !file_name@.contains('.'),
        },
{
    match last_position(file_name, '.') {
        None => None,
        Some(dot) => {
            let len = file_name.unicode_len();
            let root = String::from_str(file_name.substring_char(0, dot));
            let extension = String::from_str(file_name.substring_char(dot + 1, len));
            proof {
                let name = file_name@;
                assert(name =~= root@ + seq!['.'] + extension@);
                assert forall|j: int| 0 <= j < extension@.len() implies extension@[j] != '.' by {
                    assert(extension@[j] == name[dot + 1 + j]);
                }
            }
            Some((root, extension))
        },
    }
}

/// The compiler that renders files with the given extension.
pub fn choose_compiler(extension: &str) -> (compiler: Compiler)
    ensures
        compiler == compiler_for(extension@),
{
    if same_text(extension, "tex") {
        Compiler::PdfLatex
    } else {
        Compiler::Pandoc
    }
}

/// The names under which the log, the status and the artifact of
/// `file_name` are stored, and the compiler that renders it.
pub fn plan_preview(file_name: &str) -> (plan: Result<PreviewPlan, PreviewError>)
    ensures
        match plan {
            Ok(p) => p.describes(file_name@),
            Err(e) => e == PreviewError::NoExtension && !file_name@.contains('.'),
        },
{
    match split_file_name(file_name) {
        None => Err(PreviewError::NoExtension),
        Some((root, extension)) => {
            let compiler = choose_compiler(extension.as_str());
            let log_name = root.clone().concat(".log");
            let status_name = root.clone().concat(".status");
            let output_name = match compiler {
                Compiler::PdfLatex => root.clone().concat(".pdf"),
                Compiler::Pandoc => root.clone().concat(".html"),
            };
            Ok(PreviewPlan { root, extension, log_name, status_name, output_name, compiler })
        },
    }
}

/// The state that a compiler run ended in: a compiler that ran and reported
/// failure has a state of its own.
pub fn state_of_run(succeeded: bool) -> (state: CompilationState)
    ensures
        state == state_of_exit(succeeded),
{
    if succeeded {
        CompilationState::SUCCESS
    } else {
        CompilationState::FAILURE
    }
}

/// The word under which a compilation state is stored.
pub fn status_text(state: CompilationState) -> (word: &'static str)
    ensures
        word@ == status_word(state),
{
    match state {
        CompilationState::SUCCESS => "SUCCESS",
        CompilationState::FAILURE => "FAILURE",
    }
}

/// Reads a stored status word.
pub fn parse_status(word: &str) -> (state: Option<CompilationState>)
    ensures
        state == status_of(word@),
{
    if same_text(word, "SUCCESS") {
        Some(CompilationState::SUCCESS)
    } else if same_text(word, "FAILURE") {
        Some(CompilationState::FAILURE)
    } else {
        None
    }
}

/// Decides from the cache entry of a revision whether its preview is served,
/// compiled now, or reported as broken.
pub fn consult_cache(entry: CacheEntry) -> (step: PreviewStep)
    ensures
        step == cache_decision(entry),
{
    match entry {
        CacheEntry::Unavailable => PreviewStep::Fail(PreviewError::CacheUnavailable),
        CacheEntry::Absent => PreviewStep::Compile,
        CacheEntry::Present { log: None, status: _ } => PreviewStep::Fail(PreviewError::MissingLog),
        CacheEntry::Present { log: Some(_), status: None } => PreviewStep::Fail(
            PreviewError::MissingStatus,
        ),
        CacheEntry::Present { log: Some(log), status: Some(word) } => {
            match parse_status(word.as_str()) {
                Some(state) => PreviewStep::Serve(CompilationOutput { state, log }),
                None => PreviewStep::Fail(PreviewError::InvalidStatus),
            }
        },
    }
}

/// Decides what follows a compiler run: the output whose status the caller
/// is to store next, under the word of its state, or the failure that ends
/// the request. A compiler that ran and reported failure has an output.
pub fn after_run(exit: CompilerExit) -> (step: StoreStep)
    ensures
        step == exit_decision(exit),
{
    if !exit.prepared {
        return StoreStep::Fail(PreviewError::StoreFailed);
    }
    if !exit.launched {
        return StoreStep::Fail(PreviewError::LaunchFailed);
    }
    if !exit.log_stored {
        return match exit.compiler {
            Compiler::PdfLatex => StoreStep::Fail(PreviewError::LogUnavailable),
            Compiler::Pandoc => StoreStep::Fail(PreviewError::StoreFailed),
        };
    }
    match exit.log {
        None => StoreStep::Fail(PreviewError::LogUnavailable),
        Some(log) => StoreStep::Store(
            CompilationOutput { state: state_of_run(exit.succeeded), log },
        ),
    }
}

/// Ends a preview request after the caller has tried to store the status of
/// its output: the output is the answer only if its status is in the store.
pub fn after_store(output: CompilationOutput, stored: bool) -> (result: Result<
    CompilationOutput,
    PreviewError,
>)
    ensures
        result == store_result(output, stored),
{
    if stored {
        Ok(output)
    } else {
        Err(PreviewError::StoreFailed)
    }
}

/// Whether the stored artifact is one that can be handed out: its status
/// says that the compiler succeeded, and its bytes are there.
pub open spec fn is_rendered(stored: StoredArtifact) -> bool {
    &&& stored.status matches Some(word)
    &&& status_of(word@) == Some(CompilationState::SUCCESS)
    &&& stored.bytes is Some
}

/// Whether `result` is the answer to a request for the artifact of a
/// revision: the artifact under its output name, its bytes written in
/// base64, or nothing where the revision was never compiled or its
/// compilation failed.
pub open spec fn artifact_is(
    id: DocumentId,
    plan: PreviewPlan,
    stored: StoredArtifact,
    result: Result<PreviewDetail, PreviewError>,
) -> bool {
    if is_rendered(stored) {
        &&& result matches Ok(detail)
        &&& detail.id == id
        &&& detail.name@ == plan.output_name@
        &&& detail.kind == artifact_kind(plan.compiler)
        &&& detail.data@ == base64_text(stored.bytes->0@)
    } else {
        result == Err::<PreviewDetail, PreviewError>(PreviewError::NotRendered)
    }
}

/// The kind of artifact that a compiler renders.
pub fn kind_of(compiler: Compiler) -> (kind: PreviewDetailType)
    ensures
        kind == artifact_kind(compiler),
{
    match compiler {
        Compiler::PdfLatex => PreviewDetailType::PDF,
        Compiler::Pandoc => PreviewDetailType::HTML,
    }
}

/// Answers a request for the rendered artifact of a revision from what is
/// stored for it.
pub fn preview_artifact(id: DocumentId, plan: &PreviewPlan, stored: StoredArtifact) -> (result:
    Result<PreviewDetail, PreviewError>)
    ensures
        artifact_is(id, *plan, stored, result),
{
    let word = match stored.status {
        Some(word) => word,
        None => {
            return Err(PreviewError::NotRendered);
        },
    };
    match parse_status(word.as_str()) {
        Some(CompilationState::SUCCESS) => {},
        _ => {
            return Err(PreviewError::NotRendered);
        },
    }
    match stored.bytes {
        None => Err(PreviewError::NotRendered),
        Some(bytes) => Ok(
            PreviewDetail {
                name: plan.output_name.clone(),
                id,
                kind: kind_of(plan.compiler),
                data: encode_base64(&bytes),
            },
        ),
    }
}

/// A file name splits at its last dot in one way only.
pub proof fn law_split_is_unique(
    file_name: Seq<char>,
    root: Seq<char>,
    extension: Seq<char>,
    other_root: Seq<char>,
    other_extension: Seq<char>,
)
    requires
        file_name == root + seq!['.'] + extension,
        !extension.contains('.'),
        file_name == other_root + seq!['.'] + other_extension,
        !other_extension.contains('.'),
    ensures
        root == other_root,
        extension == other_extension,
{
    let a = root.len() as int;
    let b = other_root.len() as int;
    let first = root + seq!['.'] + extension;
    let second = other_root + seq!['.'] + other_extension;
    assert(first.len() == a + 1 + extension.len());
    assert(second.len() == b + 1 + other_extension.len());
    assert(first[a] == '.');
    assert(second[b] == '.');
    if a < b {
        assert(first[b] == extension[b - a - 1]);
        assert(extension.contains('.'));
    }
    if b < a {
        assert(second[a] == other_extension[a - b - 1]);
        assert(other_extension.contains('.'));
    }
    assert(root =~= file_name.subrange(0, a));
    assert(other_root =~= file_name.subrange(0, b));
    assert(extension =~= file_name.subrange(a + 1, file_name.len() as int));
    assert(other_extension =~= file_name.subrange(b + 1, file_name.len() as int));
}

/// The two status words are different, so each is read back as the state it
/// was written for.
pub proof fn law_status_round_trip(state: CompilationState)
    ensures
        status_of(status_word(state)) == Some(state),
{
    reveal_strlit("SUCCESS");
    reveal_strlit("FAILURE");
    assert("SUCCESS"@[0] != "FAILURE"@[0]);
}

/// A revision whose log and status are stored is never compiled again: the
/// request is answered with exactly that log and status.
pub proof fn law_cached_preview_is_served(state: CompilationState, log: String, word: String)
    requires
        word@ == status_word(state),
    ensures
        cache_decision(CacheEntry::Present { log: Some(log), status: Some(word) })
            == PreviewStep::Serve(CompilationOutput { state, log }),
{
    law_status_round_trip(state);
}

/// Whatever is stored for a revision, its preview is compiled only if
/// nothing is.
pub proof fn law_compile_only_when_absent(entry: CacheEntry)
    ensures
        cache_decision(entry) is Compile <==> entry is Absent,
{
}

/// After a compiler run that ended with an output, the store holds that
/// output's log and the word of its state, and the next request for the same
/// revision is answered with the identical output, without another run.
pub proof fn law_second_request_repeats_first(exit: CompilerExit, word: String)
    requires
        exit_decision(exit) is Store,
        word@ == status_word(exit_decision(exit)->Store_0.state),
    ensures
        store_result(exit_decision(exit)->Store_0, true) == Ok::<CompilationOutput, PreviewError>(
            exit_decision(exit)->Store_0,
        ),
        cache_decision(
            CacheEntry::Present { log: Some(exit_decision(exit)->Store_0.log), status: Some(word) },
        ) == PreviewStep::Serve(exit_decision(exit)->Store_0),
{
    law_status_round_trip(exit_decision(exit)->Store_0.state);
}

} // verus!
