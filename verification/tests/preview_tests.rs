use remote_text_server::api::CompilationState;
use remote_text_server::preview::{parse_status, plan_preview, split_file_name, status_text, Compiler, PreviewError};

#[test]
fn split_takes_the_last_dot() {
    assert_eq!(split_file_name("a.b.tex"), Some(("a.b".to_string(), "tex".to_string())));
    assert_eq!(split_file_name("notes"), None);
    assert_eq!(split_file_name(".bashrc"), Some(("".to_string(), "bashrc".to_string())));
    assert_eq!(split_file_name("a."), Some(("a".to_string(), "".to_string())));
}

#[test]
fn plan_names_follow_the_root() {
    let plan = plan_preview("paper.tex").unwrap();
    assert_eq!(plan.root, "paper");
    assert_eq!(plan.extension, "tex");
    assert_eq!(plan.log_name, "paper.log");
    assert_eq!(plan.status_name, "paper.status");
    assert_eq!(plan.output_name, "paper.pdf");
    assert_eq!(plan.compiler, Compiler::PdfLatex);
    let plan = plan_preview("read.me.md").unwrap();
    assert_eq!(plan.output_name, "read.me.html");
    assert_eq!(plan.compiler, Compiler::Pandoc);
    assert_eq!(plan_preview("Makefile").unwrap_err(), PreviewError::NoExtension);
}

#[test]
fn status_words_round_trip() {
    assert_eq!(status_text(CompilationState::SUCCESS), "SUCCESS");
    assert_eq!(status_text(CompilationState::FAILURE), "FAILURE");
    assert_eq!(parse_status("SUCCESS"), Some(CompilationState::SUCCESS));
    assert_eq!(parse_status("FAILURE"), Some(CompilationState::FAILURE));
    assert_eq!(parse_status("success"), None);
    assert_eq!(parse_status(""), None);
}

use remote_text_server::api::{CompilationOutput, DocumentId, PreviewDetail, PreviewDetailType};
use remote_text_server::preview::{
    after_run, after_store, choose_compiler, consult_cache, kind_of, preview_artifact,
    preview_directory, previews_of, requested_revision, state_of_run, CacheEntry, CompilerExit,
    PreviewStep, StoreStep, StoredArtifact,
};

#[test]
fn only_tex_goes_to_the_tex_compiler() {
    assert_eq!(choose_compiler("tex"), Compiler::PdfLatex);
    assert_eq!(choose_compiler("md"), Compiler::Pandoc);
    assert_eq!(choose_compiler("markdown"), Compiler::Pandoc);
    assert_eq!(choose_compiler("TEX"), Compiler::Pandoc);
    assert_eq!(choose_compiler("txt"), Compiler::Pandoc);
    assert_eq!(choose_compiler(""), Compiler::Pandoc);
    assert_eq!(kind_of(Compiler::PdfLatex), PreviewDetailType::PDF);
    assert_eq!(kind_of(Compiler::Pandoc), PreviewDetailType::HTML);
}

#[test]
fn cache_decides_between_serving_and_compiling() {
    assert_eq!(consult_cache(CacheEntry::Absent), PreviewStep::Compile);
    assert_eq!(
        consult_cache(CacheEntry::Present { log: None, status: Some("SUCCESS".to_string()) }),
        PreviewStep::Fail(PreviewError::MissingLog)
    );
    assert_eq!(
        consult_cache(CacheEntry::Present { log: None, status: None }),
        PreviewStep::Fail(PreviewError::MissingLog)
    );
    assert_eq!(
        consult_cache(CacheEntry::Present { log: Some("l".to_string()), status: None }),
        PreviewStep::Fail(PreviewError::MissingStatus)
    );
    assert_eq!(
        consult_cache(CacheEntry::Present {
            log: Some("l".to_string()),
            status: Some("SUCCESS\n".to_string())
        }),
        PreviewStep::Fail(PreviewError::InvalidStatus)
    );
    assert_eq!(
        consult_cache(CacheEntry::Present {
            log: Some("the log".to_string()),
            status: Some("FAILURE".to_string())
        }),
        PreviewStep::Serve(CompilationOutput {
            state: CompilationState::FAILURE,
            log: "the log".to_string()
        })
    );
}

fn exit(compiler: Compiler) -> CompilerExit {
    CompilerExit {
        compiler,
        prepared: true,
        launched: true,
        succeeded: true,
        log_stored: true,
        log: Some("done".to_string()),
    }
}

fn output(state: CompilationState, log: &str) -> CompilationOutput {
    CompilationOutput { state, log: log.to_string() }
}

#[test]
fn compiler_runs_and_their_outputs() {
    for compiler in [Compiler::PdfLatex, Compiler::Pandoc] {
        assert_eq!(
            after_run(exit(compiler)),
            StoreStep::Store(output(CompilationState::SUCCESS, "done"))
        );
        assert_eq!(
            after_run(CompilerExit { succeeded: false, ..exit(compiler) }),
            StoreStep::Store(output(CompilationState::FAILURE, "done"))
        );
        assert_eq!(
            after_run(CompilerExit { prepared: false, ..exit(compiler) }),
            StoreStep::Fail(PreviewError::StoreFailed)
        );
        assert_eq!(
            after_run(CompilerExit { prepared: false, launched: false, ..exit(compiler) }),
            StoreStep::Fail(PreviewError::StoreFailed)
        );
        assert_eq!(
            after_run(CompilerExit { launched: false, ..exit(compiler) }),
            StoreStep::Fail(PreviewError::LaunchFailed)
        );
        assert_eq!(
            after_run(CompilerExit { log: None, ..exit(compiler) }),
            StoreStep::Fail(PreviewError::LogUnavailable)
        );
    }
    assert_eq!(
        after_run(CompilerExit { log_stored: false, ..exit(Compiler::Pandoc) }),
        StoreStep::Fail(PreviewError::StoreFailed)
    );
    assert_eq!(
        after_run(CompilerExit { log_stored: false, ..exit(Compiler::PdfLatex) }),
        StoreStep::Fail(PreviewError::LogUnavailable)
    );
    assert_eq!(
        after_store(output(CompilationState::SUCCESS, "l"), true),
        Ok(output(CompilationState::SUCCESS, "l"))
    );
    assert_eq!(
        after_store(output(CompilationState::FAILURE, "l"), true),
        Ok(output(CompilationState::FAILURE, "l"))
    );
    assert_eq!(
        after_store(output(CompilationState::SUCCESS, "l"), false),
        Err(PreviewError::StoreFailed)
    );
    assert_eq!(state_of_run(true), CompilationState::SUCCESS);
    assert_eq!(state_of_run(false), CompilationState::FAILURE);
}

/// A store of one revision and a compiler that counts its runs.
struct Bench {
    entry: CacheEntry,
    runs: u32,
}

impl Bench {
    fn request(&mut self, file_name: &str) -> Result<CompilationOutput, PreviewError> {
        let plan = plan_preview(file_name)?;
        match consult_cache(self.entry.clone()) {
            PreviewStep::Serve(output) => Ok(output),
            PreviewStep::Fail(error) => Err(error),
            PreviewStep::Compile => {
                self.runs += 1;
                let log = format!("ran {:?} on {}", plan.compiler, file_name);
                self.entry = CacheEntry::Present { log: Some(log.clone()), status: None };
                let exit = CompilerExit {
                    compiler: plan.compiler,
                    prepared: true,
                    launched: true,
                    succeeded: plan.compiler == Compiler::Pandoc,
                    log_stored: true,
                    log: Some(log),
                };
                match after_run(exit) {
                    StoreStep::Fail(error) => Err(error),
                    StoreStep::Store(output) => {
                        self.entry = CacheEntry::Present {
                            log: Some(output.log.clone()),
                            status: Some(status_text(output.state).to_string()),
                        };
                        after_store(output, true)
                    },
                }
            },
        }
    }
}

#[test]
fn second_request_is_served_from_the_cache() {
    for file_name in ["notes.md", "paper.tex"] {
        let mut bench = Bench { entry: CacheEntry::Absent, runs: 0 };
        let first = bench.request(file_name).unwrap();
        assert_eq!(bench.runs, 1);
        let second = bench.request(file_name).unwrap();
        assert_eq!(bench.runs, 1);
        assert_eq!(first, second);
        let third = bench.request(file_name).unwrap();
        assert_eq!(bench.runs, 1);
        assert_eq!(first, third);
    }
    let mut bench = Bench { entry: CacheEntry::Absent, runs: 0 };
    assert_eq!(bench.request("Makefile"), Err(PreviewError::NoExtension));
    assert_eq!(bench.runs, 0);
    let mut bench = Bench { entry: CacheEntry::Unavailable, runs: 0 };
    assert_eq!(bench.request("notes.md"), Err(PreviewError::CacheUnavailable));
    assert_eq!(bench.runs, 0);
}

#[test]
fn artifact_is_handed_out_only_after_success() {
    let id = DocumentId { value: 5 };
    let plan = plan_preview("paper.tex").unwrap();
    let bytes = b"%PDF-1.4 hello".to_vec();
    assert_eq!(
        preview_artifact(
            id,
            &plan,
            StoredArtifact { status: Some("SUCCESS".to_string()), bytes: Some(bytes.clone()) }
        ),
        Ok(PreviewDetail {
            name: "paper.pdf".to_string(),
            id,
            kind: PreviewDetailType::PDF,
            data: "JVBERi0xLjQgaGVsbG8=".to_string(),
        })
    );
    let page = plan_preview("notes.md").unwrap();
    let detail = preview_artifact(
        id,
        &page,
        StoredArtifact { status: Some("SUCCESS".to_string()), bytes: Some(b"hello".to_vec()) },
    )
    .unwrap();
    assert_eq!(detail.name, "notes.html");
    assert_eq!(detail.kind, PreviewDetailType::HTML);
    assert_eq!(detail.data, "aGVsbG8=");
    for stored in [
        StoredArtifact { status: None, bytes: None },
        StoredArtifact { status: None, bytes: Some(bytes.clone()) },
        StoredArtifact { status: Some("FAILURE".to_string()), bytes: Some(bytes.clone()) },
        StoredArtifact { status: Some("junk".to_string()), bytes: Some(bytes.clone()) },
        StoredArtifact { status: Some("SUCCESS".to_string()), bytes: None },
    ] {
        assert_eq!(preview_artifact(id, &plan, stored), Err(PreviewError::NotRendered));
    }
}

#[test]
fn previews_are_kept_by_identity_and_hash() {
    let id = DocumentId { value: 0xa1a2a3a4b1b2c1c2d1d2d3d4d5d6d7d8 };
    assert_eq!(previews_of("./previews", id), "./previews/a1a2a3a4-b1b2-c1c2-d1d2-d3d4d5d6d7d8");
    assert_eq!(
        preview_directory("./previews", id, "0123abcd"),
        "./previews/a1a2a3a4-b1b2-c1c2-d1d2-d3d4d5d6d7d8/0123abcd"
    );
    assert_ne!(
        preview_directory("./previews", id, "0123abcd"),
        preview_directory("./previews", DocumentId { value: 1 }, "0123abcd")
    );
    assert_eq!(requested_revision(Some("abc".to_string())), Ok("abc".to_string()));
    assert_eq!(requested_revision(None), Err(PreviewError::NotRendered));
}
