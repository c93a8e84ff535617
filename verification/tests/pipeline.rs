use masl_pipeline::compile::{build_module, compile_module};
use masl_pipeline::error::BuildError;
use masl_pipeline::loader::library;

use miden_lib::transaction::TransactionKernel;
use miden_objects::assembly::{DefaultSourceManager, LibraryPath, Module, ModuleKind};

fn sample_source() -> &'static str {
    "export.answer\n    push.42\nend\n"
}

#[test]
fn compile_and_load_round_trip() {
    let bytes = compile_module("counter", sample_source()).unwrap();
    let loaded = library(&bytes).unwrap();

    // Assemble the same source directly through the toolkit: the loaded
    // library must be equivalent to it.
    let source_manager = DefaultSourceManager::default();
    let path = LibraryPath::new("standards::counter").unwrap();
    let module = Module::parser(ModuleKind::Library)
        .parse_str(path, sample_source(), &source_manager)
        .unwrap();
    let direct = TransactionKernel::assembler().assemble_library([module]).unwrap();

    assert_eq!(loaded, direct);
}

#[test]
fn compile_is_idempotent() {
    let first = compile_module("counter", sample_source()).unwrap();
    let second = compile_module("counter", sample_source()).unwrap();
    assert_eq!(first, second);
}

#[test]
fn serialize_deserialize_serialize_is_stable() {
    let bytes = compile_module("counter", sample_source()).unwrap();
    let loaded = library(&bytes).unwrap();
    let again = miden_objects::utils::Serializable::to_bytes(&loaded);
    assert_eq!(bytes, again);
}

#[test]
fn read_failure_gives_read_error() {
    let r = build_module("counter", Err("file has gone missing".to_string()));
    match r {
        Err(BuildError::Read { path, cause }) => {
            assert_eq!(path, "counter/assets/contract.masm");
            assert_eq!(cause, "file has gone missing");
        },
        _ => panic!("expected a read error"),
    }
}

#[test]
fn successful_build_pairs_bytes_with_output_path() {
    let r = build_module("counter", Ok(sample_source().to_string()));
    match r {
        Ok((out_path, bytes)) => {
            assert_eq!(out_path, "counter/generated/library.masl");
            assert!(!bytes.is_empty());
        },
        Err(_) => panic!("expected a successful build"),
    }
}

#[test]
fn malformed_source_gives_parse_error() {
    let r = compile_module("counter", "export.broken\n    push.\nend\n");
    match r {
        Err(BuildError::Parse { diagnostic }) => assert!(!diagnostic.is_empty()),
        _ => panic!("expected a parse error"),
    }
}

#[test]
fn unresolved_reference_gives_assemble_error() {
    let src = "use.std::fake_module\nexport.calls_away\n    exec.fake_module::nothing\nend\n";
    let r = compile_module("counter", src);
    match r {
        Err(BuildError::Assemble { diagnostic }) => assert!(!diagnostic.is_empty()),
        Err(BuildError::Parse { diagnostic }) => {
            panic!("expected an assemble error, got a parse error: {diagnostic}")
        },
        _ => panic!("expected an assemble error"),
    }
}

#[test]
fn separator_in_name_gives_invalid_path() {
    let r = compile_module("foo::bar", sample_source());
    match r {
        Err(BuildError::InvalidPath { path }) => assert_eq!(path, "standards::foo::bar"),
        _ => panic!("expected an invalid path error"),
    }
}

#[test]
fn empty_name_gives_invalid_path() {
    let r = compile_module("", sample_source());
    assert!(matches!(r, Err(BuildError::InvalidPath { .. })));
}

#[test]
fn name_refused_by_toolkit_gives_invalid_path() {
    // A space is allowed by the pipeline's own check but refused by the
    // toolkit's identifier rules.
    let r = compile_module("my module", sample_source());
    match r {
        Err(BuildError::InvalidPath { path }) => assert_eq!(path, "standards::my module"),
        _ => panic!("expected an invalid path error"),
    }
}

#[test]
fn loader_rejects_garbage() {
    let r = library(&[0u8, 1, 2, 3]);
    assert!(r.is_err());
}

#[test]
fn loader_rejects_truncated_artifact() {
    let bytes = compile_module("counter", sample_source()).unwrap();
    let r = library(&bytes[..bytes.len() / 2]);
    assert!(r.is_err());
}
