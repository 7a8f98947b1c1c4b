use update_core::launch_failure;
use update_core::CodeError;

#[test]
fn launch_failure_carries_command_and_error_text() {
    let e = launch_failure(
        "does-not-exist-binary-xyz".to_owned(),
        "No such file or directory (os error 2)".to_owned(),
    );
    match e {
        CodeError::CommandFailed {
            command,
            code,
            output,
        } => {
            assert_eq!(command, "does-not-exist-binary-xyz");
            assert_eq!(code, -1);
            assert_eq!(output, "No such file or directory (os error 2)");
        }
        other => panic!("expected CommandFailed, got {:?}", other),
    }
}

#[test]
fn error_variants_construct_and_carry_fields() {
    let unsupported = CodeError::UnsupportedPlatform("freebsd riscv64".to_owned());
    match unsupported {
        CodeError::UnsupportedPlatform(desc) => assert_eq!(desc, "freebsd riscv64"),
        other => panic!("expected UnsupportedPlatform, got {:?}", other),
    }
    let prereqs = CodeError::PrerequisitesFailed {
        name: "server",
        bullets: "- glibc >= 2.17".to_owned(),
    };
    match prereqs {
        CodeError::PrerequisitesFailed { name, bullets } => {
            assert_eq!(name, "server");
            assert_eq!(bullets, "- glibc >= 2.17");
        }
        other => panic!("expected PrerequisitesFailed, got {:?}", other),
    }
}
