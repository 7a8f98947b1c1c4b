use update_core::HostArch;
use update_core::HostOs;
use update_core::Platform;

fn all_platforms() -> Vec<Platform> {
    vec![
        Platform::LinuxAlpineX64,
        Platform::LinuxAlpineARM64,
        Platform::LinuxX64,
        Platform::LinuxARM64,
        Platform::LinuxARM32,
        Platform::DarwinX64,
        Platform::DarwinARM64,
        Platform::WindowsX64,
        Platform::WindowsX86,
        Platform::WindowsARM64,
    ]
}

#[test]
fn cli_tags_exact() {
    assert_eq!(Platform::LinuxAlpineX64.cli(), "cli-alpine-x64");
    assert_eq!(Platform::LinuxAlpineARM64.cli(), "cli-alpine-arm64");
    assert_eq!(Platform::LinuxX64.cli(), "cli-linux-x64");
    assert_eq!(Platform::LinuxARM64.cli(), "cli-linux-arm64");
    assert_eq!(Platform::LinuxARM32.cli(), "cli-linux-armhf");
    assert_eq!(Platform::DarwinX64.cli(), "cli-darwin-x64");
    assert_eq!(Platform::DarwinARM64.cli(), "cli-darwin-arm64");
    assert_eq!(Platform::WindowsX64.cli(), "cli-win32-x64");
    assert_eq!(Platform::WindowsX86.cli(), "cli-win32");
    assert_eq!(Platform::WindowsARM64.cli(), "cli-win32-arm64");
}

#[test]
fn cli_tags_nonempty_and_pairwise_distinct() {
    let platforms = all_platforms();
    for (i, a) in platforms.iter().enumerate() {
        assert!(!a.cli().is_empty());
        for (j, b) in platforms.iter().enumerate() {
            if i != j {
                assert_ne!(a.cli(), b.cli());
            }
        }
    }
}

#[test]
fn headless_tags_exact() {
    assert_eq!(Platform::LinuxAlpineX64.headless(), "server-linux-alpine");
    assert_eq!(Platform::LinuxAlpineARM64.headless(), "server-alpine-arm64");
    assert_eq!(Platform::LinuxX64.headless(), "server-linux-x64");
    assert_eq!(Platform::LinuxARM64.headless(), "server-linux-arm64");
    assert_eq!(Platform::LinuxARM32.headless(), "server-linux-armhf");
    assert_eq!(Platform::DarwinX64.headless(), "server-darwin");
    assert_eq!(Platform::DarwinARM64.headless(), "server-darwin-arm64");
    assert_eq!(Platform::WindowsX64.headless(), "server-win32-x64");
    assert_eq!(Platform::WindowsX86.headless(), "server-win32");
}

#[test]
fn headless_windows_arm64_aliases_x64() {
    assert_eq!(
        Platform::WindowsARM64.headless(),
        Platform::WindowsX64.headless()
    );
}

#[test]
fn headless_tags_nonempty_and_distinct_but_for_alias() {
    let platforms = all_platforms();
    for (i, a) in platforms.iter().enumerate() {
        assert!(!a.headless().is_empty());
        for (j, b) in platforms.iter().enumerate() {
            let alias = (*a == Platform::WindowsARM64 && *b == Platform::WindowsX64)
                || (*a == Platform::WindowsX64 && *b == Platform::WindowsARM64);
            if i != j && !alias {
                assert_ne!(a.headless(), b.headless());
            }
        }
    }
}

#[test]
fn web_is_headless_plus_suffix() {
    for p in all_platforms() {
        assert_eq!(p.web(), format!("{}-web", p.headless()));
    }
}

#[test]
fn web_tag_exact() {
    assert_eq!(Platform::DarwinX64.web(), "server-darwin-web");
}

#[test]
fn archive_absent_exactly_for_alpine() {
    assert_eq!(Platform::LinuxAlpineX64.archive(), None);
    assert_eq!(Platform::LinuxAlpineARM64.archive(), None);
    for p in all_platforms() {
        let alpine = p == Platform::LinuxAlpineX64 || p == Platform::LinuxAlpineARM64;
        match p.archive() {
            None => assert!(alpine),
            Some(tag) => {
                assert!(!alpine);
                assert!(!tag.is_empty());
            }
        }
    }
}

#[test]
fn archive_tags_exact() {
    assert_eq!(Platform::LinuxX64.archive(), Some("linux-x64".to_owned()));
    assert_eq!(Platform::LinuxARM64.archive(), Some("linux-arm64".to_owned()));
    assert_eq!(Platform::LinuxARM32.archive(), Some("linux-armhf".to_owned()));
    assert_eq!(Platform::DarwinX64.archive(), Some("darwin".to_owned()));
    assert_eq!(Platform::DarwinARM64.archive(), Some("darwin-arm64".to_owned()));
    assert_eq!(
        Platform::WindowsX64.archive(),
        Some("win32-x64-archive".to_owned())
    );
    assert_eq!(
        Platform::WindowsX86.archive(),
        Some("win32-archive".to_owned())
    );
    assert_eq!(
        Platform::WindowsARM64.archive(),
        Some("win32-arm64-archive".to_owned())
    );
}

#[test]
fn env_default_known_combinations() {
    assert_eq!(
        Platform::env_default(HostOs::Linux, HostArch::X64, true),
        Some(Platform::LinuxAlpineX64)
    );
    assert_eq!(
        Platform::env_default(HostOs::Linux, HostArch::Arm64, true),
        Some(Platform::LinuxAlpineARM64)
    );
    assert_eq!(
        Platform::env_default(HostOs::Linux, HostArch::X64, false),
        Some(Platform::LinuxX64)
    );
    assert_eq!(
        Platform::env_default(HostOs::Linux, HostArch::Arm64, false),
        Some(Platform::LinuxARM64)
    );
    assert_eq!(
        Platform::env_default(HostOs::Linux, HostArch::Arm32, false),
        Some(Platform::LinuxARM32)
    );
    assert_eq!(
        Platform::env_default(HostOs::Linux, HostArch::Arm32, true),
        Some(Platform::LinuxARM32)
    );
    assert_eq!(
        Platform::env_default(HostOs::Darwin, HostArch::X64, false),
        Some(Platform::DarwinX64)
    );
    assert_eq!(
        Platform::env_default(HostOs::Darwin, HostArch::Arm64, false),
        Some(Platform::DarwinARM64)
    );
    assert_eq!(
        Platform::env_default(HostOs::Windows, HostArch::X64, false),
        Some(Platform::WindowsX64)
    );
    assert_eq!(
        Platform::env_default(HostOs::Windows, HostArch::X86, false),
        Some(Platform::WindowsX86)
    );
    assert_eq!(
        Platform::env_default(HostOs::Windows, HostArch::Arm64, false),
        Some(Platform::WindowsARM64)
    );
}

#[test]
fn env_default_unknown_combinations() {
    assert_eq!(Platform::env_default(HostOs::Linux, HostArch::X86, false), None);
    assert_eq!(Platform::env_default(HostOs::Linux, HostArch::X86, true), None);
    assert_eq!(Platform::env_default(HostOs::Linux, HostArch::Other, false), None);
    assert_eq!(Platform::env_default(HostOs::Darwin, HostArch::X86, false), None);
    assert_eq!(Platform::env_default(HostOs::Darwin, HostArch::Arm32, false), None);
    assert_eq!(Platform::env_default(HostOs::Windows, HostArch::Arm32, false), None);
    assert_eq!(Platform::env_default(HostOs::Windows, HostArch::Other, false), None);
    assert_eq!(Platform::env_default(HostOs::Other, HostArch::X64, false), None);
    assert_eq!(Platform::env_default(HostOs::Other, HostArch::Other, true), None);
}

#[test]
fn display_names_exact() {
    assert_eq!(Platform::LinuxAlpineX64.display_name(), "LinuxAlpineX64");
    assert_eq!(Platform::LinuxAlpineARM64.display_name(), "LinuxAlpineARM64");
    assert_eq!(Platform::LinuxX64.display_name(), "LinuxX64");
    assert_eq!(Platform::LinuxARM64.display_name(), "LinuxARM64");
    assert_eq!(Platform::LinuxARM32.display_name(), "LinuxARM32");
    assert_eq!(Platform::DarwinX64.display_name(), "DarwinX64");
    assert_eq!(Platform::DarwinARM64.display_name(), "DarwinARM64");
    assert_eq!(Platform::WindowsX64.display_name(), "WindowsX64");
    assert_eq!(Platform::WindowsX86.display_name(), "WindowsX86");
    assert_eq!(Platform::WindowsARM64.display_name(), "WindowsARM64");
}

#[test]
fn display_names_pairwise_distinct() {
    let platforms = all_platforms();
    for (i, a) in platforms.iter().enumerate() {
        for (j, b) in platforms.iter().enumerate() {
            if i != j {
                assert_ne!(a.display_name(), b.display_name());
            }
        }
    }
}

#[test]
fn display_names_distinct_from_every_artifact_tag() {
    let platforms = all_platforms();
    for a in &platforms {
        let name = a.display_name();
        for b in &platforms {
            assert_ne!(name, b.cli());
            assert_ne!(name, b.headless());
            if let Some(tag) = b.archive() {
                assert_ne!(name, tag);
            }
        }
    }
}
