//! The closed enumeration of supported host platforms and the mappings from
//! each platform to the artifact tags of the three build channels.

use vstd::prelude::*;
use vstd::string::StringExecFns;

verus! {

/// The supported OS/architecture/libc combinations.
#[derive(Debug, Copy, Clone, PartialEq, Eq, Structural)]
pub enum Platform {
    LinuxAlpineX64,
    LinuxAlpineARM64,
    LinuxX64,
    LinuxARM64,
    LinuxARM32,
    DarwinX64,
    DarwinARM64,
    WindowsX64,
    WindowsX86,
    WindowsARM64,
}

/// The operating-system family of the host, as host introspection reports it.
#[derive(Debug, Copy, Clone, PartialEq, Eq, Structural)]
pub enum HostOs {
    Linux,
    Darwin,
    Windows,
    Other,
}

/// The CPU architecture of the host, as host introspection reports it.
#[derive(Debug, Copy, Clone, PartialEq, Eq, Structural)]
pub enum HostArch {
    X64,
    X86,
    Arm32,
    Arm64,
    Other,
}

/// The CLI-binary artifact tag of each platform.
pub open spec fn cli_tag(p: Platform) -> Seq<char> {
    match p {
        Platform::LinuxAlpineARM64 => "cli-alpine-arm64"@,
        Platform::LinuxAlpineX64 => "cli-alpine-x64"@,
        Platform::LinuxX64 => "cli-linux-x64"@,
        Platform::LinuxARM64 => "cli-linux-arm64"@,
        Platform::LinuxARM32 => "cli-linux-armhf"@,
        Platform::DarwinX64 => "cli-darwin-x64"@,
        Platform::DarwinARM64 => "cli-darwin-arm64"@,
        Platform::WindowsARM64 => "cli-win32-arm64"@,
        Platform::WindowsX64 => "cli-win32-x64"@,
        Platform::WindowsX86 => "cli-win32"@,
    }
}

/// The server-build (headless) artifact tag of each platform. No ARM64
/// server build is published for Windows yet, so WindowsARM64 deliberately
/// aliases the x64 server build.
pub open spec fn headless_tag(p: Platform) -> Seq<char> {
    match p {
        Platform::LinuxAlpineARM64 => "server-alpine-arm64"@,
        Platform::LinuxAlpineX64 => "server-linux-alpine"@,
        Platform::LinuxX64 => "server-linux-x64"@,
        Platform::LinuxARM64 => "server-linux-arm64"@,
        Platform::LinuxARM32 => "server-linux-armhf"@,
        Platform::DarwinX64 => "server-darwin"@,
        Platform::DarwinARM64 => "server-darwin-arm64"@,
        Platform::WindowsX64 => "server-win32-x64"@,
        Platform::WindowsX86 => "server-win32"@,
        Platform::WindowsARM64 => "server-win32-x64"@,
    }
}

/// The desktop-distributable archive tag, for the platforms that ship one;
/// the two Alpine platforms are server-only and ship none.
pub open spec fn archive_tag(p: Platform) -> Option<Seq<char>> {
    match p {
        Platform::LinuxX64 => Some("linux-x64"@),
        Platform::LinuxARM64 => Some("linux-arm64"@),
        Platform::LinuxARM32 => Some("linux-armhf"@),
        Platform::DarwinX64 => Some("darwin"@),
        Platform::DarwinARM64 => Some("darwin-arm64"@),
        Platform::WindowsX64 => Some("win32-x64-archive"@),
        Platform::WindowsX86 => Some("win32-archive"@),
        Platform::WindowsARM64 => Some("win32-arm64-archive"@),
        Platform::LinuxAlpineX64 => None,
        Platform::LinuxAlpineARM64 => None,
    }
}

/// The fixed human-readable identifier of each platform, used for logs and
/// diagnostics, never for artifact lookup.
pub open spec fn display_name_of(p: Platform) -> Seq<char> {
    match p {
        Platform::LinuxAlpineARM64 => "LinuxAlpineARM64"@,
        Platform::LinuxAlpineX64 => "LinuxAlpineX64"@,
        Platform::LinuxX64 => "LinuxX64"@,
        Platform::LinuxARM64 => "LinuxARM64"@,
        Platform::LinuxARM32 => "LinuxARM32"@,
        Platform::DarwinX64 => "DarwinX64"@,
        Platform::DarwinARM64 => "DarwinARM64"@,
        Platform::WindowsX64 => "WindowsX64"@,
        Platform::WindowsX86 => "WindowsX86"@,
        Platform::WindowsARM64 => "WindowsARM64"@,
    }
}

/// The single platform that a host with the given OS family, CPU
/// architecture and C-library flavour resolves to, if any. On Linux the
/// musl flavour selects the Alpine builds; x64 and ARM64 are the only
/// architectures with Alpine builds, and x86 has no Linux build at all.
pub open spec fn resolved_platform(os: HostOs, arch: HostArch, musl: bool) -> Option<Platform> {
    match (os, arch) {
        (HostOs::Linux, HostArch::X64) => if musl {
            Some(Platform::LinuxAlpineX64)
        } else {
            Some(Platform::LinuxX64)
        },
        (HostOs::Linux, HostArch::Arm64) => if musl {
            Some(Platform::LinuxAlpineARM64)
        } else {
            Some(Platform::LinuxARM64)
        },
        (HostOs::Linux, HostArch::Arm32) => Some(Platform::LinuxARM32),
        (HostOs::Darwin, HostArch::X64) => Some(Platform::DarwinX64),
        (HostOs::Darwin, HostArch::Arm64) => Some(Platform::DarwinARM64),
        (HostOs::Windows, HostArch::X64) => Some(Platform::WindowsX64),
        (HostOs::Windows, HostArch::X86) => Some(Platform::WindowsX86),
        (HostOs::Windows, HostArch::Arm64) => Some(Platform::WindowsARM64),
        _ => None,
    }
}

/// Law: the CLI tag of every platform is non-empty, and no two platforms
/// share one.
pub proof fn lemma_cli_tags_distinct(p1: Platform, p2: Platform)
    ensures
        cli_tag(p1).len() > 0,
        p1 != p2 ==> cli_tag(p1) != cli_tag(p2),
{
    reveal_strlit("cli-alpine-arm64");
    reveal_strlit("cli-alpine-x64");
    reveal_strlit("cli-linux-x64");
    reveal_strlit("cli-linux-arm64");
    reveal_strlit("cli-linux-armhf");
    reveal_strlit("cli-darwin-x64");
    reveal_strlit("cli-darwin-arm64");
    reveal_strlit("cli-win32-arm64");
    reveal_strlit("cli-win32-x64");
    reveal_strlit("cli-win32");
    // tags of unequal length cannot coincide; the lengths settle every pair
    // but six
    assert("cli-alpine-arm64"@.len() == 16);
    assert("cli-alpine-x64"@.len() == 14);
    assert("cli-linux-x64"@.len() == 13);
    assert("cli-linux-arm64"@.len() == 15);
    assert("cli-linux-armhf"@.len() == 15);
    assert("cli-darwin-x64"@.len() == 14);
    assert("cli-darwin-arm64"@.len() == 16);
    assert("cli-win32-arm64"@.len() == 15);
    assert("cli-win32-x64"@.len() == 13);
    assert("cli-win32"@.len() == 9);
    // tags of equal length differ in the character after "cli-", or in the
    // one that tells "...-arm64" from "...-armhf"
    assert("cli-alpine-arm64"@[4] != "cli-darwin-arm64"@[4]);
    assert("cli-alpine-x64"@[4] != "cli-darwin-x64"@[4]);
    assert("cli-linux-x64"@[4] != "cli-win32-x64"@[4]);
    assert("cli-linux-arm64"@[4] != "cli-win32-arm64"@[4]);
    assert("cli-linux-armhf"@[4] != "cli-win32-arm64"@[4]);
    assert("cli-linux-arm64"@[13] != "cli-linux-armhf"@[13]);
}

/// Law: the headless tag of every platform is non-empty, and no two
/// platforms share one, with the single documented exception: WindowsARM64
/// aliases the WindowsX64 server build until an ARM64 server build is
/// published.
pub proof fn lemma_headless_tags_distinct(p1: Platform, p2: Platform)
    ensures
        headless_tag(p1).len() > 0,
        headless_tag(Platform::WindowsARM64) == headless_tag(Platform::WindowsX64),
        (p1 != p2 && !(p1 == Platform::WindowsARM64 && p2 == Platform::WindowsX64) && !(p1
            == Platform::WindowsX64 && p2 == Platform::WindowsARM64)) ==> headless_tag(p1)
            != headless_tag(p2),
{
    reveal_strlit("server-alpine-arm64");
    reveal_strlit("server-linux-alpine");
    reveal_strlit("server-linux-x64");
    reveal_strlit("server-linux-arm64");
    reveal_strlit("server-linux-armhf");
    reveal_strlit("server-darwin");
    reveal_strlit("server-darwin-arm64");
    reveal_strlit("server-win32-x64");
    reveal_strlit("server-win32");
    // tags of unequal length cannot coincide; the lengths settle every pair
    // but five
    assert("server-alpine-arm64"@.len() == 19);
    assert("server-linux-alpine"@.len() == 19);
    assert("server-linux-x64"@.len() == 16);
    assert("server-linux-arm64"@.len() == 18);
    assert("server-linux-armhf"@.len() == 18);
    assert("server-darwin"@.len() == 13);
    assert("server-darwin-arm64"@.len() == 19);
    assert("server-win32-x64"@.len() == 16);
    assert("server-win32"@.len() == 12);
    // tags of equal length differ in the character after "server-", or in
    // the one that tells "...-arm64" from "...-armhf"
    assert("server-alpine-arm64"@[7] != "server-linux-alpine"@[7]);
    assert("server-alpine-arm64"@[7] != "server-darwin-arm64"@[7]);
    assert("server-linux-alpine"@[7] != "server-darwin-arm64"@[7]);
    assert("server-linux-x64"@[7] != "server-win32-x64"@[7]);
    assert("server-linux-arm64"@[16] != "server-linux-armhf"@[16]);
}

/// Law: the archive tag is absent exactly for the two server-only Alpine
/// platforms, and non-empty wherever it is present.
pub proof fn lemma_archive_tags(p: Platform)
    ensures
        archive_tag(p) is None <==> (p == Platform::LinuxAlpineX64 || p
            == Platform::LinuxAlpineARM64),
        archive_tag(p) matches Some(s) ==> s.len() > 0,
{
    reveal_strlit("linux-x64");
    reveal_strlit("linux-arm64");
    reveal_strlit("linux-armhf");
    reveal_strlit("darwin");
    reveal_strlit("darwin-arm64");
    reveal_strlit("win32-x64-archive");
    reveal_strlit("win32-archive");
    reveal_strlit("win32-arm64-archive");
}

/// Law: no two platforms share a display name.
pub proof fn lemma_display_names_distinct(p1: Platform, p2: Platform)
    ensures
        display_name_of(p1).len() > 0,
        p1 != p2 ==> display_name_of(p1) != display_name_of(p2),
{
    reveal_strlit("LinuxAlpineARM64");
    reveal_strlit("LinuxAlpineX64");
    reveal_strlit("LinuxX64");
    reveal_strlit("LinuxARM64");
    reveal_strlit("LinuxARM32");
    reveal_strlit("DarwinX64");
    reveal_strlit("DarwinARM64");
    reveal_strlit("WindowsX64");
    reveal_strlit("WindowsX86");
    reveal_strlit("WindowsARM64");
    // names of unequal length cannot coincide; the lengths settle every pair
    // but six
    assert("LinuxAlpineARM64"@.len() == 16);
    assert("LinuxAlpineX64"@.len() == 14);
    assert("LinuxX64"@.len() == 8);
    assert("LinuxARM64"@.len() == 10);
    assert("LinuxARM32"@.len() == 10);
    assert("DarwinX64"@.len() == 9);
    assert("DarwinARM64"@.len() == 11);
    assert("WindowsX64"@.len() == 10);
    assert("WindowsX86"@.len() == 10);
    assert("WindowsARM64"@.len() == 12);
    // names of equal length differ in the first character or in the last
    // digits
    assert("LinuxARM64"@[0] != "WindowsX64"@[0]);
    assert("LinuxARM64"@[0] != "WindowsX86"@[0]);
    assert("LinuxARM32"@[0] != "WindowsX64"@[0]);
    assert("LinuxARM32"@[0] != "WindowsX86"@[0]);
    assert("LinuxARM64"@[8] != "LinuxARM32"@[8]);
    assert("WindowsX64"@[8] != "WindowsX86"@[8]);
}

/// Law: no display name coincides with any artifact tag of any platform:
/// display names begin with an upper-case letter, artifact tags with a
/// lower-case one.
pub proof fn lemma_display_names_distinct_from_tags(p1: Platform, p2: Platform)
    ensures
        display_name_of(p1) != cli_tag(p2),
        display_name_of(p1) != headless_tag(p2),
        archive_tag(p2) matches Some(s) ==> display_name_of(p1) != s,
{
    reveal_strlit("LinuxAlpineARM64");
    reveal_strlit("LinuxAlpineX64");
    reveal_strlit("LinuxX64");
    reveal_strlit("LinuxARM64");
    reveal_strlit("LinuxARM32");
    reveal_strlit("DarwinX64");
    reveal_strlit("DarwinARM64");
    reveal_strlit("WindowsX64");
    reveal_strlit("WindowsX86");
    reveal_strlit("WindowsARM64");
    reveal_strlit("cli-alpine-arm64");
    reveal_strlit("cli-alpine-x64");
    reveal_strlit("cli-linux-x64");
    reveal_strlit("cli-linux-arm64");
    reveal_strlit("cli-linux-armhf");
    reveal_strlit("cli-darwin-x64");
    reveal_strlit("cli-darwin-arm64");
    reveal_strlit("cli-win32-arm64");
    reveal_strlit("cli-win32-x64");
    reveal_strlit("cli-win32");
    reveal_strlit("server-alpine-arm64");
    reveal_strlit("server-linux-alpine");
    reveal_strlit("server-linux-x64");
    reveal_strlit("server-linux-arm64");
    reveal_strlit("server-linux-armhf");
    reveal_strlit("server-darwin");
    reveal_strlit("server-darwin-arm64");
    reveal_strlit("server-win32-x64");
    reveal_strlit("server-win32");
    reveal_strlit("linux-x64");
    reveal_strlit("linux-arm64");
    reveal_strlit("linux-armhf");
    reveal_strlit("darwin");
    reveal_strlit("darwin-arm64");
    reveal_strlit("win32-x64-archive");
    reveal_strlit("win32-archive");
    reveal_strlit("win32-arm64-archive");
    assert("LinuxAlpineARM64"@[0] == 'L');
    assert("LinuxAlpineX64"@[0] == 'L');
    assert("LinuxX64"@[0] == 'L');
    assert("LinuxARM64"@[0] == 'L');
    assert("LinuxARM32"@[0] == 'L');
    assert("DarwinX64"@[0] == 'D');
    assert("DarwinARM64"@[0] == 'D');
    assert("WindowsX64"@[0] == 'W');
    assert("WindowsX86"@[0] == 'W');
    assert("WindowsARM64"@[0] == 'W');
    assert("cli-alpine-arm64"@[0] == 'c');
    assert("cli-alpine-x64"@[0] == 'c');
    assert("cli-linux-x64"@[0] == 'c');
    assert("cli-linux-arm64"@[0] == 'c');
    assert("cli-linux-armhf"@[0] == 'c');
    assert("cli-darwin-x64"@[0] == 'c');
    assert("cli-darwin-arm64"@[0] == 'c');
    assert("cli-win32-arm64"@[0] == 'c');
    assert("cli-win32-x64"@[0] == 'c');
    assert("cli-win32"@[0] == 'c');
    assert("server-alpine-arm64"@[0] == 's');
    assert("server-linux-alpine"@[0] == 's');
    assert("server-linux-x64"@[0] == 's');
    assert("server-linux-arm64"@[0] == 's');
    assert("server-linux-armhf"@[0] == 's');
    assert("server-darwin"@[0] == 's');
    assert("server-darwin-arm64"@[0] == 's');
    assert("server-win32-x64"@[0] == 's');
    assert("server-win32"@[0] == 's');
    assert("linux-x64"@[0] == 'l');
    assert("linux-arm64"@[0] == 'l');
    assert("linux-armhf"@[0] == 'l');
    assert("darwin"@[0] == 'd');
    assert("darwin-arm64"@[0] == 'd');
    assert("win32-x64-archive"@[0] == 'w');
    assert("win32-archive"@[0] == 'w');
    assert("win32-arm64-archive"@[0] == 'w');
}

impl Platform {
    /// The CLI-binary artifact tag; defined for every platform.
    pub fn cli(&self) -> (r: String)
        ensures
            r@ == cli_tag(*self),
    {
        match self {
            Platform::LinuxAlpineARM64 => "cli-alpine-arm64".to_owned(),
            Platform::LinuxAlpineX64 => "cli-alpine-x64".to_owned(),
            Platform::LinuxX64 => "cli-linux-x64".to_owned(),
            Platform::LinuxARM64 => "cli-linux-arm64".to_owned(),
            Platform::LinuxARM32 => "cli-linux-armhf".to_owned(),
            Platform::DarwinX64 => "cli-darwin-x64".to_owned(),
            Platform::DarwinARM64 => "cli-darwin-arm64".to_owned(),
            Platform::WindowsARM64 => "cli-win32-arm64".to_owned(),
            Platform::WindowsX64 => "cli-win32-x64".to_owned(),
            Platform::WindowsX86 => "cli-win32".to_owned(),
        }
    }

    /// The server-build tag; defined for every platform, the server
    /// component being the minimum viable remote target.
    pub fn headless(&self) -> (r: String)
        ensures
            r@ == headless_tag(*self),
    {
        match self {
            Platform::LinuxAlpineARM64 => "server-alpine-arm64".to_owned(),
            Platform::LinuxAlpineX64 => "server-linux-alpine".to_owned(),
            Platform::LinuxX64 => "server-linux-x64".to_owned(),
            Platform::LinuxARM64 => "server-linux-arm64".to_owned(),
            Platform::LinuxARM32 => "server-linux-armhf".to_owned(),
            Platform::DarwinX64 => "server-darwin".to_owned(),
            Platform::DarwinARM64 => "server-darwin-arm64".to_owned(),
            Platform::WindowsX64 => "server-win32-x64".to_owned(),
            Platform::WindowsX86 => "server-win32".to_owned(),
            // no ARM64 server build is published yet
            Platform::WindowsARM64 => "server-win32-x64".to_owned(),
        }
    }

    /// The web-variant tag, derived from the headless tag by construction so
    /// that the two can never drift apart.
    pub fn web(&self) -> (r: String)
        ensures
            r@ == headless_tag(*self) + "-web"@,
    {
        let h = self.headless();
        h.concat("-web")
    }

    /// The desktop-distributable archive tag, or `None` for the server-only
    /// Alpine platforms.
    pub fn archive(&self) -> (r: Option<String>)
        ensures
            r is Some <==> archive_tag(*self) is Some,
            r matches Some(s) ==> s@ == archive_tag(*self).unwrap(),
            (r is None) <==> (*self == Platform::LinuxAlpineX64
                || *self == Platform::LinuxAlpineARM64),
    {
        match self {
            Platform::LinuxX64 => Some("linux-x64".to_owned()),
            Platform::LinuxARM64 => Some("linux-arm64".to_owned()),
            Platform::LinuxARM32 => Some("linux-armhf".to_owned()),
            Platform::DarwinX64 => Some("darwin".to_owned()),
            Platform::DarwinARM64 => Some("darwin-arm64".to_owned()),
            Platform::WindowsX64 => Some("win32-x64-archive".to_owned()),
            Platform::WindowsX86 => Some("win32-archive".to_owned()),
            Platform::WindowsARM64 => Some("win32-arm64-archive".to_owned()),
            Platform::LinuxAlpineX64 => None,
            Platform::LinuxAlpineARM64 => None,
        }
    }

    /// The fixed human-readable identifier, for logs and diagnostics.
    pub fn display_name(&self) -> (r: String)
        ensures
            r@ == display_name_of(*self),
    {
        match self {
            Platform::LinuxAlpineARM64 => "LinuxAlpineARM64".to_owned(),
            Platform::LinuxAlpineX64 => "LinuxAlpineX64".to_owned(),
            Platform::LinuxX64 => "LinuxX64".to_owned(),
            Platform::LinuxARM64 => "LinuxARM64".to_owned(),
            Platform::LinuxARM32 => "LinuxARM32".to_owned(),
            Platform::DarwinX64 => "DarwinX64".to_owned(),
            Platform::DarwinARM64 => "DarwinARM64".to_owned(),
            Platform::WindowsX64 => "WindowsX64".to_owned(),
            Platform::WindowsX86 => "WindowsX86".to_owned(),
            Platform::WindowsARM64 => "WindowsARM64".to_owned(),
        }
    }

    /// The platform that a host with the given facts defaults to, or `None`
    /// when the combination is outside the ten known ones. The caller
    /// gathers the facts once, at process start, and treats the result as
    /// immutable thereafter.
    pub fn env_default(os: HostOs, arch: HostArch, musl: bool) -> (r: Option<Platform>)
        ensures
            r == resolved_platform(os, arch, musl),
    {
        match (os, arch) {
            (HostOs::Linux, HostArch::X64) => if musl {
                Some(Platform::LinuxAlpineX64)
            } else {
                Some(Platform::LinuxX64)
            },
            (HostOs::Linux, HostArch::Arm64) => if musl {
                Some(Platform::LinuxAlpineARM64)
            } else {
                Some(Platform::LinuxARM64)
            },
            (HostOs::Linux, HostArch::Arm32) => Some(Platform::LinuxARM32),
            (HostOs::Darwin, HostArch::X64) => Some(Platform::DarwinX64),
            (HostOs::Darwin, HostArch::Arm64) => Some(Platform::DarwinARM64),
            (HostOs::Windows, HostArch::X64) => Some(Platform::WindowsX64),
            (HostOs::Windows, HostArch::X86) => Some(Platform::WindowsX86),
            (HostOs::Windows, HostArch::Arm64) => Some(Platform::WindowsARM64),
            _ => None,
        }
    }
}

} // verus!
