use self_update::digits::render_usize;
use self_update::identity::str_eq;
use self_update::identity::Platform;
use self_update::identity::Quality;
use self_update::paths::join_path;
use self_update::paths::with_extension;
use self_update::update::sentinel_path_for;

#[test]
fn quality_parse_known_channels() {
    assert_eq!(Quality::parse("stable"), Some(Quality::Stable));
    assert_eq!(Quality::parse("insiders"), Some(Quality::Insiders));
    assert_eq!(Quality::parse("exploration"), Some(Quality::Exploration));
}

#[test]
fn quality_parse_unknown_channels() {
    assert_eq!(Quality::parse("beta"), None);
    assert_eq!(Quality::parse(""), None);
    assert_eq!(Quality::parse("Stable"), None);
}

#[test]
fn platform_parse_known_pairs() {
    assert_eq!(Platform::from_os_arch("linux", "x86_64"), Some(Platform::LinuxX64));
    assert_eq!(Platform::from_os_arch("linux", "aarch64"), Some(Platform::LinuxArm64));
    assert_eq!(Platform::from_os_arch("linux", "arm"), Some(Platform::LinuxArm32));
    assert_eq!(Platform::from_os_arch("macos", "x86_64"), Some(Platform::DarwinX64));
    assert_eq!(Platform::from_os_arch("macos", "aarch64"), Some(Platform::DarwinArm64));
    assert_eq!(Platform::from_os_arch("windows", "x86_64"), Some(Platform::WindowsX64));
    assert_eq!(Platform::from_os_arch("windows", "aarch64"), Some(Platform::WindowsArm64));
}

#[test]
fn platform_parse_unknown_pairs() {
    assert_eq!(Platform::from_os_arch("linux", "riscv64"), None);
    assert_eq!(Platform::from_os_arch("freebsd", "x86_64"), None);
    assert_eq!(Platform::from_os_arch("", ""), None);
}

#[test]
fn str_eq_compares_contents() {
    assert!(str_eq("", ""));
    assert!(str_eq("abc", "abc"));
    assert!(!str_eq("abc", "abd"));
    assert!(!str_eq("abc", "ab"));
    assert!(str_eq("café", "café"));
    assert!(!str_eq("café", "cafe"));
}

#[test]
fn join_path_appends_a_component() {
    assert_eq!(join_path("/tmp/work", "rel.zip"), "/tmp/work/rel.zip");
    assert_eq!(join_path("a", "b"), "a/b");
}

#[test]
fn with_extension_replaces_the_extension() {
    assert_eq!(with_extension("dir/tool.exe", "update"), "dir/tool.update");
    assert_eq!(with_extension("dir/tool", "update"), "dir/tool.update");
    assert_eq!(with_extension("dir/tool.", "update"), "dir/tool.update");
    assert_eq!(with_extension("/a/b.c/tool", "u"), "/a/b.c/tool.u");
}

#[test]
fn with_extension_keeps_hidden_file_names() {
    assert_eq!(with_extension(".hidden", "u"), ".hidden.u");
    assert_eq!(with_extension("a/.hidden", "u"), "a/.hidden.u");
}

#[test]
fn with_extension_accepts_a_dotted_extension() {
    assert_eq!(with_extension("/inst/code", ".update"), "/inst/code..update");
    assert_eq!(with_extension("/inst/code.exe", ".update"), "/inst/code..update");
}

#[test]
fn sentinel_path_sits_beside_the_executable() {
    assert_eq!(sentinel_path_for("/usr/local/bin/code"), "/usr/local/bin/code.atualizando cli");
    assert_eq!(sentinel_path_for("code.exe"), "code.atualizando cli");
}

#[test]
fn render_usize_gives_decimal_notation() {
    assert_eq!(render_usize(0), "0");
    assert_eq!(render_usize(7), "7");
    assert_eq!(render_usize(10), "10");
    assert_eq!(render_usize(305), "305");
    assert_eq!(render_usize(18446744073709551615), "18446744073709551615");
}
