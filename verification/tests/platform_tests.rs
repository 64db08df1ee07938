use wasmerenv::platform::filename_for;
use wasmerenv::platform::get_filename_for_system_architecture;

#[test]
fn every_supported_pair_maps_to_its_documented_filename() {
    let expected = [
        ("linux", "x86_64", "wasmer-linux-amd64.tar.gz"),
        ("linux", "aarch64", "wasmer-linux-aarch64.tar.gz"),
        ("linux", "mips64", "wasmer-linux-mips64.tar.gz"),
        ("linux", "riscv64", "wasmer-linux-riscv64.tar.gz"),
        ("macos", "x86_64", "wasmer-darwin-amd64.tar.gz"),
        ("macos", "aarch64", "wasmer-darwin-arm64.tar.gz"),
        ("windows", "x86_64", "wasmer-windows-amd64.tar.gz"),
        ("windows", "gnu", "wasmer-windows-gnu64.tar.gz"),
    ];
    for (os, arch, filename) in expected {
        assert_eq!(filename_for(os, arch).unwrap(), filename);
        assert_eq!(get_filename_for_system_architecture(os, arch), filename);
    }
}

#[test]
fn any_other_windows_architecture_falls_back_to_the_bare_executable() {
    assert_eq!(filename_for("windows", "aarch64").unwrap(), "wasmer-windows.exe");
}

#[test]
fn unsupported_pairs_have_no_filename() {
    assert!(filename_for("linux", "sparc").is_none());
    assert!(filename_for("macos", "mips64").is_none());
    assert!(filename_for("freebsd", "x86_64").is_none());
}
