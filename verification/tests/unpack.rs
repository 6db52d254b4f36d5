use wasi_runtime::unpack::{PackageUnpack, UnpackError};

fn cmd() -> PackageUnpack {
    PackageUnpack {
        out_dir: String::from("out"),
        overwrite: false,
        package_path: String::from("pkg/hello.webc"),
    }
}

#[test]
fn resolve_succeeds_when_every_step_succeeded() {
    assert_eq!(cmd().resolve(true, true, true), Ok(()));
}

#[test]
fn unopenable_package_names_the_package_path() {
    assert_eq!(
        cmd().resolve(false, false, false),
        Err(UnpackError::OpenPackage { package_path: String::from("pkg/hello.webc") })
    );
    // Later steps cannot rescue the command: the first failing step decides.
    assert_eq!(
        cmd().resolve(false, true, true),
        Err(UnpackError::OpenPackage { package_path: String::from("pkg/hello.webc") })
    );
}

#[test]
fn uncreatable_directory_names_the_output_directory() {
    assert_eq!(
        cmd().resolve(true, false, true),
        Err(UnpackError::CreateOutDir { out_dir: String::from("out") })
    );
}

#[test]
fn failed_extraction_is_its_own_error() {
    assert_eq!(cmd().resolve(true, true, false), Err(UnpackError::Extract));
}
