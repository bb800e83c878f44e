// The library makes no file-system call: a test makes the call where the
// path itself offers it, and hands the outcome in. Where only the platform's
// failure matters, the test hands in the failure that the platform reports
// under that error number.
//
// Many of these paths are Unix paths: they take "/" for a root directory.

use path_anyhow::path::annotate;
use path_anyhow::{set_readonly_plan, PathAnyhow};
use std::io::{Read, Write};
use std::path::{Path, PathBuf};

const NOT_FOUND: i32 = 2;
const PERMISSION_DENIED: i32 = 13;

fn native<T>(outcome: std::io::Result<T>) -> Result<T, String> {
    outcome.map_err(|error| error.to_string())
}

fn os_failure<T>(code: i32) -> Result<T, String> {
    native(Err(std::io::Error::from_raw_os_error(code)))
}

fn assert_error_desc_eq<T>(res: anyhow::Result<T>, expected: &str) {
    let error = format!("{:#}", res.err().unwrap());
    assert_eq!(error, expected.trim_end());
}

#[test]
fn metadata_ok() -> anyhow::Result<()> {
    let path = Path::new("/");
    assert!(path.metadata_anyhow(native(path.metadata())).is_ok());
    Ok(())
}

#[test]
fn metadata_missing() -> anyhow::Result<()> {
    let path = Path::new("/this/path/should/not/exist");
    assert_error_desc_eq(
        path.metadata_anyhow(native(path.metadata())),
        r#"while processing path "/this/path/should/not/exist": No such file or directory (os error 2)"#,
    );
    Ok(())
}

#[test]
fn symlink_metadata_ok() -> anyhow::Result<()> {
    let path = Path::new("/");
    assert!(path
        .symlink_metadata_anyhow(native(path.symlink_metadata()))
        .ok()
        .is_some());
    Ok(())
}

#[test]
fn symlink_metadata_missing() -> anyhow::Result<()> {
    let path = Path::new("/this/path/should/not/exist");
    assert_error_desc_eq(
        path.symlink_metadata_anyhow(native(path.symlink_metadata())),
        r#"while processing path "/this/path/should/not/exist": No such file or directory (os error 2)"#,
    );
    Ok(())
}

#[test]
fn canonicalize_ok() -> anyhow::Result<()> {
    let path = Path::new("/..");
    assert_eq!(
        Path::new("/"),
        path.canonicalize_anyhow(native(path.canonicalize()))?
    );
    Ok(())
}

#[test]
fn canonicalize_missing() -> anyhow::Result<()> {
    let path = Path::new("/this/path/should/not/exist");
    assert_error_desc_eq(
        path.canonicalize_anyhow(native(path.canonicalize())),
        r#"while processing path "/this/path/should/not/exist": No such file or directory (os error 2)"#,
    );
    Ok(())
}

#[test]
fn read_link_missing() -> anyhow::Result<()> {
    let path = Path::new("/this/path/should/not/exist");
    assert_error_desc_eq(
        path.read_link_anyhow(native(path.read_link())),
        r#"while processing path "/this/path/should/not/exist": No such file or directory (os error 2)"#,
    );
    Ok(())
}

#[test]
fn read_dir_ok() -> anyhow::Result<()> {
    let path = Path::new("/");
    assert!(path.read_dir_anyhow(native(path.read_dir())).is_ok());
    Ok(())
}

#[test]
fn read_dir_missing() -> anyhow::Result<()> {
    let path = Path::new("/this/path/should/not/exist");
    assert_error_desc_eq(
        path.read_dir_anyhow(native(path.read_dir())),
        r#"while processing path "/this/path/should/not/exist": No such file or directory (os error 2)"#,
    );
    Ok(())
}

#[test]
fn copy_from_missing() -> anyhow::Result<()> {
    let from = Path::new("/this/path/should/not/exist");
    let to = Path::new("/this/path/also/should/not/exist");
    assert_error_desc_eq(
        from.copy_anyhow(to, os_failure(NOT_FOUND)),
        &format!(
            "while copying {:?} to {:?}: No such file or directory (os error 2)",
            from.display(),
            to.display()
        ),
    );
    Ok(())
}

#[test]
fn copy_to_non_existent_directory() -> anyhow::Result<()> {
    let from = tempfile::NamedTempFile::new()?;
    let to = Path::new("/this/path/also/should/not/exist");
    assert_error_desc_eq(
        from.path().copy_anyhow(to, os_failure(NOT_FOUND)),
        &format!(
            "while copying {:?} to {:?}: No such file or directory (os error 2)",
            from.path().display(),
            to.display(),
        ),
    );
    Ok(())
}

#[test]
fn create_dir_within_non_existent_directory() -> anyhow::Result<()> {
    let path = Path::new("/this/path/also/should/not/exist");
    assert_error_desc_eq(
        path.create_dir_anyhow(os_failure(NOT_FOUND)),
        &format!(
            "while processing path {:?}: No such file or directory (os error 2)",
            path.display(),
        ),
    );
    Ok(())
}

#[test]
fn create_dir_all_permission_denied() -> anyhow::Result<()> {
    let dir = tempfile::TempDir::new()?;
    let path = dir.path().join("foo").join("bar");
    assert_error_desc_eq(
        path.create_dir_all_anyhow(os_failure(PERMISSION_DENIED)),
        &format!(
            "while processing path {:?}: Permission denied (os error 13)",
            path.display(),
        ),
    );
    Ok(())
}

#[test]
fn hard_link_permission_error() -> anyhow::Result<()> {
    let dir = tempfile::TempDir::new()?;
    let path = dir.path().join("original");
    let link = dir.path().join("link");
    assert_error_desc_eq(
        path.hard_link_anyhow(&link, os_failure(PERMISSION_DENIED)),
        &format!(
            "while hard-linking {:?} to {:?}: Permission denied (os error 13)",
            path.display(),
            link.display(),
        ),
    );
    Ok(())
}

#[test]
fn read_missing() -> anyhow::Result<()> {
    let path = Path::new("/this/path/should/not/exist");
    assert_error_desc_eq(
        path.read_anyhow(os_failure(NOT_FOUND)),
        r#"while processing path "/this/path/should/not/exist": No such file or directory (os error 2)"#,
    );
    Ok(())
}

#[test]
fn read_to_string_missing() -> anyhow::Result<()> {
    let path = Path::new("/this/path/should/not/exist");
    assert_error_desc_eq(
        path.read_to_string_anyhow(os_failure(NOT_FOUND)),
        r#"while processing path "/this/path/should/not/exist": No such file or directory (os error 2)"#,
    );
    Ok(())
}

#[test]
fn read_to_string_invalid_utf8() -> anyhow::Result<()> {
    let mut f = tempfile::NamedTempFile::new()?;
    f.write_all(b"not utf8: \xf3")?;
    f.flush()?;

    let mut text = String::new();
    let outcome = f.reopen()?.read_to_string(&mut text).map(|_| text);
    assert_error_desc_eq(
        f.path().read_to_string_anyhow(native(outcome)),
        &format!(
            "while processing path {:?}: stream did not contain valid UTF-8",
            f.path().display()
        ),
    );
    Ok(())
}

#[test]
fn remove_dir_nonexistent() -> anyhow::Result<()> {
    let path = Path::new("/this/path/should/not/exist");
    assert_error_desc_eq(
        path.remove_dir_anyhow(os_failure(NOT_FOUND)),
        &format!(
            "while processing path {:?}: No such file or directory (os error 2)",
            path.display(),
        ),
    );
    Ok(())
}

#[test]
fn remove_dir_all_permission_error() -> anyhow::Result<()> {
    let dir = tempfile::TempDir::new()?;
    let a = dir.path().join("a");
    assert_error_desc_eq(
        a.remove_dir_all_anyhow(os_failure(PERMISSION_DENIED)),
        &format!(
            "while processing path {:?}: Permission denied (os error 13)",
            a.display(),
        ),
    );
    Ok(())
}

#[test]
fn remove_file_nonexistent() -> anyhow::Result<()> {
    let path = Path::new("/this/path/should/not/exist");
    assert_error_desc_eq(
        path.remove_file_anyhow(os_failure(NOT_FOUND)),
        &format!(
            "while processing path {:?}: No such file or directory (os error 2)",
            path.display(),
        ),
    );
    Ok(())
}

#[test]
fn rename_permission_error() -> anyhow::Result<()> {
    let dir = tempfile::TempDir::new()?;
    let a = dir.path().join("a");
    let b = dir.path().join("b");
    assert_error_desc_eq(
        a.rename_anyhow(&b, os_failure(PERMISSION_DENIED)),
        &format!(
            "while renaming {:?} to {:?}: Permission denied (os error 13)",
            a.display(),
            b.display(),
        ),
    );
    Ok(())
}

#[test]
fn write_permission_error() -> anyhow::Result<()> {
    let dir = tempfile::TempDir::new()?;
    let path = dir.path().join("file");
    assert_error_desc_eq(
        path.write_anyhow(os_failure(PERMISSION_DENIED)),
        &format!(
            "while processing path {:?}: Permission denied (os error 13)",
            path.display(),
        ),
    );
    Ok(())
}

#[test]
fn set_readonly_failure_says_what_was_asked_for() {
    let path = Path::new("/this/path/should/not/exist");
    assert_error_desc_eq(
        path.set_readonly_anyhow(true, os_failure(PERMISSION_DENIED)),
        r#"while processing path "/this/path/should/not/exist": with readonly permission true: Permission denied (os error 13)"#,
    );
    assert_error_desc_eq(
        path.set_readonly_anyhow(false, os_failure(PERMISSION_DENIED)),
        r#"while processing path "/this/path/should/not/exist": with readonly permission false: Permission denied (os error 13)"#,
    );
    assert!(path.set_readonly_anyhow(true, Ok(())).is_ok());
}

#[test]
fn set_readonly_plan_stops_at_a_failed_fetch() {
    let path = Path::new("/this/path/should/not/exist");
    assert_error_desc_eq(
        set_readonly_plan(path, native(path.metadata())),
        r#"while processing path "/this/path/should/not/exist": No such file or directory (os error 2)"#,
    );
}

#[test]
fn set_readonly_plan_always_sets_the_bit() -> anyhow::Result<()> {
    let path = Path::new("/");
    let (metadata, bit) = set_readonly_plan(path, native(path.metadata()))?;
    assert!(metadata.is_dir());
    assert!(bit);
    let (marker, bit) = set_readonly_plan(path, Ok::<u8, String>(7))?;
    assert_eq!(marker, 7);
    assert!(bit);
    Ok(())
}

#[test]
fn a_success_comes_back_untouched() -> anyhow::Result<()> {
    let path = Path::new("/this/path/should/not/exist");
    let other = Path::new("/elsewhere");
    assert_eq!(path.metadata_anyhow(Ok::<u8, String>(1))?, 1);
    assert_eq!(path.symlink_metadata_anyhow(Ok::<u8, String>(2))?, 2);
    assert_eq!(
        path.canonicalize_anyhow(Ok(PathBuf::from("/a/b")))?,
        PathBuf::from("/a/b")
    );
    assert_eq!(
        path.read_link_anyhow(Ok(PathBuf::from("target")))?,
        PathBuf::from("target")
    );
    assert_eq!(path.read_dir_anyhow(Ok::<u8, String>(3))?, 3);
    assert_eq!(path.copy_anyhow(other, Ok(4096))?, 4096);
    assert_eq!(path.read_anyhow(Ok(vec![0, 159, 146, 150]))?, vec![0, 159, 146, 150]);
    assert_eq!(path.read_to_string_anyhow(Ok("text".to_string()))?, "text");
    path.create_dir_anyhow(Ok(()))?;
    path.create_dir_all_anyhow(Ok(()))?;
    path.hard_link_anyhow(other, Ok(()))?;
    path.remove_dir_anyhow(Ok(()))?;
    path.remove_dir_all_anyhow(Ok(()))?;
    path.remove_file_anyhow(Ok(()))?;
    path.rename_anyhow(other, Ok(()))?;
    path.write_anyhow(Ok(()))?;
    Ok(())
}

#[test]
fn what_was_written_is_read_back() -> anyhow::Result<()> {
    let bytes = b"Hello World!\x00\xff".to_vec();
    let mut f = tempfile::NamedTempFile::new()?;
    let written = f.write_all(&bytes).and_then(|_| f.flush());
    f.path().write_anyhow(native(written))?;

    let mut read = Vec::new();
    let outcome = f.reopen()?.read_to_end(&mut read).map(|_| read);
    assert_eq!(f.path().read_anyhow(native(outcome))?, bytes);
    Ok(())
}

#[test]
fn a_failure_keeps_the_message_as_it_was_handed_in() {
    let path = Path::new("relative/file");
    assert_error_desc_eq(
        path.read_anyhow(Err("disk on fire: code 7".to_string())),
        r#"while processing path "relative/file": disk on fire: code 7"#,
    );
    let empty = path.write_anyhow(Err(String::new())).err().unwrap();
    assert_eq!(
        format!("{:#}", empty),
        "while processing path \"relative/file\": "
    );
}

#[test]
fn a_failure_on_two_paths_quotes_both() {
    let from = Path::new("/a \"b\"");
    let to = Path::new("c/d");
    let failed: Result<(), String> = Err("no".to_string());
    assert_error_desc_eq(
        from.copy_anyhow(to, Err("no".to_string())),
        r#"while copying "/a \"b\"" to "c/d": no"#,
    );
    assert_error_desc_eq(
        from.hard_link_anyhow(to, failed.clone()),
        r#"while hard-linking "/a \"b\"" to "c/d": no"#,
    );
    assert_error_desc_eq(
        from.rename_anyhow(to, failed),
        r#"while renaming "/a \"b\"" to "c/d": no"#,
    );
}

#[test]
fn annotate_is_what_every_call_on_one_path_does() -> anyhow::Result<()> {
    let path = Path::new("/this/path/should/not/exist");
    assert_eq!(annotate(path, Ok::<u32, String>(5))?, 5);
    let failed = || -> Result<(), String> { os_failure(NOT_FOUND) };
    let expected = format!("{:#}", annotate(path, failed()).err().unwrap());
    assert_eq!(
        expected,
        r#"while processing path "/this/path/should/not/exist": No such file or directory (os error 2)"#
    );
    assert_error_desc_eq(path.create_dir_anyhow(failed()), &expected);
    assert_error_desc_eq(path.create_dir_all_anyhow(failed()), &expected);
    assert_error_desc_eq(path.remove_dir_anyhow(failed()), &expected);
    assert_error_desc_eq(path.remove_dir_all_anyhow(failed()), &expected);
    assert_error_desc_eq(path.remove_file_anyhow(failed()), &expected);
    assert_error_desc_eq(path.write_anyhow(failed()), &expected);
    assert_error_desc_eq(path.metadata_anyhow(failed()), &expected);
    assert_error_desc_eq(path.symlink_metadata_anyhow(failed()), &expected);
    assert_error_desc_eq(path.read_dir_anyhow(failed()), &expected);
    assert_error_desc_eq(path.read_anyhow(os_failure(NOT_FOUND)), &expected);
    assert_error_desc_eq(path.read_to_string_anyhow(os_failure(NOT_FOUND)), &expected);
    assert_error_desc_eq(path.canonicalize_anyhow(os_failure(NOT_FOUND)), &expected);
    assert_error_desc_eq(path.read_link_anyhow(os_failure(NOT_FOUND)), &expected);
    Ok(())
}
