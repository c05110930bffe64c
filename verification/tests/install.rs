use playwright_driver::{
    Action, Driver, Event, ExtractFault, InstallError, Installation, Platform, Stage,
};
use std::io::{Cursor, Read, Write};
use zip::write::FileOptions;
use zip::{CompressionMethod, ZipWriter};

fn bundle() -> Vec<u8> {
    let mut writer = ZipWriter::new(Cursor::new(Vec::new()));
    let script = FileOptions::default()
        .compression_method(CompressionMethod::Stored)
        .unix_permissions(0o755);
    let plain = FileOptions::default()
        .compression_method(CompressionMethod::Deflated)
        .unix_permissions(0o644);
    writer.start_file("playwright.sh", script).unwrap();
    writer.write_all(b"#!/bin/sh\nexec node package/cli.js \"$@\"\n").unwrap();
    writer.add_directory("package/", plain).unwrap();
    writer.start_file("package/cli.js", plain).unwrap();
    writer.write_all(b"console.log('driver');\n").unwrap();
    writer.finish().unwrap().into_inner()
}

fn corrupted() -> Vec<u8> {
    let mut bytes = bundle();
    for byte in bytes.iter_mut() {
        *byte = !*byte;
    }
    bytes
}

fn is_extract(action: &Action) -> bool {
    matches!(action, Action::Extract(_))
}

fn extracting<'a>(path: &str, archive: &'a [u8]) -> Installation<'a> {
    let mut run = Driver::install_to_path(path.to_string(), Platform::Linux, archive);
    assert!(matches!(run.advance(Event::Probed(false)), Action::CreateDirectory));
    assert!(is_extract(&run.advance(Event::Created(true))));
    run
}

#[test]
fn install() {
    let archive = bundle();
    let mut run = Driver::install(Platform::Linux, &archive, "/tmp".to_string());
    assert_eq!(run.stage(), Stage::Probing);
    assert!(matches!(run.advance(Event::Started), Action::Probe));
    assert!(matches!(run.advance(Event::Probed(false)), Action::CreateDirectory));
    assert!(is_extract(&run.advance(Event::Created(true))));
    assert!(matches!(run.advance(Event::Extracted(Ok(()))), Action::Done));
    let _driver = run.outcome().unwrap().unwrap();
    assert_eq!(_driver.path(), Driver::default_dest("/tmp".to_string()));
    assert_eq!(_driver.platform(), Platform::Linux);
}

#[test]
fn install_to_path_unpacks_into_a_fresh_destination() {
    let archive = bundle();
    let mut run =
        Driver::install_to_path("/tmp/pw-test-1".to_string(), Platform::Linux, &archive);
    assert_eq!(run.driver().path(), "/tmp/pw-test-1");
    assert!(matches!(run.advance(Event::Started), Action::Probe));
    assert_eq!(run.stage(), Stage::Probing);
    assert!(matches!(run.advance(Event::Probed(false)), Action::CreateDirectory));
    assert_eq!(run.stage(), Stage::Creating);
    assert!(is_extract(&run.advance(Event::Created(true))));
    assert_eq!(run.stage(), Stage::Extracting);
    assert!(matches!(run.advance(Event::Extracted(Ok(()))), Action::Done));
    assert_eq!(run.stage(), Stage::Installed);
    let driver = run.outcome().unwrap().unwrap();
    assert_eq!(driver.path(), "/tmp/pw-test-1");
    assert_eq!(driver.executable(None), "/tmp/pw-test-1/playwright.sh");
}

#[test]
fn install_to_path_on_windows_platforms_names_the_cmd_script() {
    let archive = bundle();
    let mut run =
        Driver::install_to_path("/tmp/pw-test-1".to_string(), Platform::Win32x64, &archive);
    assert!(matches!(run.advance(Event::Probed(true)), Action::Done));
    let driver = run.outcome().unwrap().unwrap();
    assert_eq!(driver.executable(None), "/tmp/pw-test-1/playwright.cmd");
}

#[test]
fn install_to_path_again_does_not_unpack() {
    let archive = bundle();
    let mut first =
        Driver::install_to_path("/tmp/pw-test-1".to_string(), Platform::Linux, &archive);
    first.advance(Event::Probed(false));
    first.advance(Event::Created(true));
    first.advance(Event::Extracted(Ok(())));
    let first = first.outcome().unwrap().unwrap();

    let mut second =
        Driver::install_to_path("/tmp/pw-test-1".to_string(), Platform::Linux, &archive);
    assert!(matches!(second.advance(Event::Started), Action::Probe));
    assert!(matches!(second.advance(Event::Probed(true)), Action::Done));
    assert_eq!(second.stage(), Stage::Installed);
    let second = second.outcome().unwrap().unwrap();
    assert_eq!(second.path(), first.path());
    assert_eq!(second, first);
}

#[test]
fn an_existing_directory_is_reused_whatever_the_bundle_is() {
    let archive = corrupted();
    let mut run = Driver::install_to_path("/tmp/pw-test-2".to_string(), Platform::Mac, &archive);
    assert!(matches!(run.advance(Event::Probed(true)), Action::Done));
    assert!(matches!(run.advance(Event::Created(true)), Action::Done));
    assert!(matches!(run.advance(Event::Extracted(Err(ExtractFault::Io))), Action::Done));
    assert!(run.outcome().unwrap().is_ok());
}

#[test]
fn a_corrupted_bundle_fails_as_an_archive() {
    let archive = corrupted();
    let mut run =
        Driver::install_to_path("/tmp/pw-test-3".to_string(), Platform::Linux, &archive);
    assert!(matches!(run.advance(Event::Probed(false)), Action::CreateDirectory));
    assert!(matches!(run.advance(Event::Created(true)), Action::Fail(InstallError::Archive)));
    assert_eq!(run.stage(), Stage::Failed(InstallError::Archive));
    assert_eq!(run.outcome(), Some(Err(InstallError::Archive)));
}

#[test]
fn an_empty_or_truncated_bundle_fails_as_an_archive() {
    let whole = bundle();
    for archive in [&whole[..0], &whole[..10], &whole[..whole.len() - 1]] {
        let mut run = Driver::install_to_path("/tmp/pw-test-4".to_string(), Platform::Linux, archive);
        run.advance(Event::Probed(false));
        assert!(matches!(run.advance(Event::Created(true)), Action::Fail(InstallError::Archive)));
    }
}

#[test]
fn a_failed_install_leaves_a_fresh_destination_installable() {
    let broken = corrupted();
    let mut failed =
        Driver::install_to_path("/tmp/pw-test-5".to_string(), Platform::Linux, &broken);
    failed.advance(Event::Probed(false));
    failed.advance(Event::Created(true));
    assert_eq!(failed.outcome(), Some(Err(InstallError::Archive)));

    let archive = bundle();
    let mut fresh =
        Driver::install_to_path("/tmp/pw-test-6".to_string(), Platform::Linux, &archive);
    assert!(matches!(fresh.advance(Event::Probed(false)), Action::CreateDirectory));
    assert!(is_extract(&fresh.advance(Event::Created(true))));
    assert!(matches!(fresh.advance(Event::Extracted(Ok(()))), Action::Done));
    assert_eq!(fresh.outcome().unwrap().unwrap().path(), "/tmp/pw-test-6");
}

#[test]
fn a_directory_that_cannot_be_created_fails_as_filesystem() {
    let archive = bundle();
    let mut run = Driver::install_to_path("/proc/nowhere".to_string(), Platform::Linux, &archive);
    run.advance(Event::Probed(false));
    assert!(matches!(run.advance(Event::Created(false)), Action::Fail(InstallError::Filesystem)));
    assert_eq!(run.outcome(), Some(Err(InstallError::Filesystem)));
}

#[test]
fn the_directory_is_created_before_the_bundle_is_opened() {
    let archive = corrupted();
    let mut run = Driver::install_to_path("/tmp/pw-test-7".to_string(), Platform::Linux, &archive);
    assert!(matches!(run.advance(Event::Probed(false)), Action::CreateDirectory));
    assert!(matches!(run.advance(Event::Created(false)), Action::Fail(InstallError::Filesystem)));
}

#[test]
fn extraction_faults_end_in_their_kind() {
    let archive = bundle();
    for (fault, kind) in [
        (ExtractFault::Io, InstallError::Filesystem),
        (ExtractFault::InvalidArchive, InstallError::Archive),
        (ExtractFault::UnsupportedArchive, InstallError::Archive),
        (ExtractFault::FileNotFound, InstallError::Archive),
    ] {
        assert_eq!(fault.kind(), kind);
        let mut run = extracting("/tmp/pw-test-8", &archive);
        match run.advance(Event::Extracted(Err(fault))) {
            Action::Fail(reported) => assert_eq!(reported, kind),
            other => panic!("unexpected action {:?}", other),
        }
        assert_eq!(run.stage(), Stage::Failed(kind));
        assert_eq!(run.outcome(), Some(Err(kind)));
    }
}

#[test]
fn events_that_answer_nothing_change_nothing() {
    let archive = bundle();
    let mut run = Driver::install_to_path("/tmp/pw-test-9".to_string(), Platform::Linux, &archive);
    assert!(matches!(run.advance(Event::Created(true)), Action::Probe));
    assert!(matches!(run.advance(Event::Extracted(Ok(()))), Action::Probe));
    assert_eq!(run.stage(), Stage::Probing);
    run.advance(Event::Probed(false));
    assert!(matches!(run.advance(Event::Probed(true)), Action::CreateDirectory));
    assert!(matches!(run.advance(Event::Extracted(Ok(()))), Action::CreateDirectory));
    assert!(matches!(run.advance(Event::Started), Action::CreateDirectory));
    assert_eq!(run.stage(), Stage::Creating);
    run.advance(Event::Created(true));
    assert!(is_extract(&run.advance(Event::Started)));
    assert!(is_extract(&run.advance(Event::Probed(true))));
    assert!(is_extract(&run.advance(Event::Created(false))));
    assert_eq!(run.stage(), Stage::Extracting);
}

#[test]
fn an_ended_installation_stays_ended() {
    let archive = bundle();
    let mut run = extracting("/tmp/pw-test-10", &archive);
    run.advance(Event::Extracted(Err(ExtractFault::InvalidArchive)));
    for event in [
        Event::Started,
        Event::Probed(true),
        Event::Probed(false),
        Event::Created(true),
        Event::Extracted(Ok(())),
    ] {
        assert!(matches!(run.advance(event), Action::Fail(InstallError::Archive)));
    }
    assert_eq!(run.stage(), Stage::Failed(InstallError::Archive));
}

#[test]
fn outcome_is_open_while_an_action_is_pending() {
    let archive = bundle();
    let run = Driver::install_to_path("/tmp/pw-test-11".to_string(), Platform::Linux, &archive);
    assert_eq!(run.outcome(), None);
    let mut run = Driver::install_to_path("/tmp/pw-test-11".to_string(), Platform::Linux, &archive);
    run.advance(Event::Probed(false));
    assert_eq!(run.outcome(), None);
    assert_eq!(extracting("/tmp/pw-test-11", &archive).outcome(), None);
}

#[test]
fn prepare_starts_by_creating_the_directory() {
    let archive = bundle();
    let driver = Driver::new("/tmp/pw-test-12".to_string(), Platform::Mac);
    let mut run = driver.prepare(&archive);
    assert_eq!(run.stage(), Stage::Creating);
    assert_eq!(run.driver(), &driver);
    assert!(matches!(run.advance(Event::Started), Action::CreateDirectory));
    assert!(is_extract(&run.advance(Event::Created(true))));
    assert!(matches!(run.advance(Event::Extracted(Ok(()))), Action::Done));
    assert_eq!(run.outcome(), Some(Ok(driver)));
}

#[test]
fn prepare_unpacks_even_where_a_probe_would_find_the_directory() {
    let archive = bundle();
    let driver = Driver::new("/tmp".to_string(), Platform::Linux);
    let mut run = driver.prepare(&archive);
    assert!(matches!(run.advance(Event::Probed(true)), Action::CreateDirectory));
    assert!(is_extract(&run.advance(Event::Created(true))));
}

#[test]
fn the_archive_handed_out_reads_the_bundle() {
    let archive = bundle();
    let mut run = Driver::install_to_path("/tmp/pw-test-13".to_string(), Platform::Linux, &archive);
    run.advance(Event::Probed(false));
    match run.advance(Event::Created(true)) {
        Action::Extract(mut opened) => {
            assert_eq!(opened.len(), 3);
            let names: Vec<String> = opened.file_names().map(|name| name.to_string()).collect();
            assert!(names.contains(&"playwright.sh".to_string()));
            assert!(names.contains(&"package/cli.js".to_string()));
            let mut script = opened.by_name("playwright.sh").unwrap();
            assert_eq!(script.unix_mode().map(|mode| mode & 0o777), Some(0o755));
            let mut text = String::new();
            script.read_to_string(&mut text).unwrap();
            assert_eq!(text, "#!/bin/sh\nexec node package/cli.js \"$@\"\n");
        }
        other => panic!("unexpected action {:?}", other),
    }
}
