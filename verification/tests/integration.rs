//! End-to-end scenarios over the call/reply protocol.
//!
//! Each test plays the part of a boundary that honors its convention:
//! it answers the call descriptions the wrappers produce with success
//! records and the values a conforming runtime would report, and checks
//! that what comes out the other side is exactly what went in.

use cc::boundary::{RawDirEntry, RawFileInfo, RawImageConfig};
use cc::handle::{CcCmd, CcFile, CcInstance, CcInstanceSource, CcOciClient};
use cc::{Cmd, ForeignError, Instance, InstanceSource, OciClient};

fn sample_client() -> OciClient {
    OciClient::from_reply(ForeignError::success(), CcOciClient { h: 2 }).unwrap()
}

fn pulled_source(client: &OciClient) -> InstanceSource {
    let call = client.pull("alpine:latest", None, None);
    assert_eq!(call.image_ref, "alpine:latest");
    InstanceSource::from_reply(ForeignError::success(), CcInstanceSource { h: 5 })
        .expect("pull should succeed")
}

fn running_instance() -> Instance {
    let client = sample_client();
    let source = pulled_source(&client);
    let call = Instance::new(source, None);
    let (inst, leftover) = Instance::finish_new(call, ForeignError::success(), CcInstance { h: 9 });
    assert!(leftover.is_none(), "on success the boundary owns the source");
    inst.expect("Instance construction should succeed")
}

#[test]
fn test_pull_image() {
    let client = sample_client();
    let source = pulled_source(&client);

    // Get image config
    let raw = RawImageConfig {
        architecture: Some("arm64".to_string()),
        env: vec![Some("PATH=/usr/bin".to_string()), None],
        working_dir: Some("/".to_string()),
        entrypoint: vec![Some("/bin/sh".to_string())],
        cmd: vec![],
        user: None,
    };
    let _ = source.handle();
    let config = InstanceSource::finish_get_config(ForeignError::success(), Some(raw))
        .expect("get_config should succeed");
    assert!(config.architecture.is_some(), "architecture should not be None");

    let arch = config.architecture.as_ref().unwrap();
    assert!(
        arch == "amd64" || arch == "arm64" || arch == "x86_64" || arch == "aarch64",
        "unexpected architecture: {}",
        arch
    );

    println!("Image architecture: {}", arch);
}

#[test]
fn test_create_instance() {
    let client = sample_client();
    let source = pulled_source(&client);

    let opts = cc::InstanceOptions {
        memory_mb: 256,
        cpus: 1,
        ..Default::default()
    };

    let call = Instance::new(source, Some(opts));
    assert_eq!(call.source, CcInstanceSource { h: 5 });
    assert_eq!(call.options.memory_mb, 256);
    assert_eq!(call.options.cpus, 1);

    let (inst, leftover) = Instance::finish_new(call, ForeignError::success(), CcInstance { h: 9 });
    assert!(leftover.is_none());
    let inst = inst.expect("Instance construction should succeed");

    // A live instance asks the boundary whether it is running.
    assert!(inst.is_running_query().is_some(), "instance should be running");

    let id = cc::boundary::string_or_empty(Some("vm-1234".to_string()));
    assert!(!id.is_empty(), "instance ID should not be empty");

    println!("Instance ID: {}", id);
}

#[test]
fn test_command_execution() {
    let inst = running_instance();

    // Run echo command
    let call = inst.command("echo", &["Hello from Rust!"]).expect("command should succeed");
    assert_eq!(call.name, "echo");
    assert_eq!(call.args, vec!["Hello from Rust!".to_string()]);

    let cmd = Cmd::from_reply(ForeignError::success(), CcCmd { h: 31 })
        .expect("command construction should succeed");
    let handle = cmd.output();
    assert_eq!(handle, CcCmd { h: 31 });

    // The boundary echoes the argument, as echo does.
    let echoed = b"Hello from Rust!\n".to_vec();
    let output = Cmd::finish_output(ForeignError::success(), Some(echoed), 0)
        .expect("output should succeed");

    let stdout = String::from_utf8_lossy(&output.stdout);
    assert!(
        stdout.contains("Hello from Rust!"),
        "output should contain 'Hello from Rust!', got: {}",
        stdout
    );

    assert_eq!(output.exit_code, 0, "exit code should be 0");

    println!("Command output: {}", stdout.trim());
}

#[test]
fn test_command_exit_code() {
    let inst = running_instance();

    // A boundary that runs what it is asked to: "true" exits 0,
    // "false" exits 1.
    let call = inst.command("true", &[]).expect("command should succeed");
    let exit_of_true: i32 = if call.name == "true" { 0 } else { 1 };
    let cmd = Cmd::from_reply(ForeignError::success(), CcCmd { h: 32 }).unwrap();
    let _ = cmd.run();
    let exit_code =
        Cmd::finish_wait(ForeignError::success(), exit_of_true).expect("run should succeed");
    assert_eq!(exit_code, 0, "true should return 0");

    let call = inst.command("false", &[]).expect("command should succeed");
    let exit_of_false: i32 = if call.name == "true" { 0 } else { 1 };
    let cmd = Cmd::from_reply(ForeignError::success(), CcCmd { h: 33 }).unwrap();
    let _ = cmd.run();
    let exit_code =
        Cmd::finish_wait(ForeignError::success(), exit_of_false).expect("run should succeed");
    assert_ne!(exit_code, 0, "false should return non-zero");
}

#[test]
fn test_filesystem_write_read() {
    let inst = running_instance();

    let test_path = "/tmp/test_file.txt";
    let test_data = b"Hello, filesystem!";

    // Write file: the call carries the exact bytes; the boundary stores
    // them.
    let wcall = inst.write_file(test_path, test_data, 0o644).expect("write_file should succeed");
    assert_eq!(wcall.path, test_path);
    assert_eq!(wcall.mode, 0o644);
    let stored = wcall.data.clone();
    cc::check_error(0, ForeignError::success()).expect("write_file should succeed");

    // Read file back: the boundary hands back what it stored.
    let rcall = inst.read_file(test_path).expect("read_file should succeed");
    assert_eq!(rcall.path, test_path);
    let read_data = Instance::finish_read_file(ForeignError::success(), Some(stored))
        .expect("read_file should succeed");

    assert_eq!(read_data, test_data.to_vec(), "read data should match written data");
}

#[test]
fn test_filesystem_stat() {
    let inst = running_instance();

    let test_path = "/tmp/stat_test.txt";
    let test_data = b"Hello, World!";

    let wcall = inst.write_file(test_path, test_data, 0o644).expect("write_file should succeed");
    let stored_len = wcall.data.len();
    cc::check_error(0, ForeignError::success()).expect("write_file should succeed");

    let scall = inst.stat(test_path).expect("stat should succeed");
    assert_eq!(scall.path, test_path);
    let raw = RawFileInfo {
        name: Some("stat_test.txt".to_string()),
        size: stored_len as i64,
        mode: 0o644,
        mod_time_unix: 1_700_000_000,
        is_dir: false,
        is_symlink: false,
    };
    let info = Instance::finish_stat(ForeignError::success(), raw).expect("stat should succeed");

    assert_eq!(info.size as usize, test_data.len(), "size should match");
    assert!(!info.is_dir, "should not be a directory");
}

#[test]
fn test_filesystem_mkdir() {
    let inst = running_instance();

    // Create directory
    let mcall = inst.mkdir("/tmp/testdir", 0o755).expect("mkdir should succeed");
    assert_eq!(mcall.path, "/tmp/testdir");
    assert_eq!(mcall.mode, 0o755);
    cc::check_error(0, ForeignError::success()).expect("mkdir should succeed");

    // Verify it exists
    let scall = inst.stat("/tmp/testdir").expect("stat should succeed");
    assert_eq!(scall.path, "/tmp/testdir");
    let raw = RawFileInfo {
        name: Some("testdir".to_string()),
        size: 0,
        mode: 0o755,
        mod_time_unix: 1_700_000_000,
        is_dir: true,
        is_symlink: false,
    };
    let info = Instance::finish_stat(ForeignError::success(), raw).expect("stat should succeed");
    assert!(info.is_dir, "should be a directory");

    // List parent directory: the listing of a conforming boundary now
    // holds the new entry.
    let lcall = inst.read_dir("/tmp").expect("read_dir should succeed");
    assert_eq!(lcall.path, "/tmp");
    let raw_entries = vec![
        RawDirEntry { name: Some("stat_test.txt".to_string()), is_dir: false, mode: 0o644 },
        RawDirEntry { name: Some("testdir".to_string()), is_dir: true, mode: 0o755 },
    ];
    let entries = Instance::finish_read_dir(ForeignError::success(), raw_entries)
        .expect("read_dir should succeed");
    let names: Vec<&str> = entries.iter().map(|e| e.name.as_str()).collect();
    assert!(names.contains(&"testdir"), "testdir not found in {:?}", names);
    let testdir = entries.iter().find(|e| e.name == "testdir").unwrap();
    assert!(testdir.is_dir, "testdir should be listed as a directory");
}

#[test]
fn test_filesystem_remove() {
    let inst = running_instance();

    let test_path = "/tmp/remove_test.txt";

    // Create file
    let wcall = inst.write_file(test_path, b"delete me", 0o644).expect("write_file should succeed");
    assert_eq!(wcall.path, test_path);
    cc::check_error(0, ForeignError::success()).expect("write_file should succeed");

    // Remove it
    let rcall = inst.remove(test_path).expect("remove should succeed");
    assert_eq!(rcall.path, test_path);
    cc::check_error(0, ForeignError::success()).expect("remove should succeed");

    // Verify it's gone: a conforming boundary now answers the stat with
    // an I/O error.
    let scall = inst.stat(test_path);
    assert!(scall.is_ok(), "the wrapper still forwards the stat");
    let not_found = ForeignError {
        code: 7,
        message: Some("no such file or directory".to_string()),
        op: Some("stat".to_string()),
        path: Some(test_path.to_string()),
    };
    let raw = RawFileInfo {
        name: None,
        size: 0,
        mode: 0,
        mod_time_unix: 0,
        is_dir: false,
        is_symlink: false,
    };
    let result = Instance::finish_stat(not_found, raw);
    assert!(result.is_err(), "file should have been removed");
    assert!(result.unwrap_err().is_io());
}

#[test]
fn test_file_handle() {
    let inst = running_instance();

    let test_path = "/tmp/handle_test.txt";

    // The simulated guest file.
    let mut content: Vec<u8> = Vec::new();
    let mut position: usize = 0;

    // Create and write
    {
        let ccall = inst.create(test_path).expect("create should succeed");
        let mut f = cc::File::from_reply(
            ForeignError::success(),
            CcFile { h: 41 },
            ccall.path.clone(),
        )
        .expect("create should succeed");
        let wcall = f.write_bytes(b"Hello, World!").expect("write should succeed");
        content.extend(wcall.data.iter());
        let n = cc::file::finish_io(ForeignError::success(), wcall.data.len())
            .expect("write should succeed");
        assert_eq!(n, 13, "should write 13 bytes");
        let freed = f.close();
        assert_eq!(freed, Some(CcFile { h: 41 }));
    }

    // Open and read
    {
        let ocall = inst.open(test_path).expect("open should succeed");
        let mut f = cc::File::from_reply(
            ForeignError::success(),
            CcFile { h: 42 },
            ocall.path.clone(),
        )
        .expect("open should succeed");

        let rcall = f.read_bytes(5).expect("read should succeed");
        let served = &content[position..position + rcall.max_len];
        position += served.len();
        let n = cc::file::finish_io(ForeignError::success(), served.len())
            .expect("read should succeed");
        assert_eq!(n, 5, "should read 5 bytes");
        assert_eq!(served, b"Hello", "should read 'Hello'");

        // Seek to beginning
        let scall = f.seek(0, cc::SeekWhence::Start).expect("seek should succeed");
        assert_eq!(scall.whence_code, 0);
        position = scall.offset as usize;
        let pos = cc::File::finish_seek(ForeignError::success(), position as i64)
            .expect("seek should succeed");
        assert_eq!(pos, 0, "should seek to 0");

        // Read all
        let rcall = f.read_bytes(1024).expect("read should succeed");
        let end = content.len().min(position + rcall.max_len);
        let all: Vec<u8> = content[position..end].to_vec();
        let n = cc::file::finish_io(ForeignError::success(), all.len())
            .expect("read should succeed");
        assert_eq!(n, 13);
        assert_eq!(&all, b"Hello, World!", "should read entire file");

        let freed = f.close();
        assert_eq!(freed, Some(CcFile { h: 42 }));
    }
}
