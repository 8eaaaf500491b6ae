//! Reply conversions: materialized copies, null handling, defaults.

use cc::boundary::{RawDirEntry, RawFileInfo, RawImageConfig};
use cc::handle::{CcInstance, CcInstanceSource, CcOciClient};
use cc::{Error, ForeignError, Instance, InstanceSource};

fn inst() -> Instance {
    Instance::from_handle(CcInstance { h: 1 })
}

#[test]
fn read_file_null_buffer_is_empty() {
    let data = Instance::finish_read_file(ForeignError::success(), None).unwrap();
    assert!(data.is_empty());
}

#[test]
fn read_file_failure_translates() {
    let rec = ForeignError {
        code: 7,
        message: Some("gone".to_string()),
        op: Some("read".to_string()),
        path: Some("/x".to_string()),
    };
    let r = Instance::finish_read_file(rec, Some(b"stale".to_vec()));
    assert!(r.unwrap_err().is_io());
}

#[test]
fn dir_entries_convert_one_for_one() {
    let raw = vec![
        RawDirEntry { name: Some("bin".to_string()), is_dir: true, mode: 0o755 },
        RawDirEntry { name: None, is_dir: false, mode: 0o644 },
        RawDirEntry { name: Some("etc".to_string()), is_dir: true, mode: 0o750 },
    ];
    let entries = Instance::finish_read_dir(ForeignError::success(), raw).unwrap();
    assert_eq!(entries.len(), 3);
    assert_eq!(entries[0].name, "bin");
    assert!(entries[0].is_dir);
    // A null name materializes as the empty string.
    assert_eq!(entries[1].name, "");
    assert!(!entries[1].is_dir);
    assert_eq!(entries[2].mode, 0o750);
}

#[test]
fn empty_directory_lists_empty() {
    let entries = Instance::finish_read_dir(ForeignError::success(), Vec::new()).unwrap();
    assert!(entries.is_empty());
}

#[test]
fn stat_keeps_every_field() {
    let raw = RawFileInfo {
        name: Some("hosts".to_string()),
        size: 196,
        mode: 0o644,
        mod_time_unix: 1_650_000_000,
        is_dir: false,
        is_symlink: true,
    };
    let info = Instance::finish_stat(ForeignError::success(), raw).unwrap();
    assert_eq!(info.name, "hosts");
    assert_eq!(info.size, 196);
    assert_eq!(info.mode, 0o644);
    assert_eq!(info.mod_time_unix, 1_650_000_000);
    assert!(!info.is_dir);
    assert!(info.is_symlink);
}

#[test]
fn readlink_null_target_is_empty() {
    assert_eq!(Instance::finish_readlink(ForeignError::success(), None).unwrap(), "");
    assert_eq!(
        Instance::finish_readlink(ForeignError::success(), Some("/usr/bin".to_string())).unwrap(),
        "/usr/bin"
    );
}

#[test]
fn config_missing_record_is_default() {
    let c = InstanceSource::finish_get_config(ForeignError::success(), None).unwrap();
    assert!(c.architecture.is_none());
    assert!(c.env.is_empty());
    assert!(c.working_dir.is_none());
    assert!(c.entrypoint.is_empty());
    assert!(c.cmd.is_empty());
    assert!(c.user.is_none());
}

#[test]
fn config_skips_null_array_entries() {
    let raw = RawImageConfig {
        architecture: Some("amd64".to_string()),
        env: vec![None, Some("A=1".to_string()), None, Some("B=2".to_string())],
        working_dir: Some("/app".to_string()),
        entrypoint: vec![Some("/entry".to_string()), None],
        cmd: vec![Some("serve".to_string())],
        user: Some("65534:65534".to_string()),
    };
    let c = InstanceSource::finish_get_config(ForeignError::success(), Some(raw)).unwrap();
    assert_eq!(c.architecture.as_deref(), Some("amd64"));
    assert_eq!(c.env, vec!["A=1".to_string(), "B=2".to_string()]);
    assert_eq!(c.working_dir.as_deref(), Some("/app"));
    assert_eq!(c.entrypoint, vec!["/entry".to_string()]);
    assert_eq!(c.cmd, vec!["serve".to_string()]);
    assert_eq!(c.user.as_deref(), Some("65534:65534"));
}

#[test]
fn config_failure_translates() {
    let rec = ForeignError { code: 1, message: None, op: None, path: None };
    let r = InstanceSource::finish_get_config(rec, None);
    assert_eq!(r.unwrap_err(), Error::InvalidHandle);
}

#[test]
fn fs_calls_carry_their_arguments() {
    let inst = inst();
    let c = inst.chown("/data", 1000, 1000).unwrap();
    assert_eq!((c.path.as_str(), c.uid, c.gid), ("/data", 1000, 1000));

    let c = inst.chtimes("/data", 10, 20).unwrap();
    assert_eq!((c.atime_unix, c.mtime_unix), (10, 20));

    let c = inst.chmod("/data", 0o600).unwrap();
    assert_eq!(c.mode, 0o600);

    let c = inst.symlink("/target", "/link").unwrap();
    assert_eq!((c.path_a.as_str(), c.path_b.as_str()), ("/target", "/link"));

    let c = inst.rename("/old", "/new").unwrap();
    assert_eq!((c.path_a.as_str(), c.path_b.as_str()), ("/old", "/new"));

    let c = inst.open_file("/f", cc::flags::O_RDWR | cc::flags::O_CREATE, 0o600).unwrap();
    assert_eq!(c.flags, 0x0202);
    assert_eq!(c.perm, 0o600);

    let c = inst.mkdir_all("/a/b/c", 0o755).unwrap();
    assert_eq!(c.path, "/a/b/c");

    let c = inst.remove_all("/a").unwrap();
    assert_eq!(c.path, "/a");

    let c = inst.exec("init", &["--fast"]).unwrap();
    assert_eq!(c.name, "init");
    assert_eq!(c.args, vec!["--fast".to_string()]);

    let c = inst.set_console_size(80, 25).unwrap();
    assert_eq!((c.cols, c.rows), (80, 25));

    let c = inst.set_network_enabled(true).unwrap();
    assert!(c.enabled);
}

#[test]
fn instance_options_defaults() {
    let opts = cc::InstanceOptions::default();
    assert_eq!(opts.memory_mb, 256);
    assert_eq!(opts.cpus, 1);
    assert_eq!(opts.timeout_ms, 0);
    assert!(opts.user.is_none());
    assert!(!opts.enable_dmesg);
    assert!(opts.mounts.is_empty());
}

#[test]
fn snapshot_call_defaults() {
    let inst = inst();
    let c = inst.snapshot(None).unwrap();
    assert!(c.excludes.is_empty());
    assert!(c.cache_dir.is_none());

    let opts = cc::SnapshotOptions {
        excludes: vec!["*.log".to_string()],
        cache_dir: Some("/cache".to_string()),
    };
    let c = inst.snapshot(Some(opts)).unwrap();
    assert_eq!(c.excludes, vec!["*.log".to_string()]);
    assert_eq!(c.cache_dir.as_deref(), Some("/cache"));
}

#[test]
fn build_call_carries_recipe_and_options() {
    let client = cc::OciClient::from_reply(ForeignError::success(), CcOciClient { h: 2 }).unwrap();
    let opts = cc::DockerfileOptions {
        context_dir: None,
        cache_dir: "/tmp/cache".to_string(),
        build_args: vec![("K".to_string(), "V".to_string())],
    };
    let recipe = b"FROM alpine:3.19\nRUN apk add --no-cache curl";
    let call = client.build_dockerfile(recipe, opts, None);
    assert_eq!(call.dockerfile, recipe.to_vec());
    assert_eq!(call.options.cache_dir, "/tmp/cache");
    assert_eq!(call.options.build_args.len(), 1);
    assert_eq!(call.cancel.h, 0);

    let snap = cc::Snapshot::from_reply(ForeignError::success(), cc::handle::CcSnapshot { h: 6 })
        .unwrap();
    assert!(snap.handle.is_valid());
}

#[test]
fn export_call_borrows_the_source() {
    let client = cc::OciClient::from_reply(ForeignError::success(), CcOciClient { h: 2 }).unwrap();
    let source = InstanceSource::from_handle(CcInstanceSource { h: 5 });
    let call = client.export_dir(&source, "/out");
    assert_eq!(call.source, CcInstanceSource { h: 5 });
    assert_eq!(call.dir_path, "/out");
    // The source still owns its handle afterwards.
    assert_eq!(source.handle(), CcInstanceSource { h: 5 });
}

#[test]
fn wait_call_names_instance_and_token() {
    let inst = inst();
    // Without a token, the call carries the invalid token handle.
    let call = inst.wait(None).unwrap();
    assert_eq!(call.inst, CcInstance { h: 1 });
    assert_eq!(call.cancel.h, 0);
    // With a token, the call names it.
    let token = cc::CancelToken::from_handle(cc::handle::CcCancelToken { h: 33 });
    let call = inst.wait(Some(&token)).unwrap();
    assert_eq!(call.cancel.h, 33);
}

#[test]
fn seek_whence_codes() {
    assert_eq!(cc::SeekWhence::Start.code(), 0);
    assert_eq!(cc::SeekWhence::Current.code(), 1);
    assert_eq!(cc::SeekWhence::End.code(), 2);
}
