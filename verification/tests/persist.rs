use std::collections::HashMap;

use mini_mqtt_client::paths::{
    check_new_data_path, sibling_file_name, backup_path, choose_data_file, fallback_paths, message_db_path, replacing_path,
    sibling_path_with_suffix, temp_path,
};
use mini_mqtt_client::persist::{resolve_load, FileWrite, WriteAction, WriteEvent, WriteFailure};

/// A directory in memory: file name to content; content that starts with
/// `valid:` reads as valid data.
#[derive(Default, Clone, Debug, PartialEq)]
struct Disk {
    files: HashMap<String, String>,
    fail_rename_to: Option<String>,
}

impl Disk {
    fn with(files: &[(&str, &str)]) -> Disk {
        Disk {
            files: files.iter().map(|(k, v)| (k.to_string(), v.to_string())).collect(),
            fail_rename_to: None,
        }
    }

    fn get(&self, path: &str) -> Option<&str> {
        self.files.get(path).map(|s| s.as_str())
    }

    /// Runs a whole write of `content` to `path`, performing each step.
    fn write(&mut self, path: &str, content: &str) -> Result<(), String> {
        let (mut job, mut action) = FileWrite::begin(path);
        for _ in 0..20 {
            let event = match action {
                WriteAction::Finish(result) => return result,
                WriteAction::RemoveIfPresent(p) => {
                    self.files.remove(&p);
                    WriteEvent::Done
                }
                WriteAction::WriteNew(p) => {
                    if self.files.contains_key(&p) {
                        WriteEvent::WriteFailed(WriteFailure::Create, "exists".to_string())
                    } else {
                        self.files.insert(p, content.to_string());
                        WriteEvent::Done
                    }
                }
                WriteAction::Inspect(p) => match self.files.get(&p) {
                    Some(c) => WriteEvent::Inspected { exists: true, valid: c.starts_with("valid:") },
                    None => WriteEvent::Inspected { exists: false, valid: false },
                },
                WriteAction::Rename(from, to) => {
                    if self.fail_rename_to.as_deref() == Some(to.as_str()) {
                        WriteEvent::Failed("denied".to_string())
                    } else {
                        match self.files.remove(&from) {
                            Some(c) => {
                                self.files.insert(to, c);
                                WriteEvent::Done
                            }
                            None => WriteEvent::Failed("missing".to_string()),
                        }
                    }
                }
                WriteAction::CheckExists(p) => WriteEvent::Exists(self.files.contains_key(&p)),
                WriteAction::Remove(p) => match self.files.remove(&p) {
                    Some(_) => WriteEvent::Done,
                    None => WriteEvent::Failed("missing".to_string()),
                },
                WriteAction::RollBack { replacing, path, temp } => {
                    if self.files.contains_key(&replacing) && !self.files.contains_key(&path) {
                        if let Some(c) = self.files.remove(&replacing) {
                            self.files.insert(path, c);
                        }
                    }
                    self.files.remove(&temp);
                    WriteEvent::Done
                }
            };
            action = job.next(event);
        }
        panic!("the write did not finish");
    }

    /// Loads `path` as the data files are loaded.
    fn load(&self, path: &str) -> Result<Option<String>, String> {
        let read = |p: &str| -> Result<String, String> {
            let c = self.files.get(p).unwrap();
            if c.starts_with("valid:") {
                Ok(c.clone())
            } else {
                Err(format!("Failed to parse {}: bad", p))
            }
        };
        let primary = if self.files.contains_key(path) { Some(read(path)) } else { None };
        if let Some(Ok(_)) = primary {
            return resolve_load(path, primary, None);
        }
        let fallback = fallback_paths(path)
            .into_iter()
            .find(|p| self.files.contains_key(p))
            .map(|p| {
                let r = read(&p);
                (p, r)
            });
        resolve_load(path, primary, fallback)
    }
}

#[test]
fn sibling_files_are_named_after_the_file() {
    assert_eq!(temp_path("/d/data.yaml"), "/d/data.yaml.tmp");
    assert_eq!(replacing_path("/d/data.yaml"), "/d/data.yaml.old");
    assert_eq!(backup_path("/d/data.yaml"), "/d/data.yaml.bak");
    assert_eq!(sibling_path_with_suffix("/", "bak"), "/data.bak");
    assert_eq!(message_db_path("/d/data.yaml"), "/d/messages.sqlite");
    assert_eq!(message_db_path("/d/store.yml"), "/d/store.messages.sqlite");
    assert_eq!(fallback_paths("/d/c.yaml"), vec!["/d/c.yaml.old".to_string(), "/d/c.yaml.bak".to_string()]);
    assert_eq!(choose_data_file(Some("/x".to_string()), true, "/d".to_string()), "/x");
    assert_eq!(choose_data_file(Some("/x".to_string()), false, "/d".to_string()), "/d");
    assert_eq!(choose_data_file(None, true, "/d".to_string()), "/d");
}

#[test]
fn write_file_with_backup_replaces_file_and_keeps_previous_copy() {
    let mut disk = Disk::with(&[("/d/data.yaml", "valid: first")]);
    disk.write("/d/data.yaml", "valid: second").unwrap();

    assert_eq!(disk.get("/d/data.yaml"), Some("valid: second"));
    assert_eq!(disk.get("/d/data.yaml.bak"), Some("valid: first"));
    assert_eq!(disk.get("/d/data.yaml.old"), None);
    assert_eq!(disk.get("/d/data.yaml.tmp"), None);
}

#[test]
fn load_yaml_or_backup_recovers_when_primary_is_corrupt() {
    let disk = Disk::with(&[("/d/data.yaml", "corrupt"), ("/d/data.yaml.bak", "valid: saved")]);
    assert_eq!(disk.load("/d/data.yaml"), Ok(Some("valid: saved".to_string())));
}

#[test]
fn load_yaml_or_backup_prefers_replaced_file_before_backup() {
    let disk = Disk::with(&[
        ("/d/data.yaml.old", "valid: replacing"),
        ("/d/data.yaml.bak", "valid: backup"),
    ]);
    assert_eq!(disk.load("/d/data.yaml"), Ok(Some("valid: replacing".to_string())));
}

#[test]
fn write_file_with_backup_preserves_existing_backup_when_current_file_is_corrupt() {
    let mut disk = Disk::with(&[("/d/data.yaml", "corrupt"), ("/d/data.yaml.bak", "valid: good")]);
    disk.write("/d/data.yaml", "valid: new").unwrap();

    assert_eq!(disk.get("/d/data.yaml"), Some("valid: new"));
    assert_eq!(disk.get("/d/data.yaml.bak"), Some("valid: good"));
    assert_eq!(disk.get("/d/data.yaml.old"), None);
}

#[test]
fn write_file_with_backup_keeps_replaced_file_when_primary_is_missing() {
    let mut disk = Disk::with(&[("/d/data.yaml.old", "valid: interrupted")]);
    disk.write("/d/data.yaml", "valid: new").unwrap();

    assert_eq!(disk.get("/d/data.yaml"), Some("valid: new"));
    assert_eq!(disk.get("/d/data.yaml.old"), Some("valid: interrupted"));
}

#[test]
fn load_yaml_or_backup_fails_when_primary_and_backup_are_corrupt() {
    let disk = Disk::with(&[("/d/data.yaml", "corrupt"), ("/d/data.yaml.bak", "also corrupt")]);
    assert_eq!(
        disk.load("/d/data.yaml"),
        Err("/d/data.yaml could not be loaded: Failed to parse /d/data.yaml: bad; backup /d/data.yaml.bak also failed: Failed to parse /d/data.yaml.bak: bad".to_string())
    );
}

#[test]
fn loading_a_missing_file_uses_defaults_or_reports_the_backup() {
    assert_eq!(Disk::default().load("/d/c.yaml"), Ok(None));
    let disk = Disk::with(&[("/d/c.yaml.bak", "broken")]);
    assert_eq!(
        disk.load("/d/c.yaml"),
        Err("/d/c.yaml is missing and backup /d/c.yaml.bak could not be loaded: Failed to parse /d/c.yaml.bak: bad".to_string())
    );
    let disk = Disk::with(&[("/d/c.yaml", "broken")]);
    assert_eq!(disk.load("/d/c.yaml"), Err("Failed to parse /d/c.yaml: bad".to_string()));
}

#[test]
fn a_failed_replacement_puts_the_current_file_back() {
    let mut disk = Disk::with(&[("/d/data.yaml", "valid: current")]);
    disk.fail_rename_to = Some("/d/data.yaml".to_string());
    assert_eq!(
        disk.write("/d/data.yaml", "valid: new"),
        Err("Failed to replace /d/data.yaml with /d/data.yaml.tmp: denied".to_string())
    );
    assert_eq!(disk.get("/d/data.yaml"), Some("valid: current"));
    assert_eq!(disk.get("/d/data.yaml.tmp"), None);
    assert_eq!(disk.get("/d/data.yaml.old"), None);
}

#[test]
fn write_steps_report_their_failures() {
    let (mut job, first) = FileWrite::begin("/d/f");
    assert!(matches!(first, WriteAction::RemoveIfPresent(p) if p == "/d/f.tmp"));
    match job.next(WriteEvent::Failed("busy".to_string())) {
        WriteAction::Finish(r) => assert_eq!(r, Err("Failed to remove stale /d/f.tmp: busy".to_string())),
        other => panic!("unexpected {:?}", other),
    }

    let (mut job, _) = FileWrite::begin("/d/f");
    assert!(matches!(job.next(WriteEvent::Done), WriteAction::WriteNew(p) if p == "/d/f.tmp"));
    match job.next(WriteEvent::WriteFailed(WriteFailure::Flush, "disk full".to_string())) {
        WriteAction::Finish(r) => assert_eq!(r, Err("Failed to flush /d/f.tmp: disk full".to_string())),
        other => panic!("unexpected {:?}", other),
    }

    let (mut job, _) = FileWrite::begin("/d/f");
    job.next(WriteEvent::Done);
    job.next(WriteEvent::Done);
    assert!(matches!(
        job.next(WriteEvent::Inspected { exists: true, valid: true }),
        WriteAction::RemoveIfPresent(p) if p == "/d/f.old"
    ));
    assert!(matches!(job.next(WriteEvent::Done), WriteAction::Rename(a, b) if a == "/d/f" && b == "/d/f.old"));
    match job.next(WriteEvent::Failed("locked".to_string())) {
        WriteAction::Finish(r) => assert_eq!(
            r,
            Err("Failed to move /d/f before replacement /d/f.old: locked".to_string())
        ),
        other => panic!("unexpected {:?}", other),
    }
}

#[test]
fn sibling_names_and_new_data_paths() {
    assert_eq!(sibling_file_name(Some("c.yaml".to_string()), "old"), "c.yaml.old");
    assert_eq!(sibling_file_name(None, "tmp"), "data.tmp");
    assert_eq!(check_new_data_path("/data/app.yaml"), Ok(()));
    assert_eq!(
        check_new_data_path("data/app.yaml"),
        Err("Please provide an absolute path".to_string())
    );
}

#[test]
fn a_load_after_a_write_reads_the_new_version() {
    let mut disk = Disk::with(&[("/d/data.yaml", "corrupt"), ("/d/data.yaml.old", "valid: stale")]);
    disk.write("/d/data.yaml", "valid: new").unwrap();
    assert_eq!(disk.load("/d/data.yaml"), Ok(Some("valid: new".to_string())));
}
