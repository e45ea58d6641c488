use std::collections::BTreeMap;

use symphony::logging::{
    build_filter_spec, default_log_file, has_target_directive, join_path, rotate_files,
    rotated_path, rotation_needed, RotationStep, DEFAULT_MAX_BYTES, DEFAULT_MAX_FILES,
};

/// Log files in memory, by their names.
struct Files {
    path: &'static str,
    max_bytes: u64,
    max_files: usize,
    files: BTreeMap<String, Vec<u8>>,
}

impl Files {
    fn new(path: &'static str, max_bytes: u64, max_files: usize) -> Self {
        Files { path, max_bytes, max_files, files: BTreeMap::new() }
    }

    fn write(&mut self, bytes: &[u8]) {
        let size = self.files.get(self.path).map_or(0, |file| file.len() as u64);
        if rotation_needed(self.max_bytes, size, bytes.len() as u64) {
            for step in rotate_files(self.max_files) {
                match step {
                    RotationStep::Remove(index) => {
                        self.files.remove(&rotated_path(self.path, index));
                    }
                    RotationStep::Move(from, to) => {
                        if let Some(file) = self.files.remove(&rotated_path(self.path, from)) {
                            self.files.insert(rotated_path(self.path, to), file);
                        }
                    }
                }
            }
        }
        self.files.entry(self.path.to_string()).or_default().extend_from_slice(bytes);
    }

    fn read(&self, name: &str) -> Option<&str> {
        self.files.get(name).map(|file| std::str::from_utf8(file).expect("text"))
    }
}

#[test]
fn default_log_file_uses_log_subdirectory() {
    assert_eq!(default_log_file("/tmp/symphony"), "/tmp/symphony/log/symphony.log");
}

#[test]
fn rotating_writer_keeps_recent_history() {
    let mut files = Files::new("log/symphony.log", 6, 2);

    files.write(b"aaaa\n");
    files.write(b"bbbb\n");
    files.write(b"cccc\n");
    files.write(b"dddd\n");

    assert_eq!(files.read("log/symphony.log"), Some("dddd\n"));
    assert_eq!(files.read("log/symphony.log.1"), Some("cccc\n"));
    assert_eq!(files.read("log/symphony.log.2"), Some("bbbb\n"));
    assert_eq!(files.read("log/symphony.log.3"), None);
}

#[test]
fn rotating_writer_can_discard_history_when_retention_is_zero() {
    let mut files = Files::new("log/symphony.log", 4, 0);

    files.write(b"aaaa");
    files.write(b"bbbb");

    assert_eq!(files.read("log/symphony.log"), Some("bbbb"));
    assert_eq!(files.read("log/symphony.log.1"), None);
}

#[test]
fn build_filter_spec_keeps_symphony_targets_visible_by_default() {
    assert_eq!(build_filter_spec(None), "info,symphony=info,symphony_rust=info");
    assert_eq!(build_filter_spec(Some("warn")), "warn,symphony=info,symphony_rust=info");
}

#[test]
fn build_filter_spec_respects_explicit_symphony_directives() {
    assert_eq!(
        build_filter_spec(Some("warn,symphony=trace")),
        "warn,symphony=trace,symphony_rust=info"
    );
    assert_eq!(
        build_filter_spec(Some("warn,symphony=trace,symphony_rust=debug")),
        "warn,symphony=trace,symphony_rust=debug"
    );
}

#[test]
fn blank_filters_count_as_none() {
    assert_eq!(build_filter_spec(Some("  ")), "info,symphony=info,symphony_rust=info");
    assert!(has_target_directive("warn, symphony[span]=debug", "symphony"));
    assert!(has_target_directive(" symphony ", "symphony"));
    assert!(!has_target_directive("symphonyx=debug", "symphony"));
}

#[test]
fn files_make_room_before_they_grow_too_large() {
    assert!(!rotation_needed(10, 0, 100));
    assert!(!rotation_needed(10, 4, 6));
    assert!(rotation_needed(10, 4, 7));
    assert!(rotation_needed(0, 0, 0));
    assert!(!rotation_needed(u64::MAX, u64::MAX, 1));
    assert_eq!(DEFAULT_MAX_BYTES, 10 * 1024 * 1024);
    assert_eq!(
        rotate_files(DEFAULT_MAX_FILES),
        vec![
            RotationStep::Remove(5),
            RotationStep::Move(4, 5),
            RotationStep::Move(3, 4),
            RotationStep::Move(2, 3),
            RotationStep::Move(1, 2),
            RotationStep::Move(0, 1),
        ]
    );
}

#[test]
fn paths_are_joined() {
    assert_eq!(join_path("", "a"), "a");
    assert_eq!(join_path("/", "a"), "/a");
    assert_eq!(join_path("b", "a"), "b/a");
    assert_eq!(rotated_path("x.log", 12), "x.log.12");
}
