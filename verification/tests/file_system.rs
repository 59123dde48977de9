use episode_store::commands::{get_episode_list, load_episode_data, load_episode_script};
use episode_store::file_system::{
    ensure_dir_exists, get_episode_data_dir, get_script_dir, load_episode_data_file,
    load_episode_script_file, scan_episode_list, Reply, Step,
};
use episode_store::listing::DirEntry;

/// A host that keeps its directories and files in memory.
struct MemoryHost {
    dirs: Vec<String>,
    files: Vec<(String, Vec<u8>)>,
    read_only: bool,
    asked: Vec<String>,
}

impl MemoryHost {
    fn new() -> MemoryHost {
        MemoryHost { dirs: vec![String::from("/tmp")], files: Vec::new(), read_only: false, asked: Vec::new() }
    }

    /// A fresh, empty directory.
    fn tempdir(&mut self) -> String {
        let dir = format!("/tmp/store{}", self.dirs.len());
        self.dirs.push(dir.clone());
        dir
    }

    fn write(&mut self, path: &str, content: &[u8]) {
        self.files.retain(|(at, _)| at != path);
        self.files.push((String::from(path), content.to_vec()));
    }

    fn dir_exists(&self, dir: &str) -> bool {
        self.dirs.iter().any(|at| at == dir)
    }

    fn create_dir_all(&mut self, dir: &str) -> Result<(), String> {
        if self.read_only {
            return Err(String::from("Permission denied (os error 13)"));
        }
        if !self.dir_exists(dir) {
            self.dirs.push(String::from(dir));
        }
        Ok(())
    }

    fn name_in(dir: &str, path: &str) -> Option<String> {
        let rest = path.strip_prefix(dir)?.strip_prefix('/')?;
        if rest.is_empty() || rest.contains('/') {
            None
        } else {
            Some(String::from(rest))
        }
    }

    fn read_dir(&self, dir: &str) -> Result<Vec<Result<DirEntry, String>>, String> {
        if !self.dir_exists(dir) {
            return Err(String::from("No such file or directory (os error 2)"));
        }
        let mut found = Vec::new();
        for at in &self.dirs {
            if let Some(name) = MemoryHost::name_in(dir, at) {
                found.push(Ok(DirEntry { name: Some(name), is_file: false }));
            }
        }
        for (at, _) in &self.files {
            if let Some(name) = MemoryHost::name_in(dir, at) {
                found.push(Ok(DirEntry { name: Some(name), is_file: true }));
            }
        }
        Ok(found)
    }

    fn read_to_string(&self, path: &str) -> Result<String, String> {
        match self.files.iter().find(|(at, _)| at == path) {
            Some((_, content)) => String::from_utf8(content.clone())
                .map_err(|_| String::from("stream did not contain valid UTF-8")),
            None => Err(String::from("No such file or directory (os error 2)")),
        }
    }

    /// Does what the store asks for until the operation is done.
    fn run(&mut self, first: Step) -> Result<Reply, String> {
        let mut step = first;
        loop {
            step = match step {
                Step::Probe(probe) => {
                    self.asked.push(format!("probe {}", probe.dir));
                    let exists = self.dir_exists(&probe.dir);
                    probe.resume(exists)
                }
                Step::Create(create) => {
                    self.asked.push(format!("create {}", create.dir));
                    let created = self.create_dir_all(&create.dir);
                    create.resume(created)
                }
                Step::List(list) => {
                    self.asked.push(format!("list {}", list.dir));
                    let listing = self.read_dir(&list.dir);
                    list.resume(listing)
                }
                Step::Read(read) => {
                    self.asked.push(format!("read {}", read.path));
                    let text = self.read_to_string(&read.path);
                    read.resume(text)
                }
                Step::Done(end) => return end,
            };
        }
    }

    fn episodes(&mut self, first: Step) -> Result<Vec<String>, String> {
        match self.run(first)? {
            Reply::Episodes(names) => Ok(names),
            _ => panic!("the store did not answer with episodes"),
        }
    }

    fn text(&mut self, first: Step) -> Result<String, String> {
        match self.run(first)? {
            Reply::Text(text) => Ok(text),
            _ => panic!("the store did not answer with a text"),
        }
    }

    fn ready(&mut self, first: Step) -> Result<(), String> {
        match self.run(first)? {
            Reply::Ready => Ok(()),
            _ => panic!("the store did not answer that the directory is ready"),
        }
    }
}

#[test]
fn test_get_script_dir_returns_expected_path() {
    let app_data_dir = String::from("/mock/app/data/dir");
    let result = get_script_dir(&app_data_dir);
    assert!(result.is_ok());
    let script_dir = result.unwrap();
    assert_eq!(script_dir, String::from("/mock/app/data/dir/scripts"));
}

#[test]
fn test_get_episode_data_dir_returns_expected_path() {
    let app_data_dir = String::from("/mock/app/data/dir");
    let result = get_episode_data_dir(&app_data_dir);
    assert!(result.is_ok());
    let script_dir = result.unwrap();
    assert_eq!(script_dir, String::from("/mock/app/data/dir/data"));
}

#[test]
fn test_scan_episode_list_with_tempdir() {
    let mut host = MemoryHost::new();
    let dir = host.tempdir();
    let filenames = ["episode001.txt", "episode002.txt", "episode003.txt"];
    for name in &filenames {
        let file_path = format!("{}/{}", dir, name);
        host.write(&file_path, "dummy content\n".as_bytes());
    }

    let result = host.episodes(scan_episode_list(&dir));
    assert!(result.is_ok());
    let mut episodes = result.unwrap();
    episodes.sort();
    let mut expected: Vec<String> = filenames.iter().map(|s| s.to_string()).collect();
    expected.sort();
    assert_eq!(episodes, expected);
}

#[test]
fn test_load_episode_script_file_reads_file_content() {
    let mut host = MemoryHost::new();
    let dir = host.tempdir();
    let episode_id = "test_episode.txt";
    let file_content = "Hello, this is a test script.";
    let file_path = format!("{}/{}", dir, episode_id);
    host.write(&file_path, format!("{}\n", file_content).as_bytes());

    let expected_content = format!("{}\n", file_content);
    let result = host.text(load_episode_script_file(&dir, episode_id));
    assert!(result.is_ok());
    assert_eq!(result.unwrap(), expected_content);
}

#[test]
fn test_load_episode_script_file_returns_error_for_missing_file() {
    let mut host = MemoryHost::new();
    let dir = host.tempdir();
    let episode_id = "not_exist.txt";
    let result = host.text(load_episode_script_file(&dir, episode_id));
    assert!(result.is_err());
    let err = result.err().unwrap();
    assert!(err.contains("failed to read script file"));
}

#[test]
fn test_load_episode_data_file_reads_json_with_txt_extension() {
    let mut host = MemoryHost::new();
    let dir = host.tempdir();
    let episode_id = "episode01.txt";
    let json_filename = "episode01.json";
    let json_content = r#"{"test":true}"#;
    let file_path = format!("{}/{}", dir, json_filename);
    host.write(&file_path, json_content.as_bytes());
    let result = host.text(load_episode_data_file(&dir, episode_id));
    assert!(result.is_ok());
    assert_eq!(result.unwrap(), json_content);
}

#[test]
fn test_load_episode_data_file_reads_json_with_no_extension() {
    let mut host = MemoryHost::new();
    let dir = host.tempdir();
    let episode_id = "episode01";
    let json_filename = "episode01.json";
    let json_content = r#"{"test":123}"#;
    let file_path = format!("{}/{}", dir, json_filename);
    host.write(&file_path, json_content.as_bytes());
    let result = host.text(load_episode_data_file(&dir, episode_id));
    assert!(result.is_ok());
    assert_eq!(result.unwrap(), json_content);
}

#[test]
fn test_load_episode_data_file_reads_json_with_custom_extension() {
    let mut host = MemoryHost::new();
    let dir = host.tempdir();
    let episode_id = "episode01.custom";
    let json_filename = "episode01.json";
    let json_content = r#"{"foo":"bar"}"#;
    let file_path = format!("{}/{}", dir, json_filename);
    host.write(&file_path, json_content.as_bytes());
    let result = host.text(load_episode_data_file(&dir, episode_id));
    assert!(result.is_ok());
    assert_eq!(result.unwrap(), json_content);
}

#[test]
fn test_load_episode_data_file_returns_error_for_missing_file() {
    let mut host = MemoryHost::new();
    let dir = host.tempdir();
    let episode_id = "not_exist.txt";
    let result = host.text(load_episode_data_file(&dir, episode_id));
    assert!(result.is_err());
    let err = result.err().unwrap();
    assert!(err.contains("failed to read episode data file"));
}

#[test]
fn ensure_dir_creates_a_missing_directory_once() {
    let mut host = MemoryHost::new();
    let dir = "/tmp/app/scripts";
    assert!(!host.dir_exists(dir));
    assert_eq!(host.ready(ensure_dir_exists(dir)), Ok(()));
    assert!(host.dir_exists(dir));
    assert_eq!(host.ready(ensure_dir_exists(dir)), Ok(()));
    assert!(host.dir_exists(dir));
    assert_eq!(
        host.asked,
        vec![
            String::from("probe /tmp/app/scripts"),
            String::from("create /tmp/app/scripts"),
            String::from("probe /tmp/app/scripts"),
        ]
    );
}

#[test]
fn ensure_dir_reports_why_a_directory_was_not_created() {
    let mut host = MemoryHost::new();
    host.read_only = true;
    assert_eq!(
        host.ready(ensure_dir_exists("/tmp/app/data")),
        Err(String::from("failed to create dir '/tmp/app/data': Permission denied (os error 13)"))
    );
    assert!(!host.dir_exists("/tmp/app/data"));
}

#[test]
fn ensure_dir_leaves_a_directory_that_exists_alone() {
    let mut host = MemoryHost::new();
    host.read_only = true;
    let dir = host.tempdir();
    assert_eq!(host.ready(ensure_dir_exists(&dir)), Ok(()));
    assert_eq!(host.asked, vec![format!("probe {}", dir)]);
}

#[test]
fn scan_lists_three_files_in_some_order() {
    let mut host = MemoryHost::new();
    let dir = host.tempdir();
    for name in ["a.txt", "b.txt", "c.txt"] {
        host.write(&format!("{}/{}", dir, name), b"x");
    }
    let mut episodes = host.episodes(scan_episode_list(&dir)).unwrap();
    episodes.sort();
    assert_eq!(episodes, vec![String::from("a.txt"), String::from("b.txt"), String::from("c.txt")]);
}

#[test]
fn scan_leaves_out_directories_and_what_lies_deeper() {
    let mut host = MemoryHost::new();
    let dir = host.tempdir();
    host.create_dir_all(&format!("{}/drafts", dir)).unwrap();
    host.write(&format!("{}/drafts/hidden.txt", dir), b"x");
    host.write(&format!("{}/ep1.txt", dir), b"x");
    host.write(&format!("{}/notes", dir), b"x");
    assert_eq!(
        host.episodes(scan_episode_list(&dir)),
        Ok(vec![String::from("ep1.txt"), String::from("notes")])
    );
}

#[test]
fn scan_of_a_missing_directory_fails() {
    let mut host = MemoryHost::new();
    assert_eq!(
        host.episodes(scan_episode_list("/tmp/nowhere")),
        Err(String::from(
            "failed to read dir '/tmp/nowhere': No such file or directory (os error 2)"
        ))
    );
}

#[test]
fn scan_of_a_missing_directory_names_the_directory() {
    let mut host = MemoryHost::new();
    let dir = "/tmp/nowhere";
    let result = host.episodes(scan_episode_list(dir));
    assert_ne!(result, Ok(Vec::new()));
    let err = result.unwrap_err();
    assert!(err.contains("failed to read dir"));
    assert!(err.contains(dir));
    assert!(err.contains("No such file or directory"));
}

#[test]
fn scan_that_meets_an_unreadable_entry_names_the_directory() {
    let dir = "/srv/app/scripts";
    let step = scan_episode_list(dir);
    let end = match step {
        Step::List(list) => list.resume(Ok(vec![
            Ok(DirEntry { name: Some(String::from("ep1.txt")), is_file: true }),
            Err(String::from("Input/output error (os error 5)")),
        ])),
        _ => panic!("a listing begins by asking for the entries"),
    };
    match end {
        Step::Done(Err(message)) => {
            assert_eq!(
                message,
                "failed to read entry in '/srv/app/scripts': Input/output error (os error 5)"
            );
            assert!(message.contains(dir));
        }
        _ => panic!("a listing with an unreadable entry fails"),
    }
}

#[test]
fn episode_list_names_the_script_directory_when_it_cannot_be_listed() {
    let dir = "/home/me/app/scripts";
    let end = match get_episode_list(Some("/home/me/app")) {
        Step::Probe(probe) => match probe.resume(true) {
            Step::List(list) => {
                assert_eq!(list.dir, dir);
                list.resume(Err(String::from("Permission denied (os error 13)")))
            }
            _ => panic!("a directory that exists is listed next"),
        },
        _ => panic!("the command begins by asking whether the directory exists"),
    };
    match end {
        Step::Done(Err(message)) => {
            assert_eq!(
                message,
                "failed to read dir '/home/me/app/scripts': Permission denied (os error 13)"
            );
        }
        _ => panic!("a directory that cannot be listed fails the command"),
    }
}

#[test]
fn script_round_trips_every_character() {
    let mut host = MemoryHost::new();
    let dir = host.tempdir();
    let content = "  Title\r\n\tline two — ünïcödé 話\n\n";
    host.write(&format!("{}/x.txt", dir), content.as_bytes());
    assert_eq!(host.text(load_episode_script_file(&dir, "x.txt")), Ok(String::from(content)));
}

#[test]
fn script_that_is_not_utf8_fails_with_the_episode() {
    let mut host = MemoryHost::new();
    let dir = host.tempdir();
    host.write(&format!("{}/raw.txt", dir), &[0xff, 0xfe, 0x00]);
    assert_eq!(
        host.text(load_episode_script_file(&dir, "raw.txt")),
        Err(String::from("failed to read script file 'raw.txt': stream did not contain valid UTF-8"))
    );
}

#[test]
fn missing_script_names_the_episode() {
    let mut host = MemoryHost::new();
    let dir = host.tempdir();
    let err = host.text(load_episode_script_file(&dir, "gone.txt")).unwrap_err();
    assert_eq!(err, "failed to read script file 'gone.txt': No such file or directory (os error 2)");
    assert!(err.contains("gone.txt"));
}

#[test]
fn missing_data_file_names_its_path() {
    let mut host = MemoryHost::new();
    let dir = host.tempdir();
    let err = host.text(load_episode_data_file(&dir, "gone.txt")).unwrap_err();
    assert_eq!(
        err,
        format!(
            "failed to read episode data file '{}/gone.json': No such file or directory (os error 2)",
            dir
        )
    );
    assert!(err.contains(&format!("{}/gone.json", dir)));
}

#[test]
fn data_file_is_looked_for_under_its_json_name() {
    let mut host = MemoryHost::new();
    let dir = host.tempdir();
    for episode_id in ["episode01.txt", "episode01", "episode01.custom"] {
        host.asked.clear();
        let _ = host.run(load_episode_data_file(&dir, episode_id));
        assert_eq!(host.asked, vec![format!("read {}/episode01.json", dir)]);
    }
}

#[test]
fn episode_list_and_script_of_one_episode() {
    let mut host = MemoryHost::new();
    host.create_dir_all("/home/me/app/scripts").unwrap();
    host.write("/home/me/app/scripts/ep1.txt", "Once upon a time.\n".as_bytes());
    assert_eq!(
        host.episodes(get_episode_list(Some("/home/me/app"))),
        Ok(vec![String::from("ep1.txt")])
    );
    assert_eq!(
        host.text(load_episode_script(Some("/home/me/app"), "ep1.txt")),
        Ok(String::from("Once upon a time.\n"))
    );
}

#[test]
fn episode_list_of_a_fresh_application_is_empty() {
    let mut host = MemoryHost::new();
    assert_eq!(host.episodes(get_episode_list(Some("/home/me/app"))), Ok(Vec::new()));
    assert!(host.dir_exists("/home/me/app/scripts"));
    assert_eq!(
        host.asked,
        vec![
            String::from("probe /home/me/app/scripts"),
            String::from("create /home/me/app/scripts"),
            String::from("list /home/me/app/scripts"),
        ]
    );
}

#[test]
fn episode_data_is_read_from_the_data_directory() {
    let mut host = MemoryHost::new();
    host.write("/home/me/app/data/ep1.json", br#"{"progress":3}"#);
    assert_eq!(
        host.text(load_episode_data(Some("/home/me/app"), "ep1.txt")),
        Ok(String::from(r#"{"progress":3}"#))
    );
    assert_eq!(
        host.asked,
        vec![
            String::from("probe /home/me/app/data"),
            String::from("create /home/me/app/data"),
            String::from("read /home/me/app/data/ep1.json"),
        ]
    );
}

#[test]
fn commands_fail_without_a_data_directory() {
    let mut host = MemoryHost::new();
    let message = String::from("Could not determine app data directory");
    assert_eq!(host.episodes(get_episode_list(None)), Err(message.clone()));
    assert_eq!(host.text(load_episode_script(None, "ep1.txt")), Err(message.clone()));
    assert_eq!(host.text(load_episode_data(None, "ep1.txt")), Err(message));
    assert!(host.asked.is_empty());
}

#[test]
fn commands_stop_where_the_directory_cannot_be_created() {
    let mut host = MemoryHost::new();
    host.read_only = true;
    assert_eq!(
        host.text(load_episode_script(Some("/srv/app"), "ep1.txt")),
        Err(String::from("failed to create dir '/srv/app/scripts': Permission denied (os error 13)"))
    );
    assert_eq!(
        host.asked,
        vec![String::from("probe /srv/app/scripts"), String::from("create /srv/app/scripts")]
    );
}
