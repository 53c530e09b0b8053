use std::cell::RefCell;
use std::collections::BTreeMap;
use unpinbot::chat::ChatId;
use unpinbot::state::{
    AppState, EnabledChats, ReadError, SaveOp, SaveRun, SaveStep, StateFile, StatePaths,
    TMP_EXTENSION,
};

const PATH: &str = "data/state.json";

/// A disk in memory.
#[derive(Default)]
struct Disk {
    files: RefCell<BTreeMap<String, Vec<u8>>>,
    dirs: RefCell<Vec<String>>,
    ops: RefCell<Vec<String>>,
    /// Operations whose name is here fail.
    broken: Vec<&'static str>,
}

impl Disk {
    fn with(path: &str, json: &str) -> Disk {
        let disk = Disk::default();
        disk.files.borrow_mut().insert(path.to_owned(), json.as_bytes().to_vec());
        disk
    }

    fn perform(&self, run: &SaveRun, op: &SaveOp, bytes: &mut Vec<u8>) -> Result<(), String> {
        let mut files = self.files.borrow_mut();
        let name = match op {
            SaveOp::CreateDirAll(_) => "create",
            SaveOp::Encode => "encode",
            SaveOp::RemoveFile(_) => "remove",
            SaveOp::WriteNew(_) => "write",
            SaveOp::Rename(_, _) => "rename",
        };
        self.ops.borrow_mut().push(name.to_owned());
        if self.broken.contains(&name) {
            return Err(format!("{name} is broken"));
        }
        match op {
            SaveOp::CreateDirAll(dir) => self.dirs.borrow_mut().push(dir.clone()),
            SaveOp::Encode => {
                let mut map = BTreeMap::new();
                map.insert("enabled_chats", &run.file.enabled_chats);
                *bytes = serde_json::to_vec_pretty(&map).map_err(|e| e.to_string())?;
            }
            SaveOp::RemoveFile(path) => {
                files.remove(path).ok_or("no such file")?;
            }
            SaveOp::WriteNew(path) => {
                if files.contains_key(path) {
                    return Err("file exists".to_owned());
                }
                files.insert(path.clone(), bytes.clone());
            }
            SaveOp::Rename(from, to) => {
                let bytes = files.remove(from).ok_or("no such file")?;
                files.insert(to.clone(), bytes);
            }
        }
        Ok(())
    }

    fn save(&self, run: SaveRun) -> Result<(), String> {
        let mut bytes = Vec::new();
        let mut op = run.first();
        loop {
            let outcome = self.perform(&run, &op, &mut bytes);
            match run.next(op, outcome) {
                SaveStep::Do(next) => op = next,
                SaveStep::Finished(r) => return r,
            }
        }
    }

    fn load(&self, path: &str) -> Result<EnabledChats, String> {
        let read = match self.files.borrow().get(path) {
            Some(bytes) => Ok(bytes.clone()),
            None => Err(ReadError::NotFound),
        };
        EnabledChats::load(path, read, parse)
    }
}

fn parse(bytes: &Vec<u8>) -> Result<StateFile, String> {
    let mut map: BTreeMap<String, Vec<i64>> =
        serde_json::from_slice(bytes).map_err(|e| e.to_string())?;
    Ok(StateFile {
        enabled_chats: map.remove("enabled_chats").unwrap_or_default(),
    })
}

#[test]
fn missing_file_loads_empty() {
    let state = Disk::default().load(PATH).unwrap();
    assert!(!state.contains(ChatId(1)));
    assert_eq!(state.len(), 0);
}

#[test]
fn corrupt_file_is_error() {
    let disk = Disk::with(PATH, "{");
    let err = disk.load(PATH).err().unwrap();
    assert!(err.starts_with("cannot parse data/state.json: EOF"), "{err}");
}

#[test]
fn empty_object_loads_empty() {
    let disk = Disk::with(PATH, "{}");
    assert_eq!(disk.load(PATH).unwrap().len(), 0);
}

#[test]
fn unreadable_file_is_error() {
    let read = Err(ReadError::Other("permission denied".to_owned()));
    assert_eq!(
        EnabledChats::load(PATH, read, parse).err().unwrap(),
        "cannot read data/state.json: permission denied"
    );
}

#[test]
fn save_load_roundtrip() {
    let disk = Disk::default();
    let mut state = disk.load(PATH).unwrap();
    assert!(state.insert(ChatId(-100123)));
    assert!(state.insert(ChatId(42)));
    disk.save(state.save()).unwrap();

    let reloaded = disk.load(PATH).unwrap();
    assert!(reloaded.contains(ChatId(-100123)));
    assert!(reloaded.contains(ChatId(42)));
    assert!(!reloaded.contains(ChatId(7)));
    assert_eq!(reloaded.len(), 2);
}

#[test]
fn repeated_ids_count_once() {
    let disk = Disk::with(PATH, r#"{"enabled_chats":[5,6,5]}"#);
    let state = disk.load(PATH).unwrap();
    assert_eq!(state.len(), 2);
    let mut ids = state.save().file.enabled_chats;
    ids.sort();
    assert_eq!(ids, [5, 6]);
}

#[test]
fn insert_remove_replace_semantics() {
    let mut state = Disk::default().load(PATH).unwrap();

    assert!(state.insert(ChatId(1)));
    assert!(!state.insert(ChatId(1))); // second insert reports no change

    assert!(state.replace(ChatId(1), ChatId(2)));
    assert!(!state.contains(ChatId(1)));
    assert!(state.contains(ChatId(2)));
    assert!(!state.replace(ChatId(1), ChatId(3))); // old id absent

    assert!(state.remove(ChatId(2)));
    assert!(!state.remove(ChatId(2)));
}

#[test]
fn save_creates_missing_parent_dirs() {
    let disk = Disk::default();
    let path = "a/b/state.json";
    let mut state = disk.load(path).unwrap();
    state.insert(ChatId(5));
    disk.save(state.save()).unwrap();
    assert_eq!(*disk.dirs.borrow(), ["a/b"]);
    assert!(disk.load(path).unwrap().contains(ChatId(5)));
}

/// A file where a directory is needed: it loads as empty and cannot be saved.
fn unwritable() -> (Disk, EnabledChats) {
    let disk = Disk { broken: vec!["create"], ..Disk::default() };
    let read = Err(ReadError::NotADirectory);
    let chats = EnabledChats::load("blocker/deep/state.json", read, parse)
        .expect("ENOTDIR loads as empty");
    (disk, chats)
}

#[test]
fn appstate_rolls_back_failed_save() {
    let (disk, chats) = unwritable();
    let mut app = AppState::new(chats);
    assert!(app.insert_and_save(ChatId(9), |run| disk.save(run)).is_err());
    // Rollback: in-memory set must not contain the chat.
    assert!(!app.contains(ChatId(9)));
}

#[test]
fn failed_removal_is_rolled_back() {
    let (disk, mut chats) = unwritable();
    chats.insert(ChatId(3));
    let mut app = AppState::new(chats);
    assert_eq!(
        app.remove_and_save(ChatId(3), |run| disk.save(run)),
        Err("cannot create blocker/deep: create is broken".to_owned())
    );
    assert!(app.contains(ChatId(3)));
    assert_eq!(app.remove_and_save(ChatId(4), |run| disk.save(run)), Ok(false));
}

#[test]
fn changes_reach_the_disk() {
    let disk = Disk::default();
    let mut app = AppState::new(disk.load(PATH).unwrap());
    assert_eq!(app.insert_and_save(ChatId(1), |run| disk.save(run)), Ok(true));
    assert_eq!(app.insert_and_save(ChatId(1), |run| disk.save(run)), Ok(false));
    assert!(disk.load(PATH).unwrap().contains(ChatId(1)));
    assert_eq!(app.replace_and_save(ChatId(1), ChatId(2), |run| disk.save(run)), Ok(true));
    assert!(disk.load(PATH).unwrap().contains(ChatId(2)));
    assert_eq!(app.replace_and_save(ChatId(1), ChatId(2), |run| disk.save(run)), Ok(false));
    assert_eq!(app.remove_and_save(ChatId(2), |run| disk.save(run)), Ok(true));
    assert_eq!(disk.load(PATH).unwrap().len(), 0);
}

#[test]
fn replace_reports_a_change_when_only_the_old_id_leaves() {
    // {old, new} both enabled: the old id leaving IS the change, and it must
    // reach the disk.
    let disk = Disk::with(PATH, r#"{"enabled_chats":[1,2]}"#);
    let mut state = disk.load(PATH).unwrap();
    assert!(state.replace(ChatId(1), ChatId(2)));
    assert!(!state.contains(ChatId(1)));
    assert!(state.contains(ChatId(2)));
    disk.save(state.save()).unwrap();
    let reloaded = disk.load(PATH).unwrap();
    assert!(!reloaded.contains(ChatId(1)));
    assert!(reloaded.contains(ChatId(2)));
}

#[test]
fn replace_and_save_keeps_the_new_id_when_save_fails() {
    let (disk, mut chats) = unwritable();
    assert!(chats.insert(ChatId(1)));
    let mut app = AppState::new(chats);
    assert!(app.replace_and_save(ChatId(1), ChatId(2), |run| disk.save(run)).is_err());
    assert!(!app.contains(ChatId(1)), "the dead id must not return");
    assert!(
        app.contains(ChatId(2)),
        "the live id survives a failed save"
    );
}

#[test]
fn an_unwritable_path_shows_at_startup() {
    let (disk, chats) = unwritable();
    let app = AppState::new(chats);
    assert_eq!(
        app.verify_writable(|run| disk.save(run)).unwrap_err(),
        "cannot create blocker/deep: create is broken"
    );
    let disk = Disk::default();
    let app = AppState::new(disk.load(PATH).unwrap());
    app.verify_writable(|run| disk.save(run)).unwrap();
    assert!(disk.files.borrow().contains_key(PATH));
}

#[test]
fn a_save_goes_step_by_step() {
    let disk = Disk::default();
    disk.save(disk.load(PATH).unwrap().save()).unwrap();
    // There was no stale file to remove; that does not matter.
    assert_eq!(
        *disk.ops.borrow(),
        ["create", "encode", "remove", "write", "rename"]
    );
    assert_eq!(
        disk.files.borrow()[PATH],
        b"{\n  \"enabled_chats\": []\n}".to_vec()
    );

    // The root has no directory above it to be made.
    let read = Err(ReadError::NotFound);
    let run = EnabledChats::load("/", read, parse).unwrap().save();
    assert!(matches!(run.first(), SaveOp::Encode));
}

#[test]
fn a_failed_save_leaves_the_file_alone() {
    for (broken, message) in [
        ("create", "cannot create data: create is broken"),
        ("encode", "cannot serialize state: encode is broken"),
        ("write", "cannot write data/state.json.tmp: write is broken"),
        ("rename", "cannot rename into data/state.json: rename is broken"),
    ] {
        let before = r#"{"enabled_chats":[1]}"#;
        let mut disk = Disk::with(PATH, before);
        disk.broken = vec![broken];
        let mut state = disk.load(PATH).unwrap();
        state.insert(ChatId(2));
        assert_eq!(disk.save(state.save()), Err(message.to_owned()));
        assert_eq!(disk.files.borrow()[PATH], before.as_bytes().to_vec());
    }
    // A stale file of an interrupted save is cleared first.
    let disk = Disk::with("data/state.json.tmp", "half a fi");
    disk.save(disk.load(PATH).unwrap().save()).unwrap();
    assert_eq!(disk.files.borrow().len(), 1);
    assert_eq!(TMP_EXTENSION, "json.tmp");
}

fn places(path: &str) -> (Option<String>, String) {
    let paths = StatePaths::at(path);
    assert_eq!(paths.target, path);
    (paths.parent, paths.tmp)
}

#[test]
fn new_versions_go_to_a_sibling() {
    for (path, parent, tmp) in [
        ("pers_data/state.json", "pers_data", "pers_data/state.json.tmp"),
        ("state", "", "state.json.tmp"),
        ("/state.json", "/", "/state.json.tmp"),
        ("a.b/c", "a.b", "a.b/c.json.tmp"),
        ("a/.hidden", "a", "a/.hidden.json.tmp"),
        ("a/s.tar.gz", "a", "a/s.tar.json.tmp"),
        ("a/s.json.tmp", "a", "a/s.json.json.tmp"),
        ("a/b.", "a", "a/b.json.tmp"),
        ("/\u{e9}t\u{e9}/\u{4e2d}.x", "/\u{e9}t\u{e9}", "/\u{e9}t\u{e9}/\u{4e2d}.json.tmp"),
    ] {
        assert_eq!(places(path), (Some(parent.to_owned()), tmp.to_owned()));
    }
    for (path, parent, tmp) in [
        ("./state.json", ".", "./state.json.tmp"),
        ("../data/state.json", "../data", "../data/state.json.tmp"),
        ("../state", "..", "../state.json.tmp"),
        ("a/../b.x", "a/..", "a/../b.json.tmp"),
        ("data//state.json", "data", "data//state.json.tmp"),
        ("data/./state.json", "data", "data/./state.json.tmp"),
        ("/./state", "/", "/./state.json.tmp"),
        ("C:/bot/state.json", "C:/bot", "C:/bot/state.json.tmp"),
        ("a\\b/c.d", "a\\b", "a\\b/c.json.tmp"),
    ] {
        assert_eq!(places(path), (Some(parent.to_owned()), tmp.to_owned()));
    }
    // Here the directory depends on the platform, the sibling does not.
    for (path, tmp) in [
        ("C:\\bot\\state.json", "C:\\bot\\state.json.tmp"),
        ("C:\\bot\\state", "C:\\bot\\state.json.tmp"),
        ("C:state.json", "C:state.json.tmp"),
        ("..\\data\\state.json", "..\\data\\state.json.tmp"),
    ] {
        let (parent, changed) = places(path);
        assert!(path.starts_with(&parent.expect("there is a file name")));
        assert_eq!(changed, tmp);
    }
    // Nor is the sibling ever the file itself.
    for path in ["C:\\bot\\.state", "a\\.json.tmp", "..\\b", "x.json.tmp"] {
        assert_ne!(places(path).1, path);
    }
    // A path without a file name stays as it is.
    assert_eq!(places(".."), (Some(String::new()), "..".to_owned()));
    assert_eq!(places("/"), (None, "/".to_owned()));
    assert_eq!(places(""), (None, String::new()));
}

#[test]
fn changes_show_in_the_length() {
    let mut state = Disk::default().load(PATH).unwrap();
    assert!(state.insert(ChatId(1)) && state.insert(ChatId(2)));
    assert_eq!(state.len(), 2);
    assert!(!state.insert(ChatId(2)));
    assert_eq!(state.len(), 2);
    assert!(state.remove(ChatId(1)));
    assert!(!state.remove(ChatId(1)));
    assert_eq!(state.len(), 1);
}

#[test]
fn nothing_is_saved_without_a_change() {
    let disk = Disk::with(PATH, r#"{"enabled_chats":[1]}"#);
    let mut app = AppState::new(disk.load(PATH).unwrap());
    let untouched = |_: SaveRun| -> Result<(), String> { panic!("nothing is to be saved") };
    assert_eq!(app.insert_and_save(ChatId(1), untouched), Ok(false));
    assert_eq!(app.remove_and_save(ChatId(2), untouched), Ok(false));
    assert_eq!(app.replace_and_save(ChatId(2), ChatId(3), untouched), Ok(false));
    assert!(app.contains(ChatId(1)));
}

#[test]
fn the_next_save_persists_a_move() {
    let disk = Disk::with(PATH, r#"{"enabled_chats":[1]}"#);
    let mut app = AppState::new(disk.load(PATH).unwrap());
    let fails = |_: SaveRun| Err::<(), String>("disk full".to_owned());
    assert!(app.replace_and_save(ChatId(1), ChatId(2), fails).is_err());
    assert!(disk.load(PATH).unwrap().contains(ChatId(1)));
    assert_eq!(app.insert_and_save(ChatId(3), |run| disk.save(run)), Ok(true));
    let reloaded = disk.load(PATH).unwrap();
    assert!(reloaded.contains(ChatId(2)) && reloaded.contains(ChatId(3)));
    assert!(!reloaded.contains(ChatId(1)));
}

#[test]
fn a_rewrite_persists_a_move() {
    let disk = Disk::with(PATH, r#"{"enabled_chats":[1,4]}"#);
    let mut app = AppState::new(disk.load(PATH).unwrap());
    let fails = |_: SaveRun| Err::<(), String>("disk full".to_owned());
    assert!(app.replace_and_save(ChatId(1), ChatId(2), fails).is_err());
    assert_eq!(app.verify_writable(|run| disk.save(run)), Ok(()));
    assert!(app.contains(ChatId(2)) && app.contains(ChatId(4)) && !app.contains(ChatId(1)));
    let reloaded = disk.load(PATH).unwrap();
    assert!(reloaded.contains(ChatId(2)) && reloaded.contains(ChatId(4)));
    assert_eq!(reloaded.len(), 2);
}
