use std::collections::BTreeMap;
use std::path::Path;

use file_commands::commands;
use file_commands::step::{Reply, Step};

const DATA: &str = "/home/user/.local/share/app";

#[derive(Debug, Clone, PartialEq)]
enum Node {
    File(String),
    Dir,
}

/// A host that keeps its files in memory. Only the root directory is there
/// at the start.
struct Host {
    nodes: BTreeMap<String, Node>,
    data_dir: Option<String>,
    asked: Vec<String>,
}

impl Host {
    fn new() -> Host {
        let mut nodes = BTreeMap::new();
        nodes.insert("/".to_string(), Node::Dir);
        Host { nodes, data_dir: Some(DATA.to_string()), asked: Vec::new() }
    }

    fn is_dir(&self, path: &str) -> bool {
        self.nodes.get(path) == Some(&Node::Dir)
    }

    fn holder_stands(&self, path: &str) -> bool {
        match Path::new(path).parent() {
            Some(dir) => {
                let dir = dir.to_string_lossy().to_string();
                dir.is_empty() || self.is_dir(&dir)
            }
            None => false,
        }
    }

    fn create_dir_all(&mut self, path: &str) -> Result<(), String> {
        let chain: Vec<String> = Path::new(path)
            .ancestors()
            .map(|p| p.to_string_lossy().to_string())
            .filter(|p| !p.is_empty())
            .collect();
        if chain.iter().any(|p| matches!(self.nodes.get(p), Some(Node::File(_)))) {
            return Err("Not a directory".to_string());
        }
        for dir in chain {
            self.nodes.entry(dir).or_insert(Node::Dir);
        }
        Ok(())
    }

    fn write(&mut self, path: &str, content: String) -> Result<(), String> {
        if self.is_dir(path) {
            return Err("Is a directory".to_string());
        }
        if path.is_empty() || !self.holder_stands(path) {
            return Err("No such file or directory".to_string());
        }
        self.nodes.insert(path.to_string(), Node::File(content));
        Ok(())
    }

    fn read_to_string(&self, path: &str) -> Result<String, String> {
        match self.nodes.get(path) {
            Some(Node::File(text)) => Ok(text.clone()),
            Some(Node::Dir) => Err("Is a directory".to_string()),
            None => Err("No such file or directory".to_string()),
        }
    }

    fn remove_file(&mut self, path: &str) -> Result<(), String> {
        match self.nodes.get(path) {
            Some(Node::File(_)) => {
                self.nodes.remove(path);
                Ok(())
            }
            Some(Node::Dir) => Err("Is a directory".to_string()),
            None => Err("No such file or directory".to_string()),
        }
    }

    fn read_dir(&self, path: &str) -> Result<Vec<Result<String, String>>, String> {
        if !self.is_dir(path) {
            return Err("Not a directory".to_string());
        }
        let mut entries = Vec::new();
        for key in self.nodes.keys() {
            let at = Path::new(key);
            if at.parent() == Some(Path::new(path)) {
                if let Some(name) = at.file_name() {
                    entries.push(Ok(name.to_string_lossy().to_string()));
                }
            }
        }
        Ok(entries)
    }

    /// Performs each request of a command and hands the answer back, until
    /// the command replies.
    fn carry_out(&mut self, first: Step) -> Reply {
        let mut step = first;
        loop {
            step = match step {
                Step::Finish(reply) => return reply,
                Step::ResolveDataDir { next } => {
                    self.asked.push("resolve".to_string());
                    next.resume(self.data_dir.clone().ok_or("unknown path".to_string()))
                }
                Step::ReadToString { path, next } => {
                    self.asked.push(format!("read {}", path));
                    next.resume(self.read_to_string(&path))
                }
                Step::CreateDirAll { path, next } => {
                    self.asked.push(format!("mkdir {}", path));
                    next.resume(self.create_dir_all(&path))
                }
                Step::Write { path, content, next } => {
                    self.asked.push(format!("write {}", path));
                    next.resume(self.write(&path, content))
                }
                Step::RemoveFile { path, next } => {
                    self.asked.push(format!("remove {}", path));
                    next.resume(self.remove_file(&path))
                }
                Step::Exists { path, next } => {
                    self.asked.push(format!("exists {}", path));
                    next.resume(self.nodes.contains_key(&path))
                }
                Step::ReadDir { path, next } => {
                    self.asked.push(format!("list {}", path));
                    next.resume(self.read_dir(&path))
                }
            };
        }
    }
}

fn at(rest: &str) -> String {
    format!("{}{}", DATA, rest)
}

fn text(s: &str) -> String {
    s.to_string()
}

#[test]
fn write_read_exists_under_missing_directories() {
    let mut host = Host::new();
    let path = at("/a/b/c.txt");
    assert!(!host.nodes.contains_key(&at("/a")));
    assert_eq!(host.carry_out(commands::write_file(path.clone(), text("hello"))), Reply::Unit);
    assert_eq!(host.carry_out(commands::read_file(path.clone())), Reply::Text(text("hello")));
    assert_eq!(host.carry_out(commands::file_exists(path)), Reply::Flag(true));
    assert!(host.is_dir(&at("/a/b")));
    assert!(host.is_dir(&at("/a")));
}

#[test]
fn ensure_then_list_then_write_then_list() {
    let mut host = Host::new();
    assert_eq!(host.carry_out(commands::ensure_dir(at("/x"))), Reply::Unit);
    assert_eq!(host.carry_out(commands::list_dir(at("/x"))), Reply::Names(vec![]));
    assert_eq!(host.carry_out(commands::write_file(at("/x/f"), text("1"))), Reply::Unit);
    assert_eq!(host.carry_out(commands::list_dir(at("/x"))), Reply::Names(vec![text("f")]));
}

#[test]
fn delete_of_missing_path_is_ok() {
    let mut host = Host::new();
    let path = at("/does/not/exist");
    assert_eq!(host.carry_out(commands::delete_file(path.clone())), Reply::Unit);
    assert_eq!(host.asked, vec![format!("exists {}", path)]);
}

#[test]
fn read_of_missing_file_is_an_error() {
    let mut host = Host::new();
    assert_eq!(
        host.carry_out(commands::read_file(at("/missing"))),
        Reply::Error(text("No such file or directory"))
    );
}

#[test]
fn data_dir_exists_once_ensured() {
    let mut host = Host::new();
    let data = match host.carry_out(commands::get_data_dir()) {
        Reply::Text(dir) => dir,
        other => panic!("no data directory: {:?}", other),
    };
    assert_eq!(data, DATA);
    assert_eq!(host.carry_out(commands::file_exists(data.clone())), Reply::Flag(false));
    assert_eq!(host.carry_out(commands::ensure_dir(data.clone())), Reply::Unit);
    assert_eq!(host.carry_out(commands::file_exists(data)), Reply::Flag(true));
}

#[test]
fn second_write_replaces_first() {
    let mut host = Host::new();
    let path = at("/p");
    assert_eq!(host.carry_out(commands::write_file(path.clone(), text("A"))), Reply::Unit);
    assert_eq!(host.carry_out(commands::write_file(path.clone(), text("B"))), Reply::Unit);
    assert_eq!(host.carry_out(commands::read_file(path)), Reply::Text(text("B")));
}

#[test]
fn write_then_read_round_trip() {
    let mut host = Host::new();
    for (path, content) in [("/r/one", ""), ("/r/two", "line\nline\n"), ("/r/deep/er/three", "\u{e9}t\u{e9}")] {
        assert_eq!(host.carry_out(commands::write_file(at(path), text(content))), Reply::Unit);
        assert_eq!(host.carry_out(commands::read_file(at(path))), Reply::Text(text(content)));
    }
}

#[test]
fn same_write_twice_changes_nothing() {
    let mut host = Host::new();
    let path = at("/same/file");
    assert_eq!(host.carry_out(commands::write_file(path.clone(), text("c"))), Reply::Unit);
    let once = host.nodes.clone();
    assert_eq!(host.carry_out(commands::write_file(path.clone(), text("c"))), Reply::Unit);
    assert_eq!(host.nodes, once);
    assert_eq!(host.nodes.get(&path), Some(&Node::File(text("c"))));
}

#[test]
fn ensure_dir_twice_changes_nothing() {
    let mut host = Host::new();
    let dir = at("/made/twice");
    assert_eq!(host.carry_out(commands::ensure_dir(dir.clone())), Reply::Unit);
    let once = host.nodes.clone();
    assert_eq!(host.carry_out(commands::ensure_dir(dir.clone())), Reply::Unit);
    assert_eq!(host.nodes, once);
    assert!(host.is_dir(&dir));
}

#[test]
fn ensure_dir_over_a_file_fails() {
    let mut host = Host::new();
    assert_eq!(host.carry_out(commands::write_file(at("/plain"), text("x"))), Reply::Unit);
    assert_eq!(
        host.carry_out(commands::ensure_dir(at("/plain"))),
        Reply::Error(text("Not a directory"))
    );
    assert_eq!(
        host.carry_out(commands::ensure_dir(at("/plain/below"))),
        Reply::Error(text("Not a directory"))
    );
}

#[test]
fn written_file_is_gone_after_delete() {
    let mut host = Host::new();
    let path = at("/gone/soon");
    assert_eq!(host.carry_out(commands::write_file(path.clone(), text("x"))), Reply::Unit);
    assert_eq!(host.carry_out(commands::delete_file(path.clone())), Reply::Unit);
    assert_eq!(host.carry_out(commands::file_exists(path.clone())), Reply::Flag(false));
    assert_eq!(host.carry_out(commands::delete_file(path)), Reply::Unit);
}

#[test]
fn delete_of_a_directory_fails() {
    let mut host = Host::new();
    let dir = at("/kept");
    assert_eq!(host.carry_out(commands::ensure_dir(dir.clone())), Reply::Unit);
    host.asked.clear();
    assert_eq!(
        host.carry_out(commands::delete_file(dir.clone())),
        Reply::Error(text("Is a directory"))
    );
    assert_eq!(host.asked, vec![format!("exists {}", dir), format!("remove {}", dir)]);
    assert!(host.is_dir(&dir));
}

#[test]
fn list_of_missing_directory_is_empty() {
    let mut host = Host::new();
    let dir = at("/nowhere");
    assert_eq!(host.carry_out(commands::list_dir(dir.clone())), Reply::Names(vec![]));
    assert_eq!(host.asked, vec![format!("exists {}", dir)]);
}

#[test]
fn list_of_a_file_is_an_error() {
    let mut host = Host::new();
    let path = at("/file");
    assert_eq!(host.carry_out(commands::write_file(path.clone(), text("x"))), Reply::Unit);
    assert_eq!(host.carry_out(commands::list_dir(path)), Reply::Error(text("Not a directory")));
}

#[test]
fn list_names_files_and_directories_alike() {
    let mut host = Host::new();
    assert_eq!(host.carry_out(commands::write_file(at("/l/file"), text("x"))), Reply::Unit);
    assert_eq!(host.carry_out(commands::ensure_dir(at("/l/dir/below"))), Reply::Unit);
    let mut found = match host.carry_out(commands::list_dir(at("/l"))) {
        Reply::Names(found) => found,
        other => panic!("no listing: {:?}", other),
    };
    found.sort();
    assert_eq!(found, vec![text("dir"), text("file")]);
}

#[test]
fn write_makes_directories_before_the_file() {
    let mut host = Host::new();
    assert_eq!(host.carry_out(commands::write_file(at("/m/n/o"), text("x"))), Reply::Unit);
    assert_eq!(host.asked, vec![format!("mkdir {}", at("/m/n")), format!("write {}", at("/m/n/o"))]);
}

#[test]
fn write_stops_where_directories_cannot_be_made() {
    let mut host = Host::new();
    assert_eq!(host.carry_out(commands::write_file(at("/f"), text("x"))), Reply::Unit);
    host.asked.clear();
    assert_eq!(
        host.carry_out(commands::write_file(at("/f/g/h"), text("y"))),
        Reply::Error(text("Not a directory"))
    );
    assert_eq!(host.asked, vec![format!("mkdir {}", at("/f/g"))]);
    assert!(!host.nodes.contains_key(&at("/f/g/h")));
}

#[test]
fn write_over_a_directory_fails() {
    let mut host = Host::new();
    assert_eq!(host.carry_out(commands::ensure_dir(at("/d"))), Reply::Unit);
    assert_eq!(
        host.carry_out(commands::write_file(at("/d"), text("x"))),
        Reply::Error(text("Is a directory"))
    );
}

#[test]
fn data_dir_failure_is_passed_on() {
    let mut host = Host::new();
    host.data_dir = None;
    assert_eq!(host.carry_out(commands::get_data_dir()), Reply::Error(text("unknown path")));
}
