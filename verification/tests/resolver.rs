use std::cell::Cell;
use std::rc::Rc;

use vault13::error::{Error, ErrorKind};
use vault13::fs::{settle, FileSystem, Metadata, Provider};

/// What a scripted provider answers to every lookup.
#[derive(Clone)]
enum Script {
    Found(&'static str, u64),
    Missing,
    Fails(ErrorKind, &'static str),
}

struct Scripted {
    script: Script,
    calls: Rc<Cell<usize>>,
}

impl Scripted {
    fn failure(&self, path: &str) -> Error {
        match &self.script {
            Script::Fails(kind, message) => Error::new(*kind, message.to_string()),
            _ => Error::new(ErrorKind::NotFound, format!("no {}", path)),
        }
    }
}

impl Provider for Scripted {
    type Reader = String;

    fn reader(&self, path: &str) -> Result<String, Error> {
        self.calls.set(self.calls.get() + 1);
        match &self.script {
            Script::Found(text, _) => Ok(format!("{}:{}", text, path)),
            _ => Err(self.failure(path)),
        }
    }

    fn metadata(&self, path: &str) -> Result<Metadata, Error> {
        self.calls.set(self.calls.get() + 1);
        match &self.script {
            Script::Found(_, len) => Ok(Metadata::new(*len)),
            _ => Err(self.failure(path)),
        }
    }
}

/// A provider of another type than `Scripted`: it has every path, with the
/// path's own bytes for its contents.
struct Echo;

impl Provider for Echo {
    type Reader = String;

    fn reader(&self, path: &str) -> Result<String, Error> {
        Ok(path.to_string())
    }

    fn metadata(&self, path: &str) -> Result<Metadata, Error> {
        Ok(Metadata::new(path.len() as u64))
    }
}

fn file_system(scripts: &[Script]) -> (FileSystem<Scripted>, Vec<Rc<Cell<usize>>>) {
    let mut fs = FileSystem::new();
    let mut calls = Vec::new();
    for script in scripts {
        let counter = Rc::new(Cell::new(0));
        fs.register_provider(Scripted { script: script.clone(), calls: counter.clone() });
        calls.push(counter);
    }
    (fs, calls)
}

fn counts(calls: &[Rc<Cell<usize>>]) -> Vec<usize> {
    calls.iter().map(|c| c.get()).collect()
}

#[test]
fn metadata_keeps_its_length() {
    assert_eq!(Metadata::new(0).len(), 0);
    assert_eq!(Metadata::new(4096).len(), 4096);
    assert_eq!(Metadata::new(u64::MAX).len(), u64::MAX);
    assert_eq!(Metadata::new(3), Metadata::new(3));
    assert_ne!(Metadata::new(3), Metadata::new(4));
}

#[test]
fn error_keeps_kind_and_message() {
    let e = Error::new(ErrorKind::InvalidData, "bad archive".to_string());
    assert_eq!(e.kind(), ErrorKind::InvalidData);
    assert_eq!(e.message(), "bad archive");
    assert!(!e.is_not_found());
    let e = Error::new(ErrorKind::NotFound, String::new());
    assert!(e.is_not_found());
    assert_eq!(e.message(), "");
}

#[test]
fn not_found_error_names_the_path_as_written() {
    let e = Error::not_found("Art/Intrface/./IFACE.frm");
    assert_eq!(e.kind(), ErrorKind::NotFound);
    assert_eq!(e.message(), "file not found: Art/Intrface/./IFACE.frm");
    assert!(e.is_not_found());
}

#[test]
fn every_kind_but_not_found_is_a_hard_failure() {
    let hard = [
        ErrorKind::PermissionDenied,
        ErrorKind::InvalidInput,
        ErrorKind::InvalidData,
        ErrorKind::UnexpectedEof,
        ErrorKind::Other,
    ];
    for kind in hard {
        let settled = settle::<u8>(Err(Error::new(kind, "broken".to_string())));
        let e = settled.expect("a hard failure ends the search").unwrap_err();
        assert_eq!(e.kind(), kind);
        assert_eq!(e.message(), "broken");
    }
    assert!(settle::<u8>(Err(Error::new(ErrorKind::NotFound, "gone".to_string()))).is_none());
}

#[test]
fn a_success_settles_the_search() {
    let settled = settle::<u8>(Ok(0));
    assert_eq!(settled.unwrap().unwrap(), 0);
    let settled = settle::<&str>(Ok("stream"));
    assert_eq!(settled.unwrap().unwrap(), "stream");
}

#[test]
fn first_success_wins_and_stops_the_search() {
    let (fs, calls) = file_system(&[
        Script::Missing,
        Script::Found("second", 7),
        Script::Found("third", 9),
    ]);
    assert_eq!(fs.reader("Color.PAL").unwrap(), "second:Color.PAL");
    assert_eq!(counts(&calls), vec![1, 1, 0]);
    assert_eq!(fs.metadata("Color.PAL").unwrap().len(), 7);
    assert_eq!(counts(&calls), vec![2, 2, 0]);
    assert!(fs.contains("Color.PAL"));
    assert_eq!(counts(&calls), vec![3, 3, 0]);
}

#[test]
fn first_provider_has_precedence() {
    let (fs, calls) = file_system(&[Script::Found("first", 0), Script::Found("second", 100)]);
    assert_eq!(fs.reader("a").unwrap(), "first:a");
    assert_eq!(fs.metadata("a").unwrap().len(), 0);
    assert_eq!(counts(&calls), vec![2, 0]);
}

#[test]
fn all_missing_gives_not_found_with_the_path() {
    let (fs, calls) = file_system(&[Script::Missing, Script::Missing, Script::Missing]);
    let e = fs.reader("Sound/SFX/Test.wav").unwrap_err();
    assert_eq!(e.kind(), ErrorKind::NotFound);
    assert_eq!(e.message(), "file not found: Sound/SFX/Test.wav");
    assert!(e.message().contains("Sound/SFX/Test.wav"));
    assert_eq!(counts(&calls), vec![1, 1, 1]);
    let e = fs.metadata("Sound/SFX/Test.wav").unwrap_err();
    assert_eq!(e.kind(), ErrorKind::NotFound);
    assert_eq!(e.message(), "file not found: Sound/SFX/Test.wav");
    assert_eq!(counts(&calls), vec![2, 2, 2]);
    assert!(!fs.contains("Sound/SFX/Test.wav"));
    assert_eq!(counts(&calls), vec![3, 3, 3]);
}

#[test]
fn hard_failure_aborts_the_search() {
    let (fs, calls) = file_system(&[
        Script::Missing,
        Script::Fails(ErrorKind::PermissionDenied, "master.dat: access denied"),
        Script::Found("third", 9),
    ]);
    let e = fs.reader("color.pal").unwrap_err();
    assert_eq!(e.kind(), ErrorKind::PermissionDenied);
    assert_eq!(e.message(), "master.dat: access denied");
    assert_eq!(counts(&calls), vec![1, 1, 0]);
    let e = fs.metadata("color.pal").unwrap_err();
    assert_eq!(e.kind(), ErrorKind::PermissionDenied);
    assert_eq!(e.message(), "master.dat: access denied");
    assert_eq!(counts(&calls), vec![2, 2, 0]);
    assert!(!fs.contains("color.pal"));
    assert_eq!(counts(&calls), vec![3, 3, 0]);
}

#[test]
fn first_hard_failure_is_the_one_returned() {
    let (fs, calls) = file_system(&[
        Script::Fails(ErrorKind::InvalidData, "critter.dat: corrupt"),
        Script::Fails(ErrorKind::Other, "disk error"),
    ]);
    let e = fs.reader("x").unwrap_err();
    assert_eq!(e.kind(), ErrorKind::InvalidData);
    assert_eq!(e.message(), "critter.dat: corrupt");
    assert_eq!(counts(&calls), vec![1, 0]);
}

#[test]
fn hard_failure_after_a_success_is_never_seen() {
    let (fs, calls) = file_system(&[
        Script::Found("first", 1),
        Script::Fails(ErrorKind::UnexpectedEof, "short read"),
    ]);
    assert_eq!(fs.reader("x").unwrap(), "first:x");
    assert_eq!(counts(&calls), vec![1, 0]);
}

#[test]
fn empty_file_system_finds_nothing() {
    let (fs, _) = file_system(&[]);
    for path in ["anything", "", "a/./b", "Color.PAL"] {
        assert!(!fs.contains(path));
        let e = fs.reader(path).unwrap_err();
        assert_eq!(e.kind(), ErrorKind::NotFound);
        assert_eq!(e.message(), format!("file not found: {}", path));
        let e = fs.metadata(path).unwrap_err();
        assert_eq!(e.kind(), ErrorKind::NotFound);
        assert_eq!(e.message(), format!("file not found: {}", path));
    }
}

#[test]
fn registration_order_is_precedence() {
    let mut fs: FileSystem<Scripted> = FileSystem::new();
    let first = Rc::new(Cell::new(0));
    let second = Rc::new(Cell::new(0));
    fs.register_provider(Scripted { script: Script::Missing, calls: first.clone() });
    assert!(!fs.contains("patch000.dat"));
    fs.register_provider(Scripted { script: Script::Found("late", 12), calls: second.clone() });
    assert!(fs.contains("patch000.dat"));
    assert_eq!(fs.metadata("patch000.dat").unwrap().len(), 12);
    assert_eq!(first.get(), 3);
    assert_eq!(second.get(), 2);
}

#[test]
fn the_path_reaches_the_provider_as_written() {
    let (fs, _) = file_system(&[Script::Found("raw", 1)]);
    assert_eq!(fs.reader("./Art\\X.FRM").unwrap(), "raw:./Art\\X.FRM");
}

#[test]
fn boxed_providers_of_different_types_share_a_file_system() {
    let calls = Rc::new(Cell::new(0));
    let mut fs: FileSystem<Box<dyn Provider<Reader = String>>> = FileSystem::new();
    fs.register_provider(Box::new(Scripted { script: Script::Missing, calls: calls.clone() }));
    fs.register_provider(Box::new(Echo));
    fs.register_provider(Box::new(Scripted {
        script: Script::Fails(ErrorKind::Other, "never asked"),
        calls: calls.clone(),
    }));
    assert_eq!(fs.reader("master.dat").unwrap(), "master.dat");
    assert_eq!(fs.metadata("master.dat").unwrap().len(), 10);
    assert!(fs.contains(""));
    assert_eq!(calls.get(), 3);
}

#[test]
fn a_box_answers_as_what_it_holds() {
    let calls = Rc::new(Cell::new(0));
    let boxed = Box::new(Scripted { script: Script::Found("inner", 5), calls: calls.clone() });
    assert_eq!(boxed.reader("p").unwrap(), "inner:p");
    assert_eq!(Provider::metadata(&boxed, "p").unwrap().len(), 5);
    let missing = Box::new(Scripted { script: Script::Missing, calls: calls.clone() });
    let e = Provider::reader(&missing, "p").unwrap_err();
    assert_eq!(e.kind(), ErrorKind::NotFound);
    assert_eq!(e.message(), "no p");
    assert_eq!(calls.get(), 3);
}
