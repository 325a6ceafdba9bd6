use idgit::{
    Change, Details, DiffDelta, DiffEvent, DiffFile, DiffLineType, DiffOptions, Error, ErrorCode,
    File, Git2Error, Internal, Line, Meta, Oid, Repo, Status, Step,
};
use std::collections::{BTreeMap, BTreeSet};

/// A stand-in for a repository on disk: a working tree, an index and the tree
/// of the last commit, with the ignore rules read from `.gitignore`.
struct SampleRepoDir {
    work: BTreeMap<String, Vec<u8>>,
    dirs: BTreeSet<String>,
    index: BTreeMap<String, Vec<u8>>,
    head: Option<BTreeMap<String, Vec<u8>>>,
    counter: u64,
}

fn oid_of(content: &[u8]) -> Oid {
    let mut raw = [0u8; 20];
    raw[0] = 1;
    for (i, b) in content.iter().enumerate() {
        raw[1 + i % 19] = raw[1 + i % 19].wrapping_mul(31).wrapping_add(*b);
    }
    Oid::from_bytes(raw)
}

fn side(path: &str, content: Option<&Vec<u8>>, hashed: bool) -> DiffFile {
    DiffFile {
        id: match content {
            Some(c) if hashed => oid_of(c),
            _ => Oid::from_bytes([0; 20]),
        },
        path: Some(path.to_string()),
        size: content.map_or(0, |c| c.len() as u64),
    }
}

fn split_lines(content: &[u8]) -> Vec<Vec<u8>> {
    content.split_inclusive(|b| *b == b'\n').map(|l| l.to_vec()).collect()
}

impl SampleRepoDir {
    fn new() -> Self {
        Self {
            work: BTreeMap::new(),
            dirs: BTreeSet::new(),
            index: BTreeMap::new(),
            head: None,
            counter: 0,
        }
    }

    fn git_dir(&self) -> String {
        "/tmp/sample/.git".to_string()
    }

    fn open(&self) -> Result<String, Git2Error> {
        Ok(self.git_dir())
    }

    fn change_something(&mut self) {
        self.counter += 1;
        let name = format!("something_{}.txt", self.counter);
        self.set_file(&name, b"some change");
    }

    fn create_dir(&mut self, name: &str) {
        self.dirs.insert(name.to_string());
    }

    fn set_file(&mut self, name: &str, contents: &[u8]) {
        self.work.insert(name.to_string(), contents.to_vec());
    }

    fn remove_file(&mut self, name: &str) {
        self.work.remove(name);
    }

    fn should_ignore(&self, path: &str) -> bool {
        let rules = match self.work.get(".gitignore") {
            Some(rules) => String::from_utf8_lossy(rules).into_owned(),
            None => return false,
        };
        rules.lines().any(|rule| match rule.strip_prefix('*') {
            Some(suffix) => path.ends_with(suffix),
            None => path == rule,
        })
    }

    fn add(&mut self, name: &str) {
        if let Some(content) = self.work.get(name) {
            self.index.insert(name.to_string(), content.clone());
        }
    }

    fn commit_all(&mut self) {
        let names: Vec<String> = self.work.keys().cloned().collect();
        for name in names {
            if !self.should_ignore(&name) {
                self.add(&name);
            }
        }
        self.index.retain(|name, _| self.work.contains_key(name));
        self.head = Some(self.index.clone());
    }

    fn resolve_head(&self) -> Result<BTreeMap<String, Vec<u8>>, Git2Error> {
        match &self.head {
            Some(tree) => Ok(tree.clone()),
            None => Err(Git2Error::new(ErrorCode::UnbornBranch, "no commit yet".to_string())),
        }
    }

    fn tracked_below(&self, dir: &str, tree: &BTreeMap<String, Vec<u8>>) -> bool {
        tree.keys().chain(self.index.keys()).any(|p| p.starts_with(dir))
    }

    /// The records of a comparison of the baseline with the index and the
    /// working tree, in the order of their paths.
    fn deltas(&self, head: &Option<BTreeMap<String, Vec<u8>>>, opts: &DiffOptions) -> Vec<DiffDelta> {
        let empty = BTreeMap::new();
        let tree = head.as_ref().unwrap_or(&empty);
        let mut paths: BTreeSet<String> = BTreeSet::new();
        for p in tree.keys().chain(self.index.keys()).chain(self.work.keys()) {
            let known = tree.contains_key(p) || self.index.contains_key(p);
            match p.find('/') {
                Some(at) if !known && !self.tracked_below(&p[..=at], tree) => {
                    paths.insert(p[..=at].to_string());
                }
                _ => {
                    paths.insert(p.clone());
                }
            }
        }
        let mut out = Vec::new();
        for p in paths {
            if let Some(spec) = &opts.pathspec {
                if std::path::Path::new(&p) != std::path::Path::new(spec) {
                    continue;
                }
            }
            let old = tree.get(&p);
            let staged = self.index.get(&p);
            let now = self.work.get(&p);
            let (status, nfiles) = match (old, staged, now) {
                (Some(_), _, None) => (Status::Deleted, 1),
                (Some(o), _, Some(n)) if o == n => (Status::Unmodified, 1),
                (Some(_), _, Some(_)) => (Status::Modified, 2),
                (None, Some(_), _) => (Status::Added, 1),
                (None, None, _) if self.should_ignore(&p) => (Status::Ignored, 1),
                (None, None, _) => (Status::Untracked, 1),
            };
            let included = match status {
                Status::Unmodified => opts.include_unmodified,
                Status::Ignored => opts.include_ignored,
                Status::Untracked => opts.include_untracked,
                _ => true,
            };
            if included {
                out.push(DiffDelta {
                    status,
                    nfiles,
                    old_file: side(&p, old, true),
                    new_file: side(&p, staged.or(now), staged.is_some()),
                });
            }
        }
        out
    }

    fn lines(&self, tree: &BTreeMap<String, Vec<u8>>, path: &str) -> Vec<Line> {
        let none = Vec::new();
        let old = split_lines(tree.get(path).unwrap_or(&none));
        let new = split_lines(self.work.get(path).unwrap_or(&none));
        let mut out = vec![
            Line::from_git2(None, None, 1, -1, b"diff --git\n", DiffLineType::FileHeader),
            Line::from_git2(None, None, 1, -1, b"@@\n", DiffLineType::HunkHeader),
        ];
        let mut offset = 0i64;
        for (i, l) in old.iter().enumerate() {
            if new.get(i) != Some(l) {
                out.push(Line::from_git2(
                    Some(i as u32 + 1),
                    None,
                    1,
                    offset,
                    l.as_slice(),
                    DiffLineType::Deletion,
                ));
            }
            offset += l.len() as i64;
        }
        offset = 0;
        for (i, l) in new.iter().enumerate() {
            if old.get(i) != Some(l) {
                out.push(Line::from_git2(
                    None,
                    Some(i as u32 + 1),
                    1,
                    offset,
                    l.as_slice(),
                    DiffLineType::Addition,
                ));
            }
            offset += l.len() as i64;
        }
        out
    }

    /// Walks the records as the backend does: each path is reported, then its
    /// lines; a callback that answers `false` ends the walk with a failure of
    /// code `User`.
    fn foreach(
        &self,
        head: &Option<BTreeMap<String, Vec<u8>>>,
        opts: &DiffOptions,
        listener: &mut idgit::Extractor,
    ) -> Result<(), Git2Error> {
        let empty = BTreeMap::new();
        let tree = head.as_ref().unwrap_or(&empty);
        for delta in self.deltas(head, opts) {
            if listener.targets(&delta) {
                assert!(delta.is_classifiable());
            }
            if !listener.visit_file(&delta) {
                return Err(Git2Error::new(ErrorCode::User, "stopped".to_string()));
            }
            let path = delta.new_file.path.clone().unwrap();
            for line in self.lines(tree, &path) {
                if !listener.visit_line(&delta, line) {
                    return Err(Git2Error::new(ErrorCode::User, "stopped".to_string()));
                }
            }
        }
        Ok(())
    }

    /// Carries out a staging action step by step.
    fn run(&mut self, first: Result<Step, Error>) -> Result<(), Error> {
        let mut step = first?;
        loop {
            step = match step {
                Step::CheckIgnore(path) => {
                    let ignored = self.should_ignore(&path);
                    Step::CheckIgnore(path).resume(ignored)
                }
                Step::AddPath(path) => {
                    self.add(&path);
                    Step::AddPath(path).resume(false)
                }
                Step::RemovePath(path) => {
                    self.index.remove(&path);
                    Step::RemovePath(path).resume(false)
                }
                Step::Done => return Ok(()),
            };
        }
    }
}

fn uncommitted_files_of(repo: &Repo, dir: &SampleRepoDir) -> Result<Vec<Meta>, Error> {
    let head = Internal::head(dir.resolve_head())?;
    let opts = Internal::uncommitted_opts();
    let deltas = dir.deltas(&head, &opts);
    for delta in &deltas {
        assert!(delta.is_classifiable());
    }
    repo.uncommitted_files(Ok(deltas))
}

fn diff_details_of(repo: &Repo, dir: &SampleRepoDir, meta: &Meta) -> Result<Details, Error> {
    let head = Internal::head(dir.resolve_head())?;
    let mut listener = repo.diff_details(meta)?;
    let opts = Internal::detail_opts(listener.path());
    let outcome = dir.foreach(&head, &opts, &mut listener);
    listener.finish(outcome)
}

fn stage(repo: &mut Repo, dir: &mut SampleRepoDir, file: &File) -> Result<(), Error> {
    let outcome = dir.run(repo.stage_file(file));
    repo.apply(Change::StageFile(file.clone()), outcome)
}

fn unstage(repo: &mut Repo, dir: &mut SampleRepoDir, file: &File) -> Result<(), Error> {
    let outcome = dir.run(repo.unstage_file(file));
    repo.apply(Change::UnstageFile(file.clone()), outcome)
}

fn undo(repo: &mut Repo, dir: &mut SampleRepoDir) -> Result<(), Error> {
    let first = repo.undo();
    dir.run(first)
}

fn redo(repo: &mut Repo, dir: &mut SampleRepoDir) -> Result<(), Error> {
    let first = repo.redo();
    dir.run(first)
}

fn untracked_file(meta: &Meta) -> &File {
    if let Meta::Untracked(file) = meta {
        file
    } else {
        panic!();
    }
}

#[test]
fn can_open_blank() {
    let dir = SampleRepoDir::new();
    Repo::open(dir.open()).unwrap();
}

#[test]
fn can_open_used() -> Result<(), Error> {
    let mut dir = SampleRepoDir::new();
    dir.change_something();
    dir.commit_all();

    let repo = Repo::open(dir.open())?;
    println!("{:#?}", repo);
    assert_eq!(repo.path(), "/tmp/sample");
    assert!(!repo.can_undo());
    assert!(!repo.can_redo());

    Ok(())
}

#[test]
fn uncommitted_files() -> Result<(), Error> {
    let mut dir = SampleRepoDir::new();
    let repo = Repo::open(dir.open())?;

    dir.set_file("foo.txt", b"foo");
    dir.set_file("unchanged.txt", b"unchanged");
    dir.set_file("deleted.txt", b"deleted");
    dir.set_file("changed_to_bin", b"text");
    dir.set_file(".gitignore", b"*.ignored\n");
    dir.commit_all();

    dir.set_file("example.ignored", b"ignored");

    dir.remove_file("deleted.txt");

    dir.set_file("staged.txt", b"already staged");
    dir.add("staged.txt");

    dir.set_file("foo.txt", b"foobar");
    dir.set_file("qux.txt", b"quz");

    dir.create_dir("example_dir");

    let files = uncommitted_files_of(&repo, &dir)?;
    println!("{:#?}", files);

    Ok(())
}

#[test]
fn uncommitted_no_commits_no_untracked() -> Result<(), Error> {
    let dir = SampleRepoDir::new();
    let repo = Repo::open(dir.open())?;
    assert_eq!(uncommitted_files_of(&repo, &dir)?.len(), 0);

    Ok(())
}

#[test]
fn uncommitted_no_commits_with_untracked() -> Result<(), Error> {
    let mut dir = SampleRepoDir::new();
    dir.set_file("name", b"contents");
    dir.create_dir("example_dir");
    dir.set_file("example_dir/directories_arent_recursed_into", b"");

    let repo = Repo::open(dir.open())?;

    assert!(matches!(uncommitted_files_of(&repo, &dir)?.as_slice(), [
        Meta::Untracked(a), Meta::Untracked(b)] if
            a.rel_path().unwrap() == "example_dir/" &&
            b.rel_path().unwrap() == "name"
    ));

    Ok(())
}

#[test]
fn stage_file() -> Result<(), Error> {
    let mut dir = SampleRepoDir::new();

    dir.set_file("a.txt", b"a");
    dir.set_file("b.txt", b"b");

    let mut repo = Repo::open(dir.open())?;

    let uncommitted = uncommitted_files_of(&repo, &dir)?;
    let first_file = untracked_file(&uncommitted[0]);

    stage(&mut repo, &mut dir, first_file)?;

    assert!(matches!(
        uncommitted_files_of(&repo, &dir)?.as_slice(),
        [Meta::Added(_), Meta::Untracked(_)]
    ));

    Ok(())
}

#[test]
fn unstage_file() -> Result<(), Error> {
    let mut dir = SampleRepoDir::new();
    let mut repo = Repo::open(dir.open())?;

    dir.set_file("f", b"contents");
    let uncommitted = uncommitted_files_of(&repo, &dir)?;
    assert_eq!(uncommitted.len(), 1);
    let file = untracked_file(&uncommitted[0]);

    stage(&mut repo, &mut dir, file)?;

    assert!(matches!(uncommitted_files_of(&repo, &dir)?.as_slice(), [Meta::Added(_)]));

    unstage(&mut repo, &mut dir, file)?;

    assert!(matches!(uncommitted_files_of(&repo, &dir)?.as_slice(), [Meta::Untracked(_)]));

    Ok(())
}

#[test]
fn undo_redo_stage_file() -> Result<(), Error> {
    let mut dir = SampleRepoDir::new();
    let mut repo = Repo::open(dir.open())?;

    dir.set_file("f", b"contents");
    let uncommitted = uncommitted_files_of(&repo, &dir)?;
    assert_eq!(uncommitted.len(), 1);
    let file = untracked_file(&uncommitted[0]);

    stage(&mut repo, &mut dir, file)?;
    assert!(matches!(uncommitted_files_of(&repo, &dir)?.as_slice(), [Meta::Added(_)]));

    undo(&mut repo, &mut dir)?;
    assert!(matches!(uncommitted_files_of(&repo, &dir)?.as_slice(), [Meta::Untracked(_)]));

    redo(&mut repo, &mut dir)?;
    assert!(matches!(uncommitted_files_of(&repo, &dir)?.as_slice(), [Meta::Added(_)]));

    Ok(())
}

#[test]
fn undo_redo_unstage_file() -> Result<(), Error> {
    let mut dir = SampleRepoDir::new();
    let mut repo = Repo::open(dir.open())?;

    dir.set_file("f", b"contents");
    let uncommitted = uncommitted_files_of(&repo, &dir)?;
    assert_eq!(uncommitted.len(), 1);
    let file = untracked_file(&uncommitted[0]);

    stage(&mut repo, &mut dir, file)?;

    let uncommitted = uncommitted_files_of(&repo, &dir)?;
    assert!(matches!(uncommitted.as_slice(), [Meta::Added(_)]));
    let file = if let Meta::Added(file) = &uncommitted[0] {
        file
    } else {
        panic!();
    };

    unstage(&mut repo, &mut dir, file)?;
    assert!(matches!(uncommitted_files_of(&repo, &dir)?.as_slice(), [Meta::Untracked(_)]));

    undo(&mut repo, &mut dir)?;
    assert!(matches!(uncommitted_files_of(&repo, &dir)?.as_slice(), [Meta::Added(_)]));

    redo(&mut repo, &mut dir)?;
    assert!(matches!(uncommitted_files_of(&repo, &dir)?.as_slice(), [Meta::Untracked(_)]));

    Ok(())
}

#[test]
fn uncommitted_change() -> Result<(), Error> {
    let mut dir = SampleRepoDir::new();
    let repo = Repo::open(dir.open())?;

    let old = b"
         fn undo(&mut self, target: &mut Self::Target) -> undo::Result<Self> {
            match self {
                Change::StageFile(file) => target.do_stage_file(file),
                Change::UnstageFile(file) => target.do_unstage_file(file),
            }
         }
    ";

    let new = b"
         fn undo(&mut self, target: &mut Self::Target) -> undo::Result<Self> {
            match self {
                Change::StageFile(file) => target.do_unstage_file(file),
                Change::UnstageFile(file) => target.do_stage_file(file),
            }
         }
    ";

    dir.set_file("file", old);
    dir.commit_all();
    dir.set_file("file", new);

    let uncommitted = uncommitted_files_of(&repo, &dir)?;
    let diff = &uncommitted[0];

    let changes = diff_details_of(&repo, &dir, diff)?;
    println!("{:?}", changes);

    assert!(matches!(changes.meta(), Meta::Modified { .. }));
    let origins: Vec<DiffLineType> = changes.lines().iter().map(|l| l.origin()).collect();
    assert_eq!(
        origins,
        vec![
            DiffLineType::FileHeader,
            DiffLineType::HunkHeader,
            DiffLineType::Deletion,
            DiffLineType::Deletion,
            DiffLineType::Addition,
            DiffLineType::Addition,
        ]
    );
    assert_eq!(changes.lines()[2].old_lineno(), Some(4));
    assert_eq!(changes.lines()[2].new_lineno(), None);
    assert_eq!(changes.lines()[5].new_lineno(), Some(5));
    assert_eq!(
        changes.lines()[4].content(),
        b"                Change::StageFile(file) => target.do_unstage_file(file),\n"
    );

    Ok(())
}

#[test]
fn uncommitted_change_for_nonexistent_errors() -> Result<(), Error> {
    let mut dir = SampleRepoDir::new();
    let repo = Repo::open(dir.open())?;

    dir.set_file("file", b"contents");

    let uncommitted = uncommitted_files_of(&repo, &dir)?;

    dir.remove_file("file");

    let delta = &uncommitted[0];
    assert!(matches!(diff_details_of(&repo, &dir, delta), Err(Error::PathNotFound(_))));

    Ok(())
}

#[test]
fn deleted_file_is_reported_after_the_delete() -> Result<(), Error> {
    let mut dir = SampleRepoDir::new();
    let repo = Repo::open(dir.open())?;
    dir.set_file("file", b"contents\n");
    dir.commit_all();
    dir.remove_file("file");

    let uncommitted = uncommitted_files_of(&repo, &dir)?;
    assert!(matches!(uncommitted.as_slice(), [Meta::Deleted(_)]));
    let details = diff_details_of(&repo, &dir, &uncommitted[0])?;
    assert!(matches!(details.meta(), Meta::Deleted(f) if f.rel_path() == Some("file")));
    assert_eq!(details.lines().len(), 3);
    assert_eq!(details.lines()[2].origin(), DiffLineType::Deletion);

    Ok(())
}

#[test]
fn staging_an_ignored_path_changes_nothing() -> Result<(), Error> {
    let mut dir = SampleRepoDir::new();
    let mut repo = Repo::open(dir.open())?;
    dir.set_file(".gitignore", b"*.ignored\n");
    dir.set_file("example.ignored", b"ignored");

    let before = uncommitted_files_of(&repo, &dir)?;
    assert!(matches!(before.as_slice(), [Meta::Untracked(_), Meta::Ignored(_)]));
    let file = if let Meta::Ignored(file) = &before[1] {
        file
    } else {
        panic!();
    };

    stage(&mut repo, &mut dir, file)?;
    let after = uncommitted_files_of(&repo, &dir)?;
    assert!(matches!(after.as_slice(), [Meta::Untracked(_), Meta::Ignored(_)]));
    assert!(repo.can_undo());

    Ok(())
}
