//! The set of chats with auto-unpin enabled, and how it is kept on disk: a
//! JSON file that is rewritten atomically on change.

use crate::chat::ChatId;
use crate::path;
use crate::text;
use std::collections::HashSet;
use vstd::prelude::*;

verus! {

broadcast use vstd::std_specs::hash::group_hash_axioms;

/// What the state file holds: the ids of the enabled chats. A file that does
/// not mention them holds none.
#[derive(Debug)]
pub struct StateFile {
    pub enabled_chats: Vec<i64>,
}

impl StateFile {
    /// The ids that the file lists, however often and in whatever order.
    pub open spec fn ids(self) -> Set<i64> {
        self.enabled_chats@.to_set()
    }
}

/// The extension of the sibling that a new version is written to first.
pub const TMP_EXTENSION: &'static str = "json.tmp";

/// Where the state is kept.
#[derive(Debug)]
pub struct StatePaths {
    /// The state file.
    pub target: String,
    /// The directory that holds it, if the path names one.
    pub parent: Option<String>,
    /// The sibling that a new version is written to first: the path with the
    /// extension [`TMP_EXTENSION`].
    pub tmp: String,
}

impl StatePaths {
    /// Whether the directory and the sibling are those of the state file.
    pub open spec fn located(self) -> bool {
        &&& path::is_parent(
            self.target@,
            match self.parent {
                Some(dir) => Some(dir@),
                None => None,
            },
        )
        &&& path::is_with_extension(self.target@, TMP_EXTENSION@, self.tmp@)
    }

    /// The places that belong to a state file at `path`.
    pub fn at(path: &str) -> (r: StatePaths)
        ensures
            r.target@ == path@,
            r.located(),
    {
        proof {
            reveal_strlit("json.tmp");
        }
        StatePaths {
            target: path.to_owned(),
            parent: path::parent(path),
            tmp: path::with_extension(path, TMP_EXTENSION),
        }
    }

    fn duplicate(&self) -> (r: StatePaths)
        ensures
            r == *self,
    {
        let parent = match &self.parent {
            Some(dir) => Some(dir.clone()),
            None => None,
        };
        StatePaths { target: self.target.clone(), parent, tmp: self.tmp.clone() }
    }
}

/// Why the state file could not be read.
#[derive(Debug)]
pub enum ReadError {
    /// There is no such file.
    NotFound,
    /// A component of the path is a file, not a directory.
    NotADirectory,
    /// Anything else, in words.
    Other(String),
}

/// The message for an operation on `path` that failed with `e`.
pub open spec fn cannot(what: Seq<char>, path: Seq<char>, e: Seq<char>) -> Seq<char> {
    what + path + ": "@ + e
}

/// What loading the file at `path` gives, where reading it gave `read` and
/// `parse` reads its JSON text.
pub open spec fn loads<P: Fn(&Vec<u8>) -> Result<StateFile, String>>(
    path: Seq<char>,
    read: Result<Vec<u8>, ReadError>,
    parse: P,
    r: Result<EnabledChats, String>,
) -> bool {
    match read {
        Ok(bytes) => exists|parsed: Result<StateFile, String>|
            {
                &&& #[trigger] call_ensures(parse, (&bytes,), parsed)
                &&& match parsed {
                    Ok(file) => {
                        &&& r matches Ok(loaded)
                        &&& loaded@ == file.ids()
                        &&& loaded.kept_at(path)
                    },
                    Err(e) => {
                        &&& r matches Err(message)
                        &&& message@ == cannot("cannot parse "@, path, e@)
                    },
                }
            },
        // Where a component of the path is a file, a later save can still make
        // the real directories: that is like missing.
        Err(ReadError::NotFound) | Err(ReadError::NotADirectory) => {
            &&& r matches Ok(loaded)
            &&& loaded@ == Set::<i64>::empty()
            &&& loaded.kept_at(path)
        },
        Err(ReadError::Other(e)) => {
            &&& r matches Err(message)
            &&& message@ == cannot("cannot read "@, path, e@)
        },
    }
}

/// The set of chats with auto-unpin enabled, backed by a file.
pub struct EnabledChats {
    chats: HashSet<i64>,
    paths: StatePaths,
}

impl View for EnabledChats {
    type V = Set<i64>;

    closed spec fn view(&self) -> Set<i64> {
        self.chats@
    }
}

impl EnabledChats {
    /// There are finitely many enabled chats, and the places that the set is
    /// kept at belong together.
    #[verifier::type_invariant]
    spec fn sound(self) -> bool {
        self.chats@.finite() && self.paths.located()
    }

    /// Where the set is kept.
    pub closed spec fn paths(&self) -> StatePaths {
        self.paths
    }

    /// Whether the set is kept in the file at `path`.
    pub open spec fn kept_at(&self, path: Seq<char>) -> bool {
        self.paths().target@ == path && self.paths().located()
    }

    /// Makes the set of what reading the state file gave, with `parse` for its
    /// JSON text. A missing file means a fresh install with an empty set; a
    /// present-but-corrupt file is a hard error (silently starting empty would
    /// disable every chat without notice).
    pub fn load<P: Fn(&Vec<u8>) -> Result<StateFile, String>>(
        path: &str,
        read: Result<Vec<u8>, ReadError>,
        parse: P,
    ) -> (r: Result<EnabledChats, String>)
        requires
            read matches Ok(bytes) ==> call_requires(parse, (&bytes,)),
        ensures
            loads(path@, read, parse, r),
            r matches Ok(loaded) ==> loaded@.finite(),
    {
        let mut chats: HashSet<i64> = HashSet::new();
        match read {
            Ok(bytes) => match parse(&bytes) {
                Ok(file) => {
                    for i in 0..file.enabled_chats.len()
                        invariant
                            chats@.finite(),
                            chats@ == file.enabled_chats@.take(i as int).to_set(),
                    {
                        chats.insert(file.enabled_chats[i]);
                        proof {
                            lemma_set_of_take(file.enabled_chats@, i as int);
                        }
                    }
                    assert(file.enabled_chats@.take(file.enabled_chats@.len() as int)
                        == file.enabled_chats@);
                },
                Err(e) => {
                    return Err(
                        text::join4("cannot parse ", path, ": ", e.as_str()),
                    );
                },
            },
            Err(ReadError::NotFound) | Err(ReadError::NotADirectory) => {},
            Err(ReadError::Other(e)) => {
                return Err(text::join4("cannot read ", path, ": ", e.as_str()));
            },
        }
        Ok(EnabledChats { chats, paths: StatePaths::at(path) })
    }

    pub fn contains(&self, id: ChatId) -> (r: bool)
        ensures
            r == self@.contains(id.0),
    {
        self.chats.contains(&id.0)
    }

    pub fn len(&self) -> (r: usize)
        ensures
            r == self@.len(),
            self@.finite(),
    {
        proof {
            use_type_invariant(self);
        }
        self.chats.len()
    }

    /// Adds `id`; returns whether it was newly added.
    pub fn insert(&mut self, id: ChatId) -> (r: bool)
        ensures
            r == !old(self)@.contains(id.0),
            final(self)@ == old(self)@.insert(id.0),
            final(self)@.finite(),
            final(self)@.len() == old(self)@.len() + if r {
                1int
            } else {
                0
            },
            final(self).paths() == old(self).paths(),
    {
        proof {
            use_type_invariant(&*self);
        }
        let mut chats: HashSet<i64> = HashSet::new();
        std::mem::swap(&mut chats, &mut self.chats);
        let added = chats.insert(id.0);
        self.chats = chats;
        added
    }

    /// Removes `id`; returns whether it was present.
    pub fn remove(&mut self, id: ChatId) -> (r: bool)
        ensures
            r == old(self)@.contains(id.0),
            final(self)@ == old(self)@.remove(id.0),
            final(self)@.finite(),
            final(self)@.len() == old(self)@.len() - if r {
                1int
            } else {
                0
            },
            final(self).paths() == old(self).paths(),
    {
        proof {
            use_type_invariant(&*self);
        }
        let mut chats: HashSet<i64> = HashSet::new();
        std::mem::swap(&mut chats, &mut self.chats);
        let removed = chats.remove(&id.0);
        self.chats = chats;
        removed
    }

    /// Moves an enabled chat id (a group that became a supergroup). Returns
    /// false (and changes nothing) if `old_id` was not enabled. `new_id`
    /// already being enabled is still a change: the old id left the set.
    pub fn replace(&mut self, old_id: ChatId, new_id: ChatId) -> (r: bool)
        ensures
            r == old(self)@.contains(old_id.0),
            final(self)@ == moved(old(self)@, old_id, new_id),
            final(self).paths() == old(self).paths(),
    {
        if self.remove(old_id) {
            self.insert(new_id);
            true
        } else {
            assert(self@ == old(self)@);
            false
        }
    }

    /// The contents of the state file for this set.
    fn state_file(&self) -> (file: StateFile)
        ensures
            file.enabled_chats@.no_duplicates(),
            file.ids() == self@,
    {
        let mut ids: Vec<i64> = Vec::new();
        let ghost all = vstd::std_specs::iter::IteratorSpec::remaining(&self.chats.iter()).unref();
        for id in it: self.chats.iter()
            invariant
                it.seq().unref() == all,
                ids@ == all.take(it.index() as int),
        {
            ids.push(*id);
        }
        assert(ids@ == all);
        StateFile { enabled_chats: ids }
    }

    /// Starts to rewrite the state file with this set, each id once.
    pub fn save(&self) -> (r: SaveRun)
        ensures
            r.saves(self@, self.paths()),
            r.paths.located(),
    {
        proof {
            use_type_invariant(self);
        }
        SaveRun { paths: self.paths.duplicate(), file: self.state_file() }
    }
}

proof fn lemma_set_of_take(s: Seq<i64>, i: int)
    requires
        0 <= i < s.len(),
    ensures
        s.take(i + 1).to_set() == s.take(i).to_set().insert(s[i]),
{
    let a = s.take(i + 1);
    let b = s.take(i);
    assert(a =~= b.push(s[i]));
    assert forall|x: i64| a.to_set().contains(x) == b.to_set().insert(s[i]).contains(x) by {
        if b.contains(x) {
            let j = choose|j: int| 0 <= j < b.len() && b[j] == x;
            assert(a[j] == x);
        }
        if a.contains(x) {
            let j = choose|j: int| 0 <= j < a.len() && a[j] == x;
            if j < i {
                assert(b[j] == x);
            }
        }
        assert(a[i] == s[i]);
    }
    assert(a.to_set() =~= b.to_set().insert(s[i]));
}

/// The set `chats` after `old_id` became `new_id`.
pub open spec fn moved(chats: Set<i64>, old_id: ChatId, new_id: ChatId) -> Set<i64> {
    if chats.contains(old_id.0) {
        chats.remove(old_id.0).insert(new_id.0)
    } else {
        chats
    }
}

/// A rewrite of the state file: what is to be in it, and where.
pub struct SaveRun {
    pub paths: StatePaths,
    pub file: StateFile,
}

/// One step of a rewrite of the state file.
#[derive(Debug)]
pub enum SaveOp {
    /// Make the directory and those above it, where they are missing.
    CreateDirAll(String),
    /// Turn the [`StateFile`] into JSON, for the write that follows.
    Encode,
    /// Remove the file, where there is one: a stale one of an interrupted save
    /// must not stop the next step.
    RemoveFile(String),
    /// Make the file, which must not be there yet (a planted symlink is not
    /// followed), for its owner only; write the JSON into it and flush it to
    /// disk.
    WriteNew(String),
    /// Put the first file in place of the second.
    Rename(String, String),
}

/// What comes after a step of a rewrite.
#[derive(Debug)]
pub enum SaveStep {
    Do(SaveOp),
    Finished(Result<(), String>),
}

impl SaveRun {
    /// Whether this is a rewrite of the file at `paths` with the ids `chats`.
    pub open spec fn saves(self, chats: Set<i64>, paths: StatePaths) -> bool {
        &&& self.paths == paths
        &&& self.file.enabled_chats@.no_duplicates()
        &&& self.file.ids() == chats
    }

    /// The first step.
    pub open spec fn first_op(self) -> SaveOp {
        match self.paths.parent {
            Some(dir) => SaveOp::CreateDirAll(dir),
            None => SaveOp::Encode,
        }
    }

    /// The step that follows `op`, if there is one.
    pub open spec fn op_after(self, op: SaveOp) -> Option<SaveOp> {
        match op {
            SaveOp::CreateDirAll(_) => Some(SaveOp::Encode),
            SaveOp::Encode => Some(SaveOp::RemoveFile(self.paths.tmp)),
            SaveOp::RemoveFile(_) => Some(SaveOp::WriteNew(self.paths.tmp)),
            SaveOp::WriteNew(_) => Some(SaveOp::Rename(self.paths.tmp, self.paths.target)),
            SaveOp::Rename(_, _) => None,
        }
    }

    /// Whether `r` follows `op`, which went as `outcome` says.
    pub open spec fn goes_on(
        self,
        op: SaveOp,
        outcome: Result<(), String>,
        r: SaveStep,
    ) -> bool {
        match op_failure(op, outcome) {
            Some(message) => {
                &&& r matches SaveStep::Finished(Err(m))
                &&& m@ == message
            },
            None => match self.op_after(op) {
                Some(next) => r == SaveStep::Do(next),
                None => r == SaveStep::Finished(Ok(())),
            },
        }
    }

    /// The step to begin with.
    pub fn first(&self) -> (r: SaveOp)
        ensures
            r == self.first_op(),
    {
        match &self.paths.parent {
            Some(dir) => SaveOp::CreateDirAll(dir.clone()),
            None => SaveOp::Encode,
        }
    }

    /// What comes after `op`, which went as `outcome` says. A step that fails
    /// ends the rewrite; only a file that cannot be removed is passed over.
    pub fn next(&self, op: SaveOp, outcome: Result<(), String>) -> (r: SaveStep)
        ensures
            self.goes_on(op, outcome, r),
    {
        if let Err(e) = outcome {
            match &op {
                SaveOp::CreateDirAll(dir) => {
                    return SaveStep::Finished(
                        Err(text::join4("cannot create ", dir.as_str(), ": ", e.as_str())),
                    );
                },
                SaveOp::Encode => {
                    return SaveStep::Finished(
                        Err(text::join2("cannot serialize state: ", e.as_str())),
                    );
                },
                SaveOp::RemoveFile(_) => {},
                SaveOp::WriteNew(tmp) => {
                    return SaveStep::Finished(
                        Err(text::join4("cannot write ", tmp.as_str(), ": ", e.as_str())),
                    );
                },
                SaveOp::Rename(_, target) => {
                    return SaveStep::Finished(
                        Err(text::join4("cannot rename into ", target.as_str(), ": ", e.as_str())),
                    );
                },
            }
        }
        match op {
            SaveOp::CreateDirAll(_) => SaveStep::Do(SaveOp::Encode),
            SaveOp::Encode => SaveStep::Do(SaveOp::RemoveFile(self.paths.tmp.clone())),
            SaveOp::RemoveFile(_) => SaveStep::Do(SaveOp::WriteNew(self.paths.tmp.clone())),
            SaveOp::WriteNew(_) => SaveStep::Do(
                SaveOp::Rename(self.paths.tmp.clone(), self.paths.target.clone()),
            ),
            SaveOp::Rename(_, _) => SaveStep::Finished(Ok(())),
        }
    }
}

/// The message that a rewrite fails with where `op` goes as `outcome` says;
/// `None` where it goes on.
pub open spec fn op_failure(op: SaveOp, outcome: Result<(), String>) -> Option<Seq<char>> {
    match outcome {
        Ok(_) => None,
        Err(e) => match op {
            SaveOp::CreateDirAll(dir) => Some(cannot("cannot create "@, dir@, e@)),
            SaveOp::Encode => Some("cannot serialize state: "@ + e@),
            SaveOp::RemoveFile(_) => None,
            SaveOp::WriteNew(tmp) => Some(cannot("cannot write "@, tmp@, e@)),
            SaveOp::Rename(_, target) => Some(cannot("cannot rename into "@, target@, e@)),
        },
    }
}

/// The steps of a rewrite from `op` on, where each step goes as `outcomes`
/// says, and the message that it fails with, if it does.
pub open spec fn run_from(
    run: SaveRun,
    op: SaveOp,
    outcomes: spec_fn(SaveOp) -> Result<(), String>,
) -> (Seq<SaveOp>, Option<Seq<char>>)
    decreases steps_left(op),
{
    match op_failure(op, outcomes(op)) {
        Some(message) => (seq![op], Some(message)),
        None => match run.op_after(op) {
            Some(next) => {
                let rest = run_from(run, next, outcomes);
                (seq![op] + rest.0, rest.1)
            },
            None => (seq![op], None),
        },
    }
}

/// How many steps follow `op` at most.
pub open spec fn steps_left(op: SaveOp) -> nat {
    match op {
        SaveOp::CreateDirAll(_) => 4,
        SaveOp::Encode => 3,
        SaveOp::RemoveFile(_) => 2,
        SaveOp::WriteNew(_) => 1,
        SaveOp::Rename(_, _) => 0,
    }
}

/// A rewrite is atomic. The state file is replaced in the last step only, by a
/// file that was written and flushed as a whole in the step before, with what
/// was encoded before that. All else that it removes or writes is that one
/// file, which is not the state file where the path of this plainly ends in a
/// file name. A rewrite that fails has not replaced the state file; one that
/// succeeds has, and none of its steps failed but the removal of a stale file.
pub proof fn save_is_atomic(run: SaveRun, outcomes: spec_fn(SaveOp) -> Result<(), String>)
    requires
        run.paths.located(),
    ensures
        ({
            let (ops, failure) = run_from(run, run.first_op(), outcomes);
            let replaced = SaveOp::Rename(run.paths.tmp, run.paths.target);
            let n = ops.len() as int;
            &&& forall|i: int|
                0 <= i < n && #[trigger] ops[i] is Rename ==> {
                    &&& i == n - 1
                    &&& i >= 3
                    &&& ops[i] == replaced
                    &&& ops[i - 1] == SaveOp::WriteNew(run.paths.tmp)
                    &&& outcomes(ops[i - 1]) is Ok
                    &&& ops[i - 3] == SaveOp::Encode
                    &&& outcomes(ops[i - 3]) is Ok
                }
            &&& forall|i: int| #![trigger ops[i]]
                0 <= i < n ==> {
                    &&& ops[i] matches SaveOp::RemoveFile(file) ==> file == run.paths.tmp
                    &&& ops[i] matches SaveOp::WriteNew(file) ==> file == run.paths.tmp
                }
            &&& path::named(run.paths.target@) ==> forall|i: int| #![trigger ops[i]]
                0 <= i < n ==> {
                    &&& ops[i] matches SaveOp::RemoveFile(file) ==> file@ != run.paths.target@
                    &&& ops[i] matches SaveOp::WriteNew(file) ==> file@ != run.paths.target@
                }
            &&& failure is Some ==> forall|i: int|
                0 <= i < n && #[trigger] ops[i] is Rename ==> outcomes(ops[i]) is Err
            &&& failure is None ==> {
                &&& ops[n - 1] == replaced
                &&& forall|i: int|
                    0 <= i < n && !(#[trigger] ops[i] is RemoveFile) ==> outcomes(ops[i]) is Ok
            }
        }),
{
    reveal_strlit("json.tmp");
    assert(TMP_EXTENSION@[4] == '.');
    reveal_with_fuel(run_from, 6);
}

/// A new version of the state file is written beside it, where platforms agree
/// on the extension of its path: to another path that is the same up to its
/// last separator, with none after that. At a portable path that is in the
/// directory that is made for it.
pub proof fn new_versions_are_written_beside_the_file(paths: StatePaths)
    requires
        paths.located(),
        path::named_alike(paths.target@),
    ensures
        paths.tmp@ != paths.target@,
        paths.target@.take(path::last_separator(paths.target@) + 1).is_prefix_of(paths.tmp@),
        path::last_separator(paths.tmp@) == path::last_separator(paths.target@),
        path::portable(paths.target@) ==> (paths.parent matches Some(dir) && dir@
            == path::directory(paths.tmp@) && dir@ == path::directory(paths.target@)),
{
    reveal_strlit("json.tmp");
    assert(TMP_EXTENSION@[4] == '.');
    path::siblings_share_a_directory(paths.target@, TMP_EXTENSION@);
}

/// What is saved is loaded back: where the JSON text of a rewrite's file reads
/// back as a file with the same ids, loading it gives the set that was saved.
pub proof fn saved_set_is_loaded_back<P: Fn(&Vec<u8>) -> Result<StateFile, String>>(
    chats: Set<i64>,
    paths: StatePaths,
    run: SaveRun,
    bytes: Vec<u8>,
    parse: P,
    r: Result<EnabledChats, String>,
)
    requires
        run.saves(chats, paths),
        forall|parsed: Result<StateFile, String>|
            #[trigger] call_ensures(parse, (&bytes,), parsed) ==> (parsed matches Ok(file)
                && file.ids() == run.file.ids()),
        loads(paths.target@, Ok(bytes), parse, r),
    ensures
        r matches Ok(loaded) && loaded@ == chats && loaded.kept_at(paths.target@),
{
}

/// A removal undoes an insertion, and an insertion a removal, where they were
/// changes.
pub proof fn insert_and_remove_undo_each_other(chats: Set<i64>, id: ChatId)
    ensures
        !chats.contains(id.0) ==> chats.insert(id.0).remove(id.0) == chats,
        chats.contains(id.0) ==> chats.remove(id.0).insert(id.0) == chats,
{
    if chats.contains(id.0) {
        assert(chats.remove(id.0).insert(id.0) =~= chats);
    } else {
        assert(chats.insert(id.0).remove(id.0) =~= chats);
    }
}

/// After a migration the old id is gone and the new one is enabled, where the
/// old one was enabled; no other chat is concerned. A second move of the same
/// kind changes nothing.
pub proof fn migration_moves_one_chat(chats: Set<i64>, old_id: ChatId, new_id: ChatId, other: ChatId)
    requires
        other != old_id,
        other != new_id,
    ensures
        moved(chats, old_id, new_id).contains(other.0) == chats.contains(other.0),
        old_id != new_id ==> !moved(chats, old_id, new_id).contains(old_id.0),
        moved(chats, old_id, new_id).contains(new_id.0) == (chats.contains(new_id.0)
            || chats.contains(old_id.0)),
        moved(moved(chats, old_id, new_id), old_id, new_id) == moved(chats, old_id, new_id),
{
    if old_id == new_id {
        assert(moved(chats, old_id, new_id) =~= chats);
    }
}

/// The state that handlers share.
pub struct AppState {
    chats: EnabledChats,
}

impl View for AppState {
    type V = Set<i64>;

    closed spec fn view(&self) -> Set<i64> {
        self.chats@
    }
}

/// Whether `saved` is what `save` makes of a rewrite of the file at `paths`
/// with the ids `chats`.
pub open spec fn save_gives<S: FnOnce(SaveRun) -> Result<(), String>>(
    save: S,
    chats: Set<i64>,
    paths: StatePaths,
    saved: Result<(), String>,
) -> bool {
    exists|run: SaveRun| run.saves(chats, paths) && #[trigger] call_ensures(save, (run,), saved)
}

/// Whether `save` can be handed a rewrite of the file at `paths` with the ids
/// `chats`. A function that takes `save` and asks for no more than this can
/// have no other rewrite made.
pub open spec fn may_save<S: FnOnce(SaveRun) -> Result<(), String>>(
    save: S,
    chats: Set<i64>,
    paths: StatePaths,
) -> bool {
    forall|run: SaveRun| run.saves(chats, paths) ==> call_requires(save, (run,))
}

/// Whether `save` can be handed the rewrite that inserting `id` into `before`
/// takes, if it takes one.
pub open spec fn may_insert<S: FnOnce(SaveRun) -> Result<(), String>>(
    before: Set<i64>,
    paths: StatePaths,
    id: ChatId,
    save: S,
) -> bool {
    !before.contains(id.0) ==> may_save(save, before.insert(id.0), paths)
}

/// Whether `save` can be handed the rewrite that removing `id` from `before`
/// takes, if it takes one.
pub open spec fn may_remove<S: FnOnce(SaveRun) -> Result<(), String>>(
    before: Set<i64>,
    paths: StatePaths,
    id: ChatId,
    save: S,
) -> bool {
    before.contains(id.0) ==> may_save(save, before.remove(id.0), paths)
}

/// Whether `save` can be handed the rewrite that moving `old_id` to `new_id`
/// in `before` takes, if it takes one.
pub open spec fn may_replace<S: FnOnce(SaveRun) -> Result<(), String>>(
    before: Set<i64>,
    paths: StatePaths,
    old_id: ChatId,
    new_id: ChatId,
    save: S,
) -> bool {
    before.contains(old_id.0) ==> may_save(save, moved(before, old_id, new_id), paths)
}

/// Inserting `id` into `before`, with `save` to persist the result, leaves
/// `after` and returns `r`: nothing happens where `id` is there already, and a
/// failed save takes the insertion back.
pub open spec fn inserts<S: FnOnce(SaveRun) -> Result<(), String>>(
    before: Set<i64>,
    paths: StatePaths,
    id: ChatId,
    save: S,
    after: Set<i64>,
    r: Result<bool, String>,
) -> bool {
    if before.contains(id.0) {
        after == before && r == Ok::<bool, String>(false)
    } else {
        exists|saved: Result<(), String>|
            {
                &&& #[trigger] save_gives(save, before.insert(id.0), paths, saved)
                &&& match saved {
                    Ok(_) => after == before.insert(id.0) && r == Ok::<bool, String>(true),
                    Err(e) => after == before && r == Err::<bool, String>(e),
                }
            }
    }
}

/// Removing `id` from `before`, with `save` to persist the result, leaves
/// `after` and returns `r`: nothing happens where `id` is not there, and a
/// failed save takes the removal back.
pub open spec fn removes<S: FnOnce(SaveRun) -> Result<(), String>>(
    before: Set<i64>,
    paths: StatePaths,
    id: ChatId,
    save: S,
    after: Set<i64>,
    r: Result<bool, String>,
) -> bool {
    if !before.contains(id.0) {
        after == before && r == Ok::<bool, String>(false)
    } else {
        exists|saved: Result<(), String>|
            {
                &&& #[trigger] save_gives(save, before.remove(id.0), paths, saved)
                &&& match saved {
                    Ok(_) => after == before.remove(id.0) && r == Ok::<bool, String>(true),
                    Err(e) => after == before && r == Err::<bool, String>(e),
                }
            }
    }
}

/// Moving `old_id` to `new_id` in `before`, with `save` to persist the result,
/// leaves `after` and returns `r`: nothing happens where `old_id` is not
/// there, and a failed save does not take the move back.
pub open spec fn replaces<S: FnOnce(SaveRun) -> Result<(), String>>(
    before: Set<i64>,
    paths: StatePaths,
    old_id: ChatId,
    new_id: ChatId,
    save: S,
    after: Set<i64>,
    r: Result<bool, String>,
) -> bool {
    &&& after == moved(before, old_id, new_id)
    &&& if !before.contains(old_id.0) {
        r == Ok::<bool, String>(false)
    } else {
        exists|saved: Result<(), String>|
            {
                &&& #[trigger] save_gives(save, moved(before, old_id, new_id), paths, saved)
                &&& match saved {
                    Ok(_) => r == Ok::<bool, String>(true),
                    Err(e) => r == Err::<bool, String>(e),
                }
            }
    }
}

impl AppState {
    /// Where the set is kept.
    pub closed spec fn paths(&self) -> StatePaths {
        self.chats.paths()
    }

    pub fn new(chats: EnabledChats) -> (r: AppState)
        ensures
            r@ == chats@,
            r.paths() == chats.paths(),
    {
        AppState { chats }
    }

    pub fn contains(&self, id: ChatId) -> (r: bool)
        ensures
            r == self@.contains(id.0),
    {
        self.chats.contains(id)
    }

    /// Inserts and saves; rolls the insert back when saving fails. Nothing is
    /// saved where `id` is enabled already.
    pub fn insert_and_save<S: FnOnce(SaveRun) -> Result<(), String>>(
        &mut self,
        id: ChatId,
        save: S,
    ) -> (r: Result<bool, String>)
        requires
            may_insert(old(self)@, old(self).paths(), id, save),
        ensures
            inserts(old(self)@, old(self).paths(), id, save, final(self)@, r),
            final(self).paths() == old(self).paths(),
    {
        if !self.chats.insert(id) {
            assert(self@ == old(self)@);
            return Ok(false);
        }
        let saved = save(self.chats.save());
        assert(save_gives(save, old(self)@.insert(id.0), old(self).paths(), saved));
        if let Err(e) = saved {
            self.chats.remove(id);
            proof {
                insert_and_remove_undo_each_other(old(self)@, id);
            }
            return Err(e);
        }
        Ok(true)
    }

    /// Removes and saves; rolls the removal back when saving fails. Nothing is
    /// saved where `id` is not enabled.
    pub fn remove_and_save<S: FnOnce(SaveRun) -> Result<(), String>>(
        &mut self,
        id: ChatId,
        save: S,
    ) -> (r: Result<bool, String>)
        requires
            may_remove(old(self)@, old(self).paths(), id, save),
        ensures
            removes(old(self)@, old(self).paths(), id, save, final(self)@, r),
            final(self).paths() == old(self).paths(),
    {
        if !self.chats.remove(id) {
            assert(self@ == old(self)@);
            return Ok(false);
        }
        let saved = save(self.chats.save());
        assert(save_gives(save, old(self)@.remove(id.0), old(self).paths(), saved));
        if let Err(e) = saved {
            self.chats.insert(id);
            proof {
                insert_and_remove_undo_each_other(old(self)@, id);
            }
            return Err(e);
        }
        Ok(true)
    }

    /// Rewrites the state file once, to surface an unwritable path at startup
    /// while the operator is still watching the logs. Unpinning keeps working
    /// for the chats already loaded, so callers warn, not abort.
    pub fn verify_writable<S: FnOnce(SaveRun) -> Result<(), String>>(&self, save: S) -> (r: Result<
        (),
        String,
    >)
        requires
            may_save(save, self@, self.paths()),
        ensures
            save_gives(save, self@, self.paths(), r),
    {
        save(self.chats.save())
    }

    /// Moves `old_id` to `new_id` and persists. Returns false (and changes and
    /// saves nothing) when `old_id` was not enabled.
    ///
    /// A failed save does NOT roll back, unlike insert and remove: after a
    /// migration the old id is dead, and gating future updates on it would
    /// silence auto-unpin for that chat forever. The move stays in memory
    /// until the next successful save persists it.
    pub fn replace_and_save<S: FnOnce(SaveRun) -> Result<(), String>>(
        &mut self,
        old_id: ChatId,
        new_id: ChatId,
        save: S,
    ) -> (r: Result<bool, String>)
        requires
            may_replace(old(self)@, old(self).paths(), old_id, new_id, save),
        ensures
            replaces(old(self)@, old(self).paths(), old_id, new_id, save, final(self)@, r),
            final(self).paths() == old(self).paths(),
    {
        if !self.chats.replace(old_id, new_id) {
            return Ok(false);
        }
        let saved = save(self.chats.save());
        assert(save_gives(save, moved(old(self)@, old_id, new_id), old(self).paths(), saved));
        match saved {
            Ok(_) => Ok(true),
            Err(e) => Err(e),
        }
    }
}

/// A change that could not be saved is not made, and one that was not called
/// for is not either: unless the answer is `Ok(true)`, inserting and removing
/// leave the set as it was.
pub proof fn unsaved_changes_are_not_made<S: FnOnce(SaveRun) -> Result<(), String>>(
    before: Set<i64>,
    paths: StatePaths,
    id: ChatId,
    save: S,
    after: Set<i64>,
    r: Result<bool, String>,
)
    requires
        inserts(before, paths, id, save, after, r) || removes(before, paths, id, save, after, r),
        r != Ok::<bool, String>(true),
    ensures
        after == before,
{
}

/// A migrated chat stays enabled under its new id whatever becomes of the
/// save, and the old id does not return.
pub proof fn migration_survives_a_failed_save<S: FnOnce(SaveRun) -> Result<(), String>>(
    before: Set<i64>,
    paths: StatePaths,
    old_id: ChatId,
    new_id: ChatId,
    save: S,
    after: Set<i64>,
    r: Result<bool, String>,
)
    requires
        replaces(before, paths, old_id, new_id, save, after, r),
        before.contains(old_id.0),
        old_id != new_id,
    ensures
        after.contains(new_id.0),
        !after.contains(old_id.0),
{
}

/// The next save that succeeds persists a move whose own save failed: any later
/// change that is made writes the whole set, with the new id of the migrated
/// chat and without the old one (unless the change is about one of them).
pub proof fn next_save_persists_a_move<
    S: FnOnce(SaveRun) -> Result<(), String>,
    T: FnOnce(SaveRun) -> Result<(), String>,
>(
    before: Set<i64>,
    paths: StatePaths,
    old_id: ChatId,
    new_id: ChatId,
    failing: S,
    between: Set<i64>,
    failed: Result<bool, String>,
    id: ChatId,
    to: ChatId,
    save: T,
    after: Set<i64>,
)
    requires
        before.contains(old_id.0),
        old_id != new_id,
        replaces(before, paths, old_id, new_id, failing, between, failed),
        inserts(between, paths, id, save, after, Ok(true)) || removes(
            between,
            paths,
            id,
            save,
            after,
            Ok(true),
        ) || replaces(between, paths, id, to, save, after, Ok(true)),
    ensures
        save_gives(save, after, paths, Ok(())),
        id != new_id ==> after.contains(new_id.0),
        id != old_id && to != old_id ==> !after.contains(old_id.0),
{
    let saved = choose|saved: Result<(), String>|
        #[trigger] save_gives(save, after, paths, saved) && saved is Ok;
    assert(saved->Ok_0 == ());
}

/// Rewriting the file with the set as it is persists a move whose own save
/// failed: where the JSON text of the rewrite reads back, loading it gives the
/// set in memory, with the new id of the migrated chat and without the old one.
pub proof fn rewriting_persists_a_move<
    S: FnOnce(SaveRun) -> Result<(), String>,
    P: Fn(&Vec<u8>) -> Result<StateFile, String>,
>(
    before: Set<i64>,
    paths: StatePaths,
    old_id: ChatId,
    new_id: ChatId,
    failing: S,
    between: Set<i64>,
    failed: Result<bool, String>,
    run: SaveRun,
    bytes: Vec<u8>,
    parse: P,
    r: Result<EnabledChats, String>,
)
    requires
        before.contains(old_id.0),
        old_id != new_id,
        replaces(before, paths, old_id, new_id, failing, between, failed),
        run.saves(between, paths),
        forall|parsed: Result<StateFile, String>|
            #[trigger] call_ensures(parse, (&bytes,), parsed) ==> (parsed matches Ok(file)
                && file.ids() == run.file.ids()),
        loads(paths.target@, Ok(bytes), parse, r),
    ensures
        r matches Ok(loaded) && loaded@ == between && loaded@.contains(new_id.0)
            && !loaded@.contains(old_id.0),
{
    saved_set_is_loaded_back(between, paths, run, bytes, parse, r);
}

/// What the answers say is so: after an insertion that did not fail the chat
/// is enabled, and after a removal that did not fail it is not. No other chat
/// is concerned, whatever the answer.
pub proof fn answers_tell_the_truth<S: FnOnce(SaveRun) -> Result<(), String>>(
    before: Set<i64>,
    paths: StatePaths,
    id: ChatId,
    save: S,
    after: Set<i64>,
    r: Result<bool, String>,
    other: ChatId,
)
    requires
        other != id,
    ensures
        inserts(before, paths, id, save, after, r) && r is Ok ==> after.contains(id.0),
        removes(before, paths, id, save, after, r) && r is Ok ==> !after.contains(id.0),
        inserts(before, paths, id, save, after, r) || removes(before, paths, id, save, after, r)
            ==> after.contains(other.0) == before.contains(other.0),
{
}

} // verus!
