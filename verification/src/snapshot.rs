//! The model of a target's remote root under snapshot rotation: the set of
//! timestamp-named snapshot directories and the single `latest` alias.
//!
//! The rotation command built in `target` realises one `rotate` transition
//! on the remote host; this module states and proves what that transition
//! does to the root, so that the protocol's guarantees (exactly one new
//! snapshot, hard links to every file of the previous one, the alias
//! republished last, prior snapshots untouched) are facts of the library and
//! not of any one shell.

use vstd::prelude::*;

verus! {

/// One snapshot directory: its timestamp-token name and the files it holds.
/// A hard-linked copy holds the same files under the same names.
#[derive(Debug)]
pub struct Snapshot {
    pub name: String,
    pub files: Vec<String>,
}

/// The mathematical value of one snapshot.
#[verifier::ext_equal]
pub struct SnapshotModel {
    pub name: Seq<char>,
    pub files: Seq<Seq<char>>,
}

/// The mathematical value of a remote root: the snapshots in creation order
/// and the optional `latest` alias.
#[verifier::ext_equal]
pub struct RootModel {
    pub snapshots: Seq<SnapshotModel>,
    pub latest: Option<Seq<char>>,
}

impl View for Snapshot {
    type V = SnapshotModel;

    open spec fn view(&self) -> SnapshotModel {
        SnapshotModel { name: self.name@, files: self.files@.map_values(|f: String| f@) }
    }
}

/// A remote root as rotation sees it.
#[derive(Debug)]
pub struct SnapshotRoot {
    pub snapshots: Vec<Snapshot>,
    pub latest: Option<String>,
}

impl View for SnapshotRoot {
    type V = RootModel;

    open spec fn view(&self) -> RootModel {
        RootModel {
            snapshots: self.snapshots@.map_values(|s: Snapshot| s@),
            latest: match self.latest {
                Some(l) => Some(l@),
                None => None,
            },
        }
    }
}

/// Whether a snapshot directory of the given name exists under the root.
pub open spec fn has_snapshot(m: RootModel, name: Seq<char>) -> bool {
    exists|i: int| 0 <= i < m.snapshots.len() && m.snapshots[i].name == name
}

/// The index of the snapshot of the given name.
pub open spec fn snapshot_index(m: RootModel, name: Seq<char>) -> int {
    choose|i: int| 0 <= i < m.snapshots.len() && m.snapshots[i].name == name
}

/// The files of the snapshot of the given name.
pub open spec fn files_of(m: RootModel, name: Seq<char>) -> Seq<Seq<char>> {
    m.snapshots[snapshot_index(m, name)].files
}

/// Well-formedness of a root: snapshot names are distinct, and the `latest`
/// alias, where present, names an existing, fully formed snapshot — never a
/// missing or half-created directory.
pub open spec fn root_wf(m: RootModel) -> bool {
    &&& forall|i: int, j: int|
        0 <= i < j < m.snapshots.len() ==> m.snapshots[i].name != m.snapshots[j].name
    &&& m.latest matches Some(l) ==> has_snapshot(m, l)
}

/// One rotation with a fresh token: if a directory of that name already
/// exists, creation is skipped (the clock-collision policy); otherwise a new
/// snapshot is added holding hard links to every file of the snapshot the
/// `latest` alias resolves to, or no files at all when there is no alias.
/// Either way the alias ends at the token's directory, and no existing
/// snapshot is changed.
pub open spec fn rotate_model(m: RootModel, token: Seq<char>) -> RootModel {
    if has_snapshot(m, token) {
        RootModel { snapshots: m.snapshots, latest: Some(token) }
    } else {
        RootModel {
            snapshots: m.snapshots.push(
                SnapshotModel {
                    name: token,
                    files: match m.latest {
                        Some(l) => files_of(m, l),
                        None => Seq::empty(),
                    },
                },
            ),
            latest: Some(token),
        }
    }
}

impl SnapshotRoot {
    /// A root with no snapshots and no alias.
    pub fn new() -> (r: SnapshotRoot)
        ensures
            r@.snapshots.len() == 0,
            r@.latest is None,
            root_wf(r@),
    {
        SnapshotRoot { snapshots: Vec::new(), latest: None }
    }

    /// Find the snapshot of the given name.
    fn find(&self, name: &String) -> (r: Option<usize>)
        ensures
            r matches Some(i) ==> i < self@.snapshots.len() && self@.snapshots[i as int].name
                == name@,
            r is None ==> !has_snapshot(self@, name@),
    {
        let mut k: usize = 0;
        while k < self.snapshots.len()
            invariant
                k <= self@.snapshots.len(),
                forall|i: int| 0 <= i < k ==> self@.snapshots[i].name != name@,
            decreases self@.snapshots.len() - k,
        {
            if self.snapshots[k].name == *name {
                return Some(k);
            }
            k += 1;
        }
        None
    }

    /// Perform one rotation of the model, exactly as `rotate_model` says.
    pub fn rotate(&mut self, token: &String)
        requires
            root_wf(old(self)@),
        ensures
            final(self)@ == rotate_model(old(self)@, token@),
            root_wf(final(self)@),
            final(self)@.latest == Some(token@),
    {
        let existing = self.find(token);
        if existing.is_none() {
            let files: Vec<String> = match &self.latest {
                Some(l) => {
                    let li = self.find(l);
                    match li {
                        Some(i) => clone_files(&self.snapshots[i].files),
                        None => {
                            proof {
                                assert(has_snapshot(self@, l@));
                            }
                            vstd::pervasive::unreached()
                        },
                    }
                },
                None => Vec::new(),
            };
            proof {
                let m = self@;
                if self.latest is Some {
                    let l = self.latest.unwrap()@;
                    assert(files@.map_values(|f: String| f@) =~= files_of(m, l));
                }
            }
            self.snapshots.push(Snapshot { name: token.clone(), files });
        }
        self.latest = Some(token.clone());
        proof {
            assert(self@.snapshots =~~= rotate_model(old(self)@, token@).snapshots);
            assert(self@ =~~= rotate_model(old(self)@, token@));
            lemma_rotate_preserves_wf(old(self)@, token@);
        }
    }
}

/// Clone a file list; the copies hold the same names.
fn clone_files(files: &Vec<String>) -> (r: Vec<String>)
    ensures
        r@.map_values(|f: String| f@) == files@.map_values(|f: String| f@),
{
    let mut r: Vec<String> = Vec::new();
    let mut k: usize = 0;
    while k < files.len()
        invariant
            k <= files@.len(),
            r@.len() == k,
            forall|i: int| 0 <= i < k ==> r@[i]@ == files@[i]@,
        decreases files@.len() - k,
    {
        r.push(files[k].clone());
        k += 1;
    }
    proof {
        assert(r@.map_values(|f: String| f@) =~= files@.map_values(|f: String| f@));
    }
    r
}

/// Rotation preserves well-formedness, and always leaves the alias at the
/// token's directory: the root is never left with `latest` pointing at a
/// missing or partially populated directory.
pub proof fn lemma_rotate_preserves_wf(m: RootModel, token: Seq<char>)
    requires
        root_wf(m),
    ensures
        root_wf(rotate_model(m, token)),
        rotate_model(m, token).latest == Some(token),
{
    let r = rotate_model(m, token);
    if has_snapshot(m, token) {
        let w = choose|i: int| 0 <= i < m.snapshots.len() && m.snapshots[i].name == token;
        assert(r.snapshots[w].name == token);
        assert(has_snapshot(r, token));
    } else {
        assert forall|i: int, j: int|
            0 <= i < j < r.snapshots.len() implies r.snapshots[i].name != r.snapshots[j].name by {
            if j == m.snapshots.len() {
                assert(!has_snapshot(m, token));
                assert(m.snapshots[i].name != token);
            }
        }
        assert(r.snapshots[m.snapshots.len() as int].name == token);
        assert(has_snapshot(r, token));
    }
}

/// Starting from a root with no `latest` alias and no snapshot directories,
/// one rotation produces exactly one snapshot directory, holding no files,
/// and a `latest` alias pointing to it.
pub proof fn lemma_rotate_first(m: RootModel, token: Seq<char>)
    requires
        root_wf(m),
        m.snapshots.len() == 0,
        m.latest is None,
    ensures
        rotate_model(m, token).snapshots.len() == 1,
        rotate_model(m, token).snapshots[0].name == token,
        rotate_model(m, token).snapshots[0].files.len() == 0,
        rotate_model(m, token).latest == Some(token),
        root_wf(rotate_model(m, token)),
{
    lemma_rotate_preserves_wf(m, token);
}

/// A second rotation with the same token — two runs within the same clock
/// second — changes nothing: the collision policy treats the existing
/// directory as already satisfied, and the alias stays valid.
pub proof fn lemma_rotate_same_second(m: RootModel, token: Seq<char>)
    requires
        root_wf(m),
        m.latest == Some(token),
    ensures
        rotate_model(m, token) == m,
{
    assert(has_snapshot(m, token));
    assert(rotate_model(m, token) =~~= m);
}

/// Rotation from a root whose `latest` alias resolves to a snapshot `S1`
/// produces one new snapshot named by the fresh token, holding hard links to
/// every file of `S1`; the old alias is replaced by one pointing at the new
/// snapshot; `S1` itself, and every other prior snapshot, remains untouched.
pub proof fn lemma_rotate_links_previous(m: RootModel, previous: Seq<char>, token: Seq<char>)
    requires
        root_wf(m),
        m.latest == Some(previous),
        !has_snapshot(m, token),
    ensures
        rotate_model(m, token).snapshots.len() == m.snapshots.len() + 1,
        rotate_model(m, token).snapshots[m.snapshots.len() as int].name == token,
        rotate_model(m, token).snapshots[m.snapshots.len() as int].files == files_of(m, previous),
        forall|i: int|
            0 <= i < m.snapshots.len() ==> rotate_model(m, token).snapshots[i] == m.snapshots[i],
        rotate_model(m, token).latest == Some(token),
        root_wf(rotate_model(m, token)),
{
    lemma_rotate_preserves_wf(m, token);
}

} // verus!
