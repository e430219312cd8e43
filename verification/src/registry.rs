//! The in-memory dataset registry.
//!
//! Loaded datasets are held in an identifier-keyed store shared by all
//! concurrent invocations; the boundary layer guards it with a lock held
//! only for the duration of a single read or insert. Identifiers are
//! generated randomly at registration, so the store states what holds of
//! every identifier that comes back: entries keep their insertion order and
//! their identifiers stay pairwise distinct.

use vstd::prelude::*;
use crate::error::FriedmanError;

verus! {

/// One loaded dataset: its identifier, display name, source path, column
/// names in order, and row count.
#[derive(Debug)]
pub struct DatasetInfo {
    pub id: String,
    pub name: String,
    pub path: String,
    pub columns: Vec<String>,
    pub row_count: usize,
}

/// Whether two entries agree on every field, up to views.
pub open spec fn info_eq(a: DatasetInfo, b: DatasetInfo) -> bool {
    &&& a.id@ == b.id@
    &&& a.name@ == b.name@
    &&& a.path@ == b.path@
    &&& a.columns.deep_view() == b.columns.deep_view()
    &&& a.row_count == b.row_count
}

/// Copy a column list element by element.
fn clone_columns(v: &Vec<String>) -> (r: Vec<String>)
    ensures
        r.deep_view() == v.deep_view(),
{
    let mut r: Vec<String> = Vec::new();
    let n = v.len();
    let mut i: usize = 0;
    while i < n
        invariant
            i <= n,
            n == v.len(),
            r@.len() == i,
            forall|j: int| 0 <= j < i ==> r@[j]@ == v@[j]@,
        decreases n - i,
    {
        r.push(v[i].clone());
        i = i + 1;
    }
    proof {
        assert(r.deep_view() =~= v.deep_view());
    }
    r
}

impl Clone for DatasetInfo {
    fn clone(&self) -> (r: Self)
        ensures
            info_eq(*self, r),
    {
        DatasetInfo {
            id: self.id.clone(),
            name: self.name.clone(),
            path: self.path.clone(),
            columns: clone_columns(&self.columns),
            row_count: self.row_count,
        }
    }
}

/// The first index at or after `i` whose entry carries `id`.
pub open spec fn find_from(s: Seq<DatasetInfo>, id: Seq<char>, i: int) -> Option<int>
    decreases s.len() - i,
{
    if i < 0 || i >= s.len() {
        None
    } else if s[i].id@ == id {
        Some(i)
    } else {
        find_from(s, id, i + 1)
    }
}

/// The index of the entry carrying `id`, if any.
pub open spec fn find_idx(s: Seq<DatasetInfo>, id: Seq<char>) -> Option<int> {
    find_from(s, id, 0)
}

proof fn lemma_find_from(s: Seq<DatasetInfo>, id: Seq<char>, i: int)
    requires
        0 <= i <= s.len(),
    ensures
        match find_from(s, id, i) {
            Option::Some(k) => i <= k < s.len() && s[k].id@ == id && (forall|j: int|
                i <= j < k ==> s[j].id@ != id),
            Option::None => forall|j: int| i <= j < s.len() ==> s[j].id@ != id,
        },
    decreases s.len() - i,
{
    if i < s.len() && s[i].id@ != id {
        lemma_find_from(s, id, i + 1);
    }
}

/// An identifier is absent exactly when no entry carries it.
pub proof fn lemma_find_idx_absent(s: Seq<DatasetInfo>, id: Seq<char>)
    ensures
        find_idx(s, id) is None <==> (forall|j: int| 0 <= j < s.len() ==> s[j].id@ != id),
{
    lemma_find_from(s, id, 0);
    match find_idx(s, id) {
        Option::Some(k) => {
            assert(s[k].id@ == id);
        },
        Option::None => {},
    }
}

/// The identifier-keyed dataset store.
pub struct DatasetRegistry {
    entries: Vec<DatasetInfo>,
}

impl DatasetRegistry {
    /// The stored entries, in insertion order.
    pub closed spec fn entries_seq(&self) -> Seq<DatasetInfo> {
        self.entries@
    }

    /// Identifiers are pairwise distinct.
    pub open spec fn wf(&self) -> bool {
        forall|i: int, j: int|
            0 <= i < j < self.entries_seq().len() ==> self.entries_seq()[i].id@
                != self.entries_seq()[j].id@
    }

    pub fn new() -> (r: DatasetRegistry)
        ensures
            r.entries_seq() == Seq::<DatasetInfo>::empty(),
            r.wf(),
    {
        let r = DatasetRegistry { entries: Vec::new() };
        proof {
            assert(r.entries_seq() =~= Seq::<DatasetInfo>::empty());
        }
        r
    }

    pub fn len(&self) -> (r: usize)
        ensures
            r == self.entries_seq().len(),
    {
        self.entries.len()
    }

    /// All stored entries, in insertion order.
    pub fn list(&self) -> (r: &Vec<DatasetInfo>)
        ensures
            r@ == self.entries_seq(),
    {
        &self.entries
    }

    /// The entry carrying `id`, if any.
    pub fn get(&self, id: &String) -> (r: Option<&DatasetInfo>)
        ensures
            match find_idx(self.entries_seq(), id@) {
                Option::Some(k) => r matches Some(info) && *info == self.entries_seq()[k],
                Option::None => r is None,
            },
    {
        let n = self.entries.len();
        let mut i: usize = 0;
        while i < n
            invariant
                i <= n,
                n == self.entries_seq().len(),
                find_idx(self.entries_seq(), id@) == find_from(self.entries_seq(), id@, i as int),
            decreases n - i,
        {
            if self.entries[i].id == *id {
                return Some(&self.entries[i]);
            }
            i = i + 1;
        }
        None
    }

    /// Store `info` under its identifier: an entry already carrying that
    /// identifier is replaced in place, otherwise the entry is appended.
    pub fn insert(&mut self, info: DatasetInfo)
        requires
            old(self).wf(),
        ensures
            final(self).wf(),
            match find_idx(old(self).entries_seq(), info.id@) {
                Option::Some(k) => final(self).entries_seq() == old(self).entries_seq().update(
                    k,
                    info,
                ),
                Option::None => final(self).entries_seq() == old(self).entries_seq().push(info),
            },
    {
        let n = self.entries.len();
        let mut i: usize = 0;
        while i < n
            invariant
                i <= n,
                n == self.entries_seq().len(),
                self == old(self),
                old(self).wf(),
                find_idx(self.entries_seq(), info.id@) == find_from(
                    self.entries_seq(),
                    info.id@,
                    i as int,
                ),
            decreases n - i,
        {
            if self.entries[i].id == info.id {
                let ghost stored = info;
                let ghost before = self.entries_seq();
                self.entries.set(i, info);
                proof {
                    assert(before == old(self).entries_seq());
                    assert(self.entries_seq() == before.update(i as int, stored));
                    assert(stored.id@ == before[i as int].id@);
                    assert forall|a: int, b: int|
                        0 <= a < b < self.entries_seq().len() implies self.entries_seq()[a].id@
                        != self.entries_seq()[b].id@ by {
                        assert(old(self).entries_seq()[a].id@ != old(self).entries_seq()[b].id@);
                    }
                }
                return ;
            }
            i = i + 1;
        }
        let ghost stored = info;
        let ghost before = self.entries_seq();
        self.entries.push(info);
        proof {
            lemma_find_from(old(self).entries_seq(), stored.id@, 0);
            assert(before == old(self).entries_seq());
            assert(self.entries_seq() == before.push(stored));
            assert forall|a: int, b: int|
                0 <= a < b < self.entries_seq().len() implies self.entries_seq()[a].id@
                != self.entries_seq()[b].id@ by {
                if b < before.len() {
                    assert(old(self).entries_seq()[a].id@ != old(self).entries_seq()[b].id@);
                } else {
                    assert(old(self).entries_seq()[a].id@ != stored.id@);
                }
            }
        }
    }

    /// The entry carrying `id`, copied out, or the parameter error the
    /// boundary reports for an unknown identifier.
    pub fn lookup(&self, id: &String) -> (r: Result<DatasetInfo, FriedmanError>)
        ensures
            match find_idx(self.entries_seq(), id@) {
                Option::Some(k) => r matches Ok(info) && info_eq(info, self.entries_seq()[k]),
                Option::None => r matches Err(FriedmanError::InvalidParams(m)) && m@
                    == "Dataset not found: "@ + id@,
            },
    {
        match self.get(id) {
            Some(info) => Ok(info.clone()),
            None => {
                let mut m = String::from_str("Dataset not found: ");
                m.append(id.as_str());
                Err(FriedmanError::InvalidParams(m))
            },
        }
    }
}

/// Relies on uuid::Uuid::new_v4 and its hyphenated rendering: a randomly
/// generated identifier, formatted as 36 characters. The value is random,
/// so nothing is promised beyond its length.
#[verifier::external_body]
fn fresh_id() -> (r: String)
    ensures
        r@.len() == 36,
{
    uuid::Uuid::new_v4().to_string()
}

impl DatasetRegistry {
    /// Generate an identifier for a newly loaded dataset and store its
    /// entry. Whatever identifier came back, the entry is stored under it
    /// and the identifier is returned; all other entries are untouched.
    pub fn register(
        &mut self,
        name: String,
        path: String,
        columns: Vec<String>,
        row_count: usize,
    ) -> (id: String)
        requires
            old(self).wf(),
        ensures
            final(self).wf(),
            id@.len() == 36,
            exists|e: DatasetInfo|
                {
                    &&& #[trigger] stored_entry(e, id@, name, path, columns, row_count)
                    &&& match find_idx(old(self).entries_seq(), id@) {
                        Option::Some(k) => final(self).entries_seq() == old(
                            self,
                        ).entries_seq().update(k, e),
                        Option::None => final(self).entries_seq() == old(self).entries_seq().push(
                            e,
                        ),
                    }
                },
    {
        let id = fresh_id();
        let info = DatasetInfo {
            id: id.clone(),
            name,
            path,
            columns,
            row_count,
        };
        let ghost stored = info;
        self.insert(info);
        proof {
            assert(stored_entry(stored, id@, stored.name, stored.path, stored.columns, stored.row_count));
        }
        id
    }
}

/// Whether `e` is the entry registered from the given values.
pub open spec fn stored_entry(
    e: DatasetInfo,
    id: Seq<char>,
    name: String,
    path: String,
    columns: Vec<String>,
    row_count: usize,
) -> bool {
    &&& e.id@ == id
    &&& e.name@ == name@
    &&& e.path@ == path@
    &&& e.columns.deep_view() == columns.deep_view()
    &&& e.row_count == row_count
}

/// The shared application state: the dataset registry, guarded by the
/// boundary layer's lock.
pub struct AppState {
    pub datasets: DatasetRegistry,
}

impl Default for AppState {
    fn default() -> (r: Self)
        ensures
            r.datasets.entries_seq() == Seq::<DatasetInfo>::empty(),
            r.datasets.wf(),
    {
        AppState { datasets: DatasetRegistry::new() }
    }
}

} // verus!
