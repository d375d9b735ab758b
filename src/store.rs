//! The bookmark store: a flat, ordered collection of name → path points.
use vstd::prelude::*;
use crate::text::{lines_text, listing_text, EMPTY_HINT};

verus! {

/// A point as the contracts see it: its name and its path.
pub type PointModel = (Seq<char>, Seq<char>);

/// A named bookmark of a directory.
pub struct TeleportPoint {
    pub name: String,
    pub path: String,
}

impl View for TeleportPoint {
    type V = PointModel;

    open spec fn view(&self) -> PointModel {
        (self.name@, self.path@)
    }
}

/// No two points share a name.
pub open spec fn names_distinct(s: Seq<PointModel>) -> bool {
    forall|i: int, j: int|
        0 <= i < s.len() && 0 <= j < s.len() && i != j ==> #[trigger] s[i].0 != #[trigger] s[j].0
}

/// Some point is called `n`.
pub open spec fn has_name(s: Seq<PointModel>, n: Seq<char>) -> bool {
    exists|i: int| 0 <= i < s.len() && #[trigger] s[i].0 == n
}

/// Some point leads to `d`.
pub open spec fn has_path(s: Seq<PointModel>, d: Seq<char>) -> bool {
    exists|i: int| 0 <= i < s.len() && #[trigger] s[i].1 == d
}

/// The position of the point called `n` (meaningful when `has_name(s, n)`).
pub open spec fn index_of_name(s: Seq<PointModel>, n: Seq<char>) -> int {
    choose|i: int| 0 <= i < s.len() && #[trigger] s[i].0 == n
}

/// `i` is the earliest position whose point leads to `d`.
pub open spec fn is_first_with_path(s: Seq<PointModel>, d: Seq<char>, i: int) -> bool {
    &&& 0 <= i < s.len()
    &&& s[i].1 == d
    &&& forall|j: int| 0 <= j < i ==> #[trigger] s[j].1 != d
}

/// The earliest position whose point leads to `d` (meaningful when `has_path(s, d)`).
pub open spec fn first_with_path(s: Seq<PointModel>, d: Seq<char>) -> int {
    choose|i: int| is_first_with_path(s, d, i)
}

/// Why an operation on the store was refused, as the contracts see it.
pub enum ErrorModel {
    NameTaken { name: Seq<char>, existing_path: Seq<char> },
    PathTaken { path: Seq<char>, existing_name: Seq<char> },
    NotFound { name: Seq<char> },
}

/// The broad class of a refusal.
#[derive(PartialEq, Eq, Structural, Clone, Copy, Debug)]
pub enum ErrorKind {
    AlreadyExists,
    NotFound,
}

/// Why an operation on the store was refused.
#[derive(Debug)]
pub enum TpError {
    /// The name is already in use; `existing_path` is where it leads.
    NameTaken { name: String, existing_path: String },
    /// The directory already has a point; `existing_name` is that point's name.
    PathTaken { path: String, existing_name: String },
    /// No point has this name.
    NotFound { name: String },
}

impl View for TpError {
    type V = ErrorModel;

    open spec fn view(&self) -> ErrorModel {
        match self {
            TpError::NameTaken { name, existing_path } => ErrorModel::NameTaken {
                name: name@,
                existing_path: existing_path@,
            },
            TpError::PathTaken { path, existing_name } => ErrorModel::PathTaken {
                path: path@,
                existing_name: existing_name@,
            },
            TpError::NotFound { name } => ErrorModel::NotFound { name: name@ },
        }
    }
}

impl ErrorModel {
    pub open spec fn kind(self) -> ErrorKind {
        match self {
            ErrorModel::NotFound { .. } => ErrorKind::NotFound,
            _ => ErrorKind::AlreadyExists,
        }
    }
}

impl TpError {
    /// A taken name or a taken path is `AlreadyExists`; a missing name is `NotFound`.
    pub fn kind(&self) -> (r: ErrorKind)
        ensures
            r == self@.kind(),
    {
        match self {
            TpError::NotFound { .. } => ErrorKind::NotFound,
            _ => ErrorKind::AlreadyExists,
        }
    }
}

/// The path of the point called `n` (meaningful when `has_name(s, n)`).
pub open spec fn path_of(s: Seq<PointModel>, n: Seq<char>) -> Seq<char> {
    s[index_of_name(s, n)].1
}

/// What creating the point `n` → `d` does to the points `s`: a refused
/// name comes first, then a refused path, else the point is added last.
pub open spec fn set_outcome(s: Seq<PointModel>, n: Seq<char>, d: Seq<char>) -> Result<
    Seq<PointModel>,
    ErrorModel,
> {
    if has_name(s, n) {
        Err(ErrorModel::NameTaken { name: n, existing_path: path_of(s, n) })
    } else if has_path(s, d) {
        Err(ErrorModel::PathTaken { path: d, existing_name: s[first_with_path(s, d)].0 })
    } else {
        Ok(s.push((n, d)))
    }
}

/// What resolving the name `n` gives.
pub open spec fn resolve_outcome(s: Seq<PointModel>, n: Seq<char>) -> Result<Seq<char>, ErrorModel> {
    if has_name(s, n) {
        Ok(path_of(s, n))
    } else {
        Err(ErrorModel::NotFound { name: n })
    }
}

/// What deleting the name `n` does to the points `s`.
pub open spec fn delete_outcome(s: Seq<PointModel>, n: Seq<char>) -> Result<
    Seq<PointModel>,
    ErrorModel,
> {
    if has_name(s, n) {
        Ok(s.remove(index_of_name(s, n)))
    } else {
        Err(ErrorModel::NotFound { name: n })
    }
}

/// `r`, with the store going from `before` to `after`, is what the outcome `o` says:
/// on success the store becomes the new points; on refusal it stays as it was.
pub open spec fn follows_outcome(
    r: Result<(), TpError>,
    before: Seq<PointModel>,
    after: Seq<PointModel>,
    o: Result<Seq<PointModel>, ErrorModel>,
) -> bool {
    match o {
        Ok(t) => r is Ok && after == t,
        Err(e) => after == before && match r {
            Ok(_) => false,
            Err(x) => x@ == e,
        },
    }
}

/// With distinct names, a position holding `n` is the one `index_of_name` picks.
proof fn lemma_index_of_name(s: Seq<PointModel>, n: Seq<char>, i: int)
    requires
        names_distinct(s),
        0 <= i < s.len(),
        s[i].0 == n,
    ensures
        index_of_name(s, n) == i,
{
    assert(has_name(s, n));
}

/// The earliest position leading to `d` is the one `first_with_path` picks.
proof fn lemma_first_with_path(s: Seq<PointModel>, d: Seq<char>, i: int)
    requires
        is_first_with_path(s, d, i),
    ensures
        first_with_path(s, d) == i,
{
    let k = first_with_path(s, d);
    assert(is_first_with_path(s, d, k));
    if k < i {
        assert(s[k].1 != d);
    } else if i < k {
        assert(s[i].1 != d);
    }
}

/// What `str::trim` makes of a text: the text without leading and trailing
/// white space.
pub uninterp spec fn trimmed(s: Seq<char>) -> Seq<char>;

/// Relies on `str::trim` (then `str::to_string`): a copy of the text without
/// its leading and trailing white space, which depends on the text alone.
#[verifier::external_body]
fn trim_text(s: &str) -> (r: String)
    ensures
        r@ == trimmed(s@),
{
    s.trim().to_string()
}

/// What a delete command asks for.
pub enum DeleteRequest {
    /// Remove every point.
    All,
    /// Remove the point with this name.
    One(String),
    /// Neither a name nor "all" was given.
    MissingName,
}

/// Reads a delete command: "all" wins over a name; with neither, the name
/// is missing.
pub fn delete_request(name: Option<String>, all: bool) -> (r: DeleteRequest)
    ensures
        all ==> r is All,
        !all && name is None ==> r is MissingName,
        !all && name is Some ==> (r matches DeleteRequest::One(n) && n@ == name->Some_0@),
{
    if all {
        DeleteRequest::All
    } else {
        match name {
            Some(n) => DeleteRequest::One(n),
            None => DeleteRequest::MissingName,
        }
    }
}

/// The points of a store, in the order in which they were found or made.
pub struct PointStore {
    points: Vec<TeleportPoint>,
}

impl View for PointStore {
    type V = Seq<PointModel>;

    closed spec fn view(&self) -> Seq<PointModel> {
        self.points@.map_values(|p: TeleportPoint| p@)
    }
}

impl PointStore {
    /// Every store keeps its names distinct.
    pub open spec fn wf(&self) -> bool {
        names_distinct(self@)
    }

    /// A store with no points.
    pub fn new() -> (r: PointStore)
        ensures
            r.wf(),
            r@ == Seq::<PointModel>::empty(),
    {
        let r = PointStore { points: Vec::new() };
        assert(r@ =~= Seq::<PointModel>::empty());
        r
    }

    /// The position of the point called `name`, if any.
    fn position_of_name(&self, name: &String) -> (r: Option<usize>)
        ensures
            r matches Some(i) ==> i < self@.len() && self@[i as int].0 == name@,
            r is None ==> !has_name(self@, name@),
    {
        let mut i: usize = 0;
        while i < self.points.len()
            invariant
                0 <= i <= self.points@.len(),
                self@.len() == self.points@.len(),
                forall|j: int| 0 <= j < i ==> #[trigger] self@[j].0 != name@,
            decreases self.points@.len() - i,
        {
            if self.points[i].name == *name {
                return Some(i);
            }
            i = i + 1;
        }
        None
    }

    /// The earliest position whose point leads to `dir`, if any.
    fn first_position_of_path(&self, dir: &String) -> (r: Option<usize>)
        ensures
            r matches Some(i) ==> is_first_with_path(self@, dir@, i as int),
            r is None ==> !has_path(self@, dir@),
    {
        let mut i: usize = 0;
        while i < self.points.len()
            invariant
                0 <= i <= self.points@.len(),
                self@.len() == self.points@.len(),
                forall|j: int| 0 <= j < i ==> #[trigger] self@[j].1 != dir@,
            decreases self.points@.len() - i,
        {
            if self.points[i].path == *dir {
                return Some(i);
            }
            i = i + 1;
        }
        None
    }

    /// Creates the point `name` → `dir`. It is refused when the name is
    /// taken (the error gives the path it leads to), or else when another
    /// point already leads to `dir` (the error names the earliest such point).
    pub fn set(&mut self, name: &str, dir: &str) -> (r: Result<(), TpError>)
        requires
            old(self).wf(),
        ensures
            final(self).wf(),
            follows_outcome(r, old(self)@, final(self)@, set_outcome(old(self)@, name@, dir@)),
    {
        let name = String::from_str(name);
        let dir = String::from_str(dir);
        match self.position_of_name(&name) {
            Some(i) => {
                proof {
                    lemma_index_of_name(self@, name@, i as int);
                }
                let existing_path = self.points[i].path.clone();
                return Err(TpError::NameTaken { name, existing_path });
            },
            None => {},
        }
        match self.first_position_of_path(&dir) {
            Some(i) => {
                proof {
                    lemma_first_with_path(self@, dir@, i as int);
                }
                let existing_name = self.points[i].name.clone();
                return Err(TpError::PathTaken { path: dir, existing_name });
            },
            None => {},
        }
        let ghost before = self@;
        self.points.push(TeleportPoint { name, path: dir });
        assert(self@ =~= before.push((name@, dir@)));
        Ok(())
    }

    /// Adds a point read back from storage: `contents` is the stored text,
    /// whose surrounding white space is dropped. A name already in the store
    /// keeps its first point; the result says whether the point was added.
    pub fn load_entry(&mut self, name: String, contents: &str) -> (r: bool)
        requires
            old(self).wf(),
        ensures
            final(self).wf(),
            r == !has_name(old(self)@, name@),
            r ==> final(self)@ == old(self)@.push((name@, trimmed(contents@))),
            !r ==> final(self)@ == old(self)@,
    {
        match self.position_of_name(&name) {
            Some(_) => false,
            None => {
                let path = trim_text(contents);
                let ghost before = self@;
                self.points.push(TeleportPoint { name, path });
                assert(self@ =~= before.push((name@, trimmed(contents@))));
                true
            },
        }
    }

    /// The path of the point called `name`, or `NotFound`.
    pub fn resolve(&self, name: &str) -> (r: Result<String, TpError>)
        requires
            self.wf(),
        ensures
            match resolve_outcome(self@, name@) {
                Ok(p) => r matches Ok(x) && x@ == p,
                Err(e) => r matches Err(x) && x@ == e,
            },
    {
        let name = String::from_str(name);
        match self.position_of_name(&name) {
            Some(i) => {
                proof {
                    lemma_index_of_name(self@, name@, i as int);
                }
                Ok(self.points[i].path.clone())
            },
            None => Err(TpError::NotFound { name }),
        }
    }

    /// Removes the point called `name`, or fails with `NotFound`.
    pub fn delete(&mut self, name: &str) -> (r: Result<(), TpError>)
        requires
            old(self).wf(),
        ensures
            final(self).wf(),
            follows_outcome(r, old(self)@, final(self)@, delete_outcome(old(self)@, name@)),
    {
        let name = String::from_str(name);
        match self.position_of_name(&name) {
            Some(i) => {
                let ghost before = self@;
                proof {
                    lemma_index_of_name(before, name@, i as int);
                }
                self.points.remove(i);
                assert(self@ =~= before.remove(i as int));
                assert forall|a: int, b: int|
                    0 <= a < self@.len() && 0 <= b < self@.len() && a != b implies
                    #[trigger] self@[a].0 != #[trigger] self@[b].0 by {
                    let a0 = if a < i { a } else { a + 1 };
                    let b0 = if b < i { b } else { b + 1 };
                    assert(before[a0].0 != before[b0].0);
                }
                Ok(())
            },
            None => Err(TpError::NotFound { name }),
        }
    }

    /// Removes every point.
    pub fn delete_all(&mut self)
        ensures
            final(self).wf(),
            final(self)@ == Seq::<PointModel>::empty(),
    {
        self.points = Vec::new();
        assert(self@ =~= Seq::<PointModel>::empty());
    }

    /// What a listing prints: one `name: path` line per point, in order, or
    /// the hint when the store is empty.
    pub fn listing(&self) -> (r: String)
        ensures
            r@ == listing_text(self@),
    {
        if self.points.len() == 0 {
            let mut r = String::from_str(EMPTY_HINT);
            r.append("\n");
            return r;
        }
        let mut r = String::new();
        let mut i: usize = 0;
        while i < self.points.len()
            invariant
                0 <= i <= self.points@.len(),
                self@.len() == self.points@.len(),
                r@ == lines_text(self@.take(i as int)),
            decreases self.points@.len() - i,
        {
            let p = &self.points[i];
            r.append(p.name.as_str());
            r.append(": ");
            r.append(p.path.as_str());
            r.append("\n");
            assert(self@.take(i + 1).drop_last() =~= self@.take(i as int));
            i = i + 1;
        }
        assert(self@.take(i as int) =~= self@);
        r
    }

    /// How many points the store holds.
    pub fn len(&self) -> (r: usize)
        ensures
            r == self@.len(),
    {
        self.points.len()
    }
}

} // verus!
