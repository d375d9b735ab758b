//! The text the tool shows: the listing of points, its notices, and the
//! words of each refusal.
use vstd::prelude::*;
use crate::store::{ErrorModel, PointModel, TpError};

verus! {

/// Shown by a listing when there are no points.
pub const EMPTY_HINT: &'static str =
    "No teleport points have been made. You can make a teleport point with the following command:\n\ntp set \"<name>\"";

/// Shown when a single deletion is asked for without a name.
pub const MISSING_NAME_NOTICE: &'static str = "You must provide a name for the teleport point to delete";

/// One line of a listing: `name: path`.
pub open spec fn point_line(p: PointModel) -> Seq<char> {
    p.0 + ": "@ + p.1
}

/// The lines of the points `s`, each ended by a line break.
pub open spec fn lines_text(s: Seq<PointModel>) -> Seq<char>
    decreases s.len(),
{
    if s.len() == 0 {
        Seq::empty()
    } else {
        lines_text(s.drop_last()) + point_line(s.last()) + "\n"@
    }
}

/// What a listing of the points `s` prints: their lines, or the hint when
/// there are none.
pub open spec fn listing_text(s: Seq<PointModel>) -> Seq<char> {
    if s.len() == 0 {
        EMPTY_HINT@ + "\n"@
    } else {
        lines_text(s)
    }
}

/// The confirmation that `name` now leads to `dir`.
pub open spec fn set_notice_text(name: Seq<char>, dir: Seq<char>) -> Seq<char> {
    "Teleport point '"@ + name + "' set to '"@ + dir + "'"@
}

/// The notice that `name` is being deleted.
pub open spec fn deleting_notice_text(name: Seq<char>) -> Seq<char> {
    "Deleting teleport point '"@ + name + "'"@
}

/// The words of a refusal.
pub open spec fn error_text(e: ErrorModel) -> Seq<char> {
    match e {
        ErrorModel::NameTaken { name, existing_path } => "Teleport point '"@ + name
            + "' already exists and points to '"@ + existing_path + "'"@,
        ErrorModel::PathTaken { path, existing_name } => "Teleport point to '"@ + path
            + "' already exists with the name '"@ + existing_name + "'"@,
        ErrorModel::NotFound { name } => "Teleport point '"@ + name + "' not found"@,
    }
}

/// `a`, then `b` in single quotes, then `c`.
fn quote_between(a: &str, b: &str, c: &str) -> (r: String)
    ensures
        r@ == a@ + "'"@ + b@ + "'"@ + c@,
{
    let mut r = String::from_str(a);
    r.append("'");
    r.append(b);
    r.append("'");
    r.append(c);
    r
}

/// The confirmation printed once `name` leads to `dir`.
pub fn set_notice(name: &str, dir: &str) -> (r: String)
    ensures
        r@ == set_notice_text(name@, dir@),
{
    let mut r = quote_between("Teleport point ", name, " set to ");
    r.append("'");
    r.append(dir);
    r.append("'");
    proof {
        reveal_strlit("Teleport point ");
        reveal_strlit("Teleport point '");
        reveal_strlit(" set to ");
        reveal_strlit("' set to '");
        reveal_strlit("'");
        reveal_strlit("");
    }
    assert(r@ =~= set_notice_text(name@, dir@));
    r
}

/// The notice printed before `name` is deleted.
pub fn deleting_notice(name: &str) -> (r: String)
    ensures
        r@ == deleting_notice_text(name@),
{
    let r = quote_between("Deleting teleport point ", name, "");
    proof {
        reveal_strlit("Deleting teleport point ");
        reveal_strlit("Deleting teleport point '");
        reveal_strlit("'");
        reveal_strlit("");
    }
    assert(r@ =~= deleting_notice_text(name@));
    r
}

impl TpError {
    /// The words of this refusal, naming what is in the way.
    pub fn message(&self) -> (r: String)
        ensures
            r@ == error_text(self@),
    {
        proof {
            reveal_strlit("Teleport point ");
            reveal_strlit("Teleport point '");
            reveal_strlit("Teleport point to ");
            reveal_strlit("Teleport point to '");
            reveal_strlit(" already exists and points to ");
            reveal_strlit("' already exists and points to '");
            reveal_strlit(" already exists with the name ");
            reveal_strlit("' already exists with the name '");
            reveal_strlit(" not found");
            reveal_strlit("' not found");
            reveal_strlit("'");
            reveal_strlit("");
        }
        match self {
            TpError::NameTaken { name, existing_path } => {
                let mut r = quote_between("Teleport point ", name.as_str(), " already exists and points to ");
                r.append("'");
                r.append(existing_path.as_str());
                r.append("'");
                assert(r@ =~= error_text(self@));
                r
            },
            TpError::PathTaken { path, existing_name } => {
                let mut r = quote_between("Teleport point to ", path.as_str(), " already exists with the name ");
                r.append("'");
                r.append(existing_name.as_str());
                r.append("'");
                assert(r@ =~= error_text(self@));
                r
            },
            TpError::NotFound { name } => {
                let r = quote_between("Teleport point ", name.as_str(), " not found");
                assert(r@ =~= error_text(self@));
                r
            },
        }
    }
}

} // verus!
