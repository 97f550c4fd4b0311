//! Where the working copies of a run live: the temporary root, and below it
//! one directory for each branch.

use vstd::prelude::*;
use vstd::string::StringExecFns;

use crate::error::{branch_text, Branch};
use crate::reference::Reference;

verus! {

/// The directory below which a run creates its working copies.
#[derive(Debug, PartialEq, Eq)]
pub enum Tempdir {
    /// A directory that the caller named. It outlives the run.
    Provided(String),
    /// A fresh private directory, made for this run and removed when the
    /// run completes.
    Generated(String),
}

impl Tempdir {
    /// The path of the directory.
    pub open spec fn path_view(&self) -> Seq<char> {
        match self {
            Tempdir::Provided(path) => path@,
            Tempdir::Generated(path) => path@,
        }
    }

    /// The path of the directory.
    pub fn path(&self) -> (path: &str)
        ensures
            path@ == self.path_view(),
    {
        match self {
            Tempdir::Provided(path) => path.as_str(),
            Tempdir::Generated(path) => path.as_str(),
        }
    }

    /// Whether the directory was made for this run, and so is to be removed
    /// when the run completes.
    pub fn is_generated(&self) -> (generated: bool)
        ensures
            generated == (*self is Generated),
    {
        match self {
            Tempdir::Provided(_) => false,
            Tempdir::Generated(_) => true,
        }
    }
}

/// The directory of a branch's working copy below `root`: the directory of
/// the branch's name.
pub open spec fn copy_dir(root: Seq<char>, branch: Branch) -> Seq<char> {
    root + "/"@ + branch_text(branch)
}

/// The mathematical value of a [`WorkingCopy`].
pub struct WorkingCopyView {
    pub branch: Branch,
    pub reference: Seq<char>,
    pub dir: Seq<char>,
}

/// The place of one revision's working copy: the branch it serves, the
/// reference it is populated from, and its directory.
#[derive(Debug, PartialEq, Eq)]
pub struct WorkingCopy {
    pub branch: Branch,
    pub reference: Reference,
    pub dir: String,
}

impl View for WorkingCopy {
    type V = WorkingCopyView;

    open spec fn view(&self) -> WorkingCopyView {
        WorkingCopyView { branch: self.branch, reference: self.reference@, dir: self.dir@ }
    }
}

impl Clone for WorkingCopy {
    fn clone(&self) -> (copy: Self)
        ensures
            copy@ == self@,
    {
        WorkingCopy {
            branch: self.branch,
            reference: self.reference.clone(),
            dir: self.dir.clone(),
        }
    }
}

impl WorkingCopy {
    /// The working copy of `branch` below `root`, to be populated from
    /// `reference`.
    pub fn under(root: &Tempdir, branch: Branch, reference: Reference) -> (copy: WorkingCopy)
        ensures
            copy@ == (WorkingCopyView {
                branch,
                reference: reference@,
                dir: copy_dir(root.path_view(), branch),
            }),
    {
        let mut dir = root.path().to_owned();
        dir.append("/");
        dir.append(branch.name());
        WorkingCopy { branch, reference, dir }
    }
}

/// The working copies of the two branches are apart: below one root their
/// directories differ, and neither path begins with the other, so neither
/// directory lies within the other.
pub proof fn law_working_copies_are_apart(root: Seq<char>)
    ensures
        copy_dir(root, Branch::Base) != copy_dir(root, Branch::Target),
        !copy_dir(root, Branch::Base).is_prefix_of(copy_dir(root, Branch::Target)),
        !copy_dir(root, Branch::Target).is_prefix_of(copy_dir(root, Branch::Base)),
{
    reveal_strlit("/");
    reveal_strlit("base");
    reveal_strlit("target");
    let base = copy_dir(root, Branch::Base);
    let target = copy_dir(root, Branch::Target);
    let at = root.len() as int + 1;
    assert(base[at] == 'b');
    assert(target[at] == 't');
    assert(base.len() == root.len() + 5);
    assert(target.len() == root.len() + 7);
    if base.is_prefix_of(target) {
        assert(target.subrange(0, base.len() as int)[at] == base[at]);
    }
    if target.is_prefix_of(base) {
        assert(target.len() <= base.len());
    }
}

} // verus!
