//! The version store's state machine: the set of installed version
//! directories plus the at-most-one active link, with the transitions that
//! `use`, `uninstall` and a finished `install` perform on it. The surrounding
//! code mirrors each transition onto the filesystem.
use vstd::prelude::*;

use crate::errors::EvmError;
use crate::platform::str_eq;

verus! {

/// One line of a local listing: a version name and whether it is the active
/// one.
pub struct LocalVersion {
    pub name: String,
    pub active: bool,
}

/// The observable state of a versions root: the names of its real version
/// directories, and the name the `current` link resolves to, if the link
/// exists.
pub struct StoreModel {
    pub installed: Vec<String>,
    pub active: Option<String>,
}

impl StoreModel {
    /// A version of this name is installed.
    pub open spec fn is_installed(self, v: Seq<char>) -> bool {
        exists|i: int| 0 <= i < self.installed@.len() && self.installed@[i]@ == v
    }

    /// The name the active link resolves to, if any.
    pub open spec fn active_name(self) -> Option<Seq<char>> {
        match self.active {
            Some(a) => Some(a@),
            None => None,
        }
    }

    /// Well-formedness: installed names are distinct directories, and the
    /// active link, when present, resolves to an installed version.
    pub open spec fn wf(self) -> bool {
        &&& forall|i: int, j: int|
            0 <= i < j < self.installed@.len() ==> self.installed@[i]@ != self.installed@[j]@
        &&& match self.active {
            Some(a) => self.is_installed(a@),
            None => true,
        }
    }

    /// The index of the installed version of this name, if any.
    pub fn find_installed(&self, v: &str) -> (r: Option<usize>)
        ensures
            match r {
                Some(i) => i < self.installed@.len() && self.installed@[i as int]@ == v@,
                None => !self.is_installed(v@),
            },
    {
        let mut i: usize = 0;
        while i < self.installed.len()
            invariant
                0 <= i <= self.installed@.len(),
                forall|k: int| 0 <= k < i ==> self.installed@[k]@ != v@,
            decreases self.installed@.len() - i,
        {
            if str_eq(self.installed[i].as_str(), v) {
                return Some(i);
            }
            i = i + 1;
        }
        None
    }

    /// Switches the active link to the named version: fails with
    /// `VersionNotFound` and changes nothing when the version is not
    /// installed; otherwise the link is replaced so that it resolves to
    /// exactly that version, and the installed directories are untouched.
    pub fn use_version(&mut self, v: &str) -> (r: Result<(), EvmError>)
        requires
            old(self).wf(),
        ensures
            final(self).wf(),
            r is Ok <==> old(self).is_installed(v@),
            r is Ok ==> final(self).installed == old(self).installed && final(self).active_name()
                == Some(v@),
            r is Err ==> *final(self) == *old(self),
            r matches Err(e) ==> e == EvmError::VersionNotFound,
    {
        match self.find_installed(v) {
            Some(i) => {
                self.active = Some(String::from_str(v));
                proof {
                    assert(self.installed@[i as int]@ == v@);
                    assert(self.is_installed(v@));
                }
                Ok(())
            },
            None => Err(EvmError::VersionNotFound),
        }
    }

    /// Removes the named version's directory, if present; when the active
    /// link resolves to exactly that version, the link goes with it, and
    /// otherwise the link is untouched. Other versions are never affected.
    /// Returns whether a directory was removed.
    pub fn uninstall_one(&mut self, v: &str) -> (removed: bool)
        requires
            old(self).wf(),
        ensures
            final(self).wf(),
            removed == old(self).is_installed(v@),
            !final(self).is_installed(v@),
            forall|w: Seq<char>|
                w != v@ ==> (final(self).is_installed(w) <==> old(self).is_installed(w)),
            old(self).active_name() == Some(v@) ==> final(self).active is None,
            old(self).active_name() != Some(v@) ==> final(self).active == old(self).active,
    {
        match self.find_installed(v) {
            Some(i) => {
                self.installed.remove(i);
                let deactivate = match &self.active {
                    Some(a) => str_eq(a.as_str(), v),
                    None => false,
                };
                if deactivate {
                    self.active = None;
                }
                proof {
                    let removed_seq = old(self).installed@.remove(i as int);
                    assert(self.installed@ == removed_seq);
                    assert forall|w: Seq<char>| w != v@ implies (self.is_installed(w)
                        <==> old(self).is_installed(w)) by {
                        if old(self).is_installed(w) {
                            let j = choose|j: int|
                                0 <= j < old(self).installed@.len() && old(
                                    self,
                                ).installed@[j]@ == w;
                            assert(j != i);
                            if j < i {
                                assert(removed_seq[j]@ == w);
                            } else {
                                assert(removed_seq[j - 1]@ == w);
                            }
                        }
                        if self.is_installed(w) {
                            let j = choose|j: int|
                                0 <= j < removed_seq.len() && removed_seq[j]@ == w;
                            if j < i {
                                assert(old(self).installed@[j]@ == w);
                            } else {
                                assert(old(self).installed@[j + 1]@ == w);
                            }
                        }
                    }
                    assert(!self.is_installed(v@)) by {
                        if self.is_installed(v@) {
                            let j = choose|j: int|
                                0 <= j < removed_seq.len() && removed_seq[j]@ == v@;
                            if j < i {
                                assert(old(self).installed@[j]@ == v@);
                                assert(old(self).installed@[i as int]@ == v@);
                            } else {
                                assert(old(self).installed@[j + 1]@ == v@);
                                assert(old(self).installed@[i as int]@ == v@);
                            }
                        }
                    }
                    if self.active is Some {
                        let a = self.active->0;
                        assert(a@ != v@);
                        assert(old(self).is_installed(a@));
                        assert(self.is_installed(a@));
                    }
                }
                true
            },
            None => {
                proof {
                    if old(self).active_name() == Some(v@) {
                        assert(old(self).is_installed(v@));
                    }
                }
                false
            },
        }
    }

    /// Records a finished install of the named version: afterwards it is
    /// installed, every other version is exactly as before, and the active
    /// link is untouched. Reinstalling an installed version leaves the same
    /// names.
    pub fn register_install(&mut self, v: &str)
        requires
            old(self).wf(),
        ensures
            final(self).wf(),
            final(self).is_installed(v@),
            forall|w: Seq<char>|
                w != v@ ==> (final(self).is_installed(w) <==> old(self).is_installed(w)),
            final(self).active == old(self).active,
    {
        match self.find_installed(v) {
            Some(_) => {},
            None => {
                self.installed.push(String::from_str(v));
                proof {
                    assert(self.installed@[self.installed@.len() - 1]@ == v@);
                    assert forall|w: Seq<char>| w != v@ implies (self.is_installed(w)
                        <==> old(self).is_installed(w)) by {
                        if self.is_installed(w) {
                            let j = choose|j: int|
                                0 <= j < self.installed@.len() && self.installed@[j]@ == w;
                            assert(j < old(self).installed@.len());
                            assert(old(self).installed@[j]@ == w);
                        }
                        if old(self).is_installed(w) {
                            let j = choose|j: int|
                                0 <= j < old(self).installed@.len() && old(
                                    self,
                                ).installed@[j]@ == w;
                            assert(self.installed@[j]@ == w);
                        }
                    }
                    if old(self).active is Some {
                        let a = old(self).active->0;
                        assert(old(self).is_installed(a@));
                        assert(self.is_installed(a@));
                    }
                }
            },
        }
    }

    /// Lists the installed versions in directory order, each flagged as
    /// active exactly when the active link resolves to it.
    pub fn list_local(&self) -> (r: Vec<LocalVersion>)
        ensures
            r@.len() == self.installed@.len(),
            forall|i: int|
                0 <= i < r@.len() ==> r@[i].name@ == self.installed@[i]@ && (r@[i].active
                    <==> self.active_name() == Some(self.installed@[i]@)),
    {
        let mut lines: Vec<LocalVersion> = Vec::new();
        let mut i: usize = 0;
        while i < self.installed.len()
            invariant
                0 <= i <= self.installed@.len(),
                lines@.len() == i,
                forall|k: int|
                    0 <= k < i ==> lines@[k].name@ == self.installed@[k]@ && (lines@[k].active
                        <==> self.active_name() == Some(self.installed@[k]@)),
            decreases self.installed@.len() - i,
        {
            let flag = match &self.active {
                Some(a) => str_eq(a.as_str(), self.installed[i].as_str()),
                None => false,
            };
            lines.push(LocalVersion { name: self.installed[i].clone(), active: flag });
            i = i + 1;
        }
        lines
    }
}

/// Law: in a well-formed store whose active link resolves to `v`, a local
/// listing marks exactly one entry as active, and that entry is named `v`.
/// With `use_version`'s contract, `use(v)` followed by `list_local` therefore
/// marks exactly `v`, and repeated `use` calls never mark two entries.
pub proof fn lemma_exactly_one_active(m: StoreModel, listing: Seq<LocalVersion>, v: Seq<char>)
    requires
        m.wf(),
        m.active_name() == Some(v),
        listing.len() == m.installed@.len(),
        forall|i: int|
            0 <= i < listing.len() ==> listing[i].name@ == m.installed@[i]@ && (listing[i].active
                <==> m.active_name() == Some(m.installed@[i]@)),
    ensures
        exists|i: int| 0 <= i < listing.len() && listing[i].active && listing[i].name@ == v,
        forall|i: int, j: int|
            0 <= i < listing.len() && 0 <= j < listing.len() && listing[i].active
                && listing[j].active ==> i == j,
{
    assert(m.is_installed(v));
    let i = choose|i: int| 0 <= i < m.installed@.len() && m.installed@[i]@ == v;
    assert(listing[i].active && listing[i].name@ == v);
    assert forall|a: int, b: int|
        0 <= a < listing.len() && 0 <= b < listing.len() && listing[a].active
            && listing[b].active implies a == b by {
        assert(m.installed@[a]@ == v);
        assert(m.installed@[b]@ == v);
        if a < b {
            assert(m.installed@[a]@ != m.installed@[b]@);
        }
        if b < a {
            assert(m.installed@[b]@ != m.installed@[a]@);
        }
    }
}

/// The effect of a finished install on the versions tree: the version's
/// directory is replaced wholesale with the unpacked payload — an existing
/// directory is removed first, never merged into.
pub open spec fn apply_install_dir<C>(
    tree: Map<Seq<char>, C>,
    name: Seq<char>,
    payload: C,
) -> Map<Seq<char>, C> {
    tree.remove(name).insert(name, payload)
}

/// Law: installing a version twice in succession leaves the same tree — the
/// same directories with the same contents — as installing it once.
pub proof fn lemma_install_idempotent<C>(tree: Map<Seq<char>, C>, name: Seq<char>, payload: C)
    ensures
        apply_install_dir(apply_install_dir(tree, name, payload), name, payload)
            == apply_install_dir(tree, name, payload),
{
    assert(apply_install_dir(apply_install_dir(tree, name, payload), name, payload)
        =~= apply_install_dir(tree, name, payload));
}

} // verus!
