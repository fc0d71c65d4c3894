//! Selection handling: toggling catalog entries in and out of the user's
//! ordered selection, membership queries for the observer's highlighting,
//! and whether the whole selection tolerates a release build.

use vstd::prelude::*;

use crate::catalog::Catalog;
use crate::catalog::CommandGroup;
use crate::catalog::SelectedCommand;
use crate::catalog::spec_lookup;

verus! {

/// Toggles `candidate` in the selection. Without `extend` the selection is
/// replaced by the candidate alone; with `extend` the candidate is removed
/// at its first occurrence when present, and appended when absent.
pub fn toggle_selection(selection: &mut Vec<SelectedCommand>, candidate: SelectedCommand, extend: bool)
    ensures
        !extend ==> final(selection)@ == seq![candidate],
        extend && !old(selection)@.contains(candidate) ==> final(selection)@ == old(
            selection,
        )@.push(candidate),
        extend && old(selection)@.contains(candidate) ==> exists|i: int|
            {
                &&& 0 <= i < old(selection)@.len()
                &&& old(selection)@[i] == candidate
                &&& (forall|j: int| 0 <= j < i ==> old(selection)@[j] != candidate)
                &&& final(selection)@ == old(selection)@.remove(i)
            },
{
    if !extend {
        selection.clear();
    }
    let ghost base = selection@;
    let mut found: bool = false;
    let mut pos: usize = 0;
    let mut i: usize = 0;
    while i < selection.len() && !found
        invariant
            selection@ == base,
            i <= base.len(),
            !found ==> forall|j: int| 0 <= j < i ==> base[j] != candidate,
            found ==> {
                &&& pos < base.len()
                &&& base[pos as int] == candidate
                &&& forall|j: int| 0 <= j < pos ==> base[j] != candidate
            },
        decreases base.len() - i,
    {
        if selection[i] == candidate {
            found = true;
            pos = i;
        }
        i = i + 1;
    }
    if found {
        selection.remove(pos);
    } else {
        assert(!base.contains(candidate));
        selection.push(candidate);
    }
    if !extend {
        assert(selection@ =~= seq![candidate]);
    }
}

/// Whether the selection holds the entry at `index` of `group`.
pub fn is_selected(selection: &Vec<SelectedCommand>, group: CommandGroup, index: usize) -> (r: bool)
    ensures
        r == selection@.contains(SelectedCommand { group, index }),
{
    let candidate = SelectedCommand { group, index };
    let mut i: usize = 0;
    while i < selection.len()
        invariant
            candidate == (SelectedCommand { group, index }),
            i <= selection@.len(),
            forall|j: int| 0 <= j < i ==> selection@[j] != candidate,
        decreases selection@.len() - i,
    {
        if selection[i] == candidate {
            assert(selection@[i as int] == candidate);
            assert(selection@.contains(candidate));
            return true;
        }
        i = i + 1;
    }
    assert(!selection@.contains(candidate));
    false
}

/// The highlight flags of one whole catalog pane: for each of its `rows`,
/// whether the selection holds that row. The observer repaints a pane from
/// this.
pub fn selection_flags(selection: &Vec<SelectedCommand>, group: CommandGroup, rows: usize) -> (r:
    Vec<bool>)
    ensures
        r@.len() == rows,
        forall|j: int|
            0 <= j < rows ==> r@[j] == selection@.contains(
                SelectedCommand { group, index: j as usize },
            ),
{
    let mut flags: Vec<bool> = Vec::new();
    let mut row: usize = 0;
    while row < rows
        invariant
            row <= rows,
            flags@.len() == row,
            forall|j: int|
                0 <= j < row ==> flags@[j] == selection@.contains(
                    SelectedCommand { group, index: j as usize },
                ),
        decreases rows - row,
    {
        flags.push(is_selected(selection, group, row));
        row = row + 1;
    }
    flags
}

/// A selection tolerates a release build when every entry it resolves to
/// supports the release flag; stale rows that resolve to nothing are
/// ignored.
pub open spec fn spec_release_allowed(c: Catalog, sels: Seq<SelectedCommand>) -> bool {
    forall|i: int|
        0 <= i < sels.len() ==> (#[trigger] spec_lookup(
            c,
            sels[i].group,
            sels[i].index as int,
        ) matches Some(s) ==> s.supports_release)
}

/// Whether the release switch may stay enabled for this selection.
pub fn release_allowed(catalog: &Catalog, selection: &Vec<SelectedCommand>) -> (r: bool)
    ensures
        r == spec_release_allowed(*catalog, selection@),
{
    let mut allowed: bool = true;
    let mut i: usize = 0;
    while i < selection.len() && allowed
        invariant
            i <= selection@.len(),
            allowed ==> forall|j: int|
                0 <= j < i ==> (#[trigger] spec_lookup(
                    *catalog,
                    selection@[j].group,
                    selection@[j].index as int,
                ) matches Some(s) ==> s.supports_release),
            !allowed ==> exists|j: int|
                {
                    &&& 0 <= j < selection@.len()
                    &&& #[trigger] spec_lookup(
                        *catalog,
                        selection@[j].group,
                        selection@[j].index as int,
                    ) matches Some(s) && !s.supports_release
                },
        decreases selection@.len() - i,
    {
        let sel = selection[i];
        match catalog.lookup(sel.group, sel.index) {
            Some(s) => {
                if !s.supports_release {
                    allowed = false;
                }
            },
            None => {},
        }
        i = i + 1;
    }
    allowed
}

} // verus!
