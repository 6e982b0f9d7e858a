use crate::record::PasswordData;
use vstd::prelude::*;

verus! {

/// The tab a viewer shows: live records, archived ones, or those with one tag.
#[derive(Debug, Clone, Copy, PartialEq, Eq, Structural)]
pub enum SelectedTag {
    All,
    Archive,
    Tag(usize),
}

/// The tabs: the selected one and the tags that records carry.
#[derive(Debug)]
pub struct Tag {
    pub selected: SelectedTag,
    pub tags: Vec<String>,
}

/// The tab after `s`, cycling All, Archive, then each tag in order.
pub open spec fn next_tab(s: SelectedTag, n: nat) -> SelectedTag {
    match s {
        SelectedTag::All => SelectedTag::Archive,
        SelectedTag::Archive => if n == 0 { SelectedTag::All } else { SelectedTag::Tag(0) },
        SelectedTag::Tag(i) => if i + 1 < n { SelectedTag::Tag((i + 1) as usize) } else { SelectedTag::All },
    }
}

/// The tab before `s`, in the same cycle.
pub open spec fn prev_tab(s: SelectedTag, n: nat) -> SelectedTag {
    match s {
        SelectedTag::All => if n == 0 { SelectedTag::Archive } else { SelectedTag::Tag((n - 1) as usize) },
        SelectedTag::Archive => SelectedTag::All,
        SelectedTag::Tag(i) => if i == 0 { SelectedTag::Archive } else { SelectedTag::Tag((i - 1) as usize) },
    }
}

/// Moving back a tab undoes moving forward one, and the other way round.
pub proof fn tab_moves_invert(s: SelectedTag, n: nat)
    requires
        n <= usize::MAX,
        s matches SelectedTag::Tag(i) ==> i < n,
    ensures
        prev_tab(next_tab(s, n), n) == s,
        next_tab(prev_tab(s, n), n) == s,
{
}

impl Tag {
    /// A selected tag exists.
    pub open spec fn wf(&self) -> bool {
        self.selected matches SelectedTag::Tag(i) ==> i < self.tags@.len()
    }

    pub fn next(&mut self)
        requires
            old(self).wf(),
        ensures
            final(self).wf(),
            final(self).tags == old(self).tags,
            final(self).selected == next_tab(old(self).selected, old(self).tags@.len()),
    {
        self.selected = match self.selected {
            SelectedTag::All => SelectedTag::Archive,
            SelectedTag::Archive => if self.tags.len() == 0 {
                SelectedTag::All
            } else {
                SelectedTag::Tag(0)
            },
            SelectedTag::Tag(i) => if i < self.tags.len() - 1 {
                SelectedTag::Tag(i + 1)
            } else {
                SelectedTag::All
            },
        };
    }

    pub fn prev(&mut self)
        requires
            old(self).wf(),
        ensures
            final(self).wf(),
            final(self).tags == old(self).tags,
            final(self).selected == prev_tab(old(self).selected, old(self).tags@.len()),
    {
        self.selected = match self.selected {
            SelectedTag::All => if self.tags.len() == 0 {
                SelectedTag::Archive
            } else {
                SelectedTag::Tag(self.tags.len() - 1)
            },
            SelectedTag::Archive => SelectedTag::All,
            SelectedTag::Tag(i) => if i == 0 {
                SelectedTag::Archive
            } else {
                SelectedTag::Tag(i - 1)
            },
        };
    }
}

/// A list and the index of its highlighted item, if any.
#[derive(Debug)]
pub struct ListData<T> {
    pub selected: Option<usize>,
    pub items: Vec<T>,
}

/// The index after a selection, wrapping to the first item.
pub open spec fn next_index(s: Option<usize>, n: nat) -> Option<usize> {
    if n == 0 {
        s
    } else {
        match s {
            Some(i) => if i + 1 >= n { Some(0) } else { Some((i + 1) as usize) },
            None => Some(0),
        }
    }
}

/// The index before a selection, wrapping to the last item.
pub open spec fn prev_index(s: Option<usize>, n: nat) -> Option<usize> {
    if n == 0 {
        s
    } else {
        match s {
            Some(i) => if i == 0 { Some((n - 1) as usize) } else { Some((i - 1) as usize) },
            None => Some(0),
        }
    }
}

impl<T> ListData<T> {
    pub fn new(items: Vec<T>) -> (r: Self)
        ensures
            r.selected is None,
            r.items@ == items@,
    {
        ListData { selected: None, items }
    }

    pub fn next(&mut self)
        ensures
            final(self).items@ == old(self).items@,
            final(self).selected == next_index(old(self).selected, old(self).items@.len()),
    {
        let n = self.items.len();
        if n == 0 {
            return;
        }
        let i = match self.selected {
            Some(i) => if i >= n - 1 { 0 } else { i + 1 },
            None => 0,
        };
        self.selected = Some(i);
    }

    pub fn prev(&mut self)
        ensures
            final(self).items@ == old(self).items@,
            final(self).selected == prev_index(old(self).selected, old(self).items@.len()),
    {
        let n = self.items.len();
        if n == 0 {
            return;
        }
        let i = match self.selected {
            Some(i) => if i == 0 { n - 1 } else { i - 1 },
            None => 0,
        };
        self.selected = Some(i);
    }

    pub fn unselect(&mut self)
        ensures
            final(self).items@ == old(self).items@,
            final(self).selected is None,
    {
        self.selected = None;
    }
}

/// Whether a record shows under a tab: archived ones only under Archive, the
/// others under All and under each tag they carry.
pub open spec fn shown_under(d: PasswordData, tab: SelectedTag, tags: Seq<String>) -> bool {
    let archived = d.archive == Some(true);
    match tab {
        SelectedTag::All => !archived,
        SelectedTag::Archive => archived,
        SelectedTag::Tag(i) => !archived && match d.tags {
            Some(t) => exists|k: int| 0 <= k < t@.len() && #[trigger] t@[k]@ == tags[i as int]@,
            None => false,
        },
    }
}

fn has_tag(tags: &Vec<String>, tag: &String) -> (r: bool)
    ensures
        r == exists|k: int| 0 <= k < tags@.len() && #[trigger] tags@[k]@ == tag@,
{
    let mut i: usize = 0;
    while i < tags.len()
        invariant
            0 <= i <= tags@.len(),
            forall|k: int| 0 <= k < i ==> #[trigger] tags@[k]@ != tag@,
        decreases tags@.len() - i,
    {
        if tags[i] == *tag {
            return true;
        }
        i = i + 1;
    }
    false
}

impl Tag {
    /// The positions, in order, of the records that the selected tab shows.
    pub fn visible(&self, records: &Vec<PasswordData>) -> (r: Vec<usize>)
        requires
            self.wf(),
        ensures
            forall|k: int| 0 <= k < r@.len() ==> r@[k] < records@.len(),
            forall|k: int, l: int| 0 <= k < l < r@.len() ==> r@[k] < r@[l],
            forall|j: int|
                0 <= j < records@.len() ==> (shown_under(#[trigger] records@[j], self.selected, self.tags@)
                    <==> r@.contains(j as usize)),
    {
        let mut out: Vec<usize> = Vec::new();
        let mut j: usize = 0;
        while j < records.len()
            invariant
                self.wf(),
                0 <= j <= records@.len(),
                forall|k: int| 0 <= k < out@.len() ==> out@[k] < j,
                forall|k: int, l: int| 0 <= k < l < out@.len() ==> out@[k] < out@[l],
                forall|x: int|
                    0 <= x < j ==> (shown_under(#[trigger] records@[x], self.selected, self.tags@)
                        <==> out@.contains(x as usize)),
            decreases records@.len() - j,
        {
            let d = &records[j];
            let archived = match d.archive {
                Some(a) => a,
                None => false,
            };
            let shown = match self.selected {
                SelectedTag::All => !archived,
                SelectedTag::Archive => archived,
                SelectedTag::Tag(i) => !archived && match &d.tags {
                    Some(t) => has_tag(t, &self.tags[i]),
                    None => false,
                },
            };
            let ghost before = out@;
            if shown {
                out.push(j);
            }
            proof {
                assert forall|x: int|
                    0 <= x < j + 1 implies (shown_under(#[trigger] records@[x], self.selected, self.tags@)
                        <==> out@.contains(x as usize)) by {
                    if x < j {
                        if before.contains(x as usize) {
                            let k = choose|k: int| 0 <= k < before.len() && before[k] == x as usize;
                            assert(out@[k] == x as usize);
                        }
                        if out@.contains(x as usize) {
                            let k = choose|k: int| 0 <= k < out@.len() && out@[k] == x as usize;
                            if k < before.len() {
                                assert(before[k] == x as usize);
                            }
                        }
                    } else {
                        if shown {
                            assert(out@[out@.len() - 1] == j);
                        } else {
                            assert(out@ == before);
                        }
                    }
                }
            }
            j = j + 1;
        }
        out
    }
}

} // verus!
