use vstd::prelude::*;

verus! {

/// One directory entry as the dispatcher sees it: its path, whether it is a
/// regular file, and its permission bits.
pub struct HookEntry {
    pub path: String,
    pub is_file: bool,
    pub mode: u32,
}

/// An entry is an eligible hook when it is a regular file with at least one
/// executable permission bit set.
pub open spec fn spec_is_eligible(is_file: bool, mode: u32) -> bool {
    is_file && (mode & 0o111) != 0
}

/// The paths of the eligible entries, in listing order.
pub open spec fn spec_selected_paths(entries: Seq<HookEntry>) -> Seq<String> {
    entries.filter_map(
        |e: HookEntry|
            if spec_is_eligible(e.is_file, e.mode) {
                Some(e.path)
            } else {
                None
            },
    )
}

impl HookEntry {
    /// Decides hook eligibility: a regular file with an executable bit.
    pub fn is_eligible(&self) -> (r: bool)
        ensures
            r == spec_is_eligible(self.is_file, self.mode),
    {
        self.is_file && (self.mode & 0o111) != 0
    }
}

/// Filters a directory listing down to the hooks to run, keeping the listing
/// order: exactly the regular files with an executable bit, by path.
pub fn select_hooks(entries: &Vec<HookEntry>) -> (r: Vec<String>)
    ensures
        r@ == spec_selected_paths(entries@),
{
    let mut r: Vec<String> = Vec::new();
    let mut i: usize = 0;
    while i < entries.len()
        invariant
            i <= entries.len(),
            r@ == entries@.subrange(0, i as int).filter_map(
                |e: HookEntry|
                    if spec_is_eligible(e.is_file, e.mode) {
                        Some(e.path)
                    } else {
                        None
                    },
            ),
        decreases entries.len() - i,
    {
        let e = &entries[i];
        if e.is_eligible() {
            r.push(e.path.clone());
        }
        i = i + 1;
        proof {
            let prefix = entries@.subrange(0, i as int);
            assert(prefix.drop_last() =~= entries@.subrange(0, i - 1));
            assert(prefix.last() == entries@[i - 1]);
        }
    }
    proof {
        assert(entries@.subrange(0, entries@.len() as int) =~= entries@);
    }
    r
}

/// One dispatch round's hook list. An unreadable directory (no listing) is
/// treated as zero hooks; a listing is filtered to the eligible entries.
pub fn hooks_for_round(listing: Option<Vec<HookEntry>>) -> (r: Vec<String>)
    ensures
        (match listing {
            Some(entries) => r@ == spec_selected_paths(entries@),
            None => r@ == Seq::<String>::empty(),
        }),
{
    match listing {
        Some(entries) => select_hooks(&entries),
        None => Vec::new(),
    }
}

} // verus!
