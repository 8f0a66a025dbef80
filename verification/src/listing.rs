//! What a directory listing keeps of the entries that the host enumerated.

use vstd::prelude::*;
use crate::model::{ok_names, EntryView};

verus! {

/// The texts that a sequence of strings holds.
pub open spec fn texts(strings: Seq<String>) -> Seq<Seq<char>> {
    strings.map_values(|s: String| s@)
}

/// One enumerated entry as the model has it.
pub open spec fn entry_view(entry: Result<String, String>) -> EntryView {
    match entry {
        Ok(name) => Ok(name@),
        Err(error) => Err(error@),
    }
}

/// The enumerated entries as the model has them.
pub open spec fn entries_view(entries: Seq<Result<String, String>>) -> Seq<EntryView> {
    entries.map_values(|e: Result<String, String>| entry_view(e))
}

/// One more entry adds its name to the names kept, if it has one.
pub proof fn ok_names_push(entries: Seq<EntryView>, entry: EntryView)
    ensures
        ok_names(entries.push(entry)) == match entry {
            Ok(name) => ok_names(entries).push(name),
            Err(_) => ok_names(entries),
        },
{
    reveal(Seq::filter);
    assert(entries.push(entry).drop_last() =~= entries);
    match entry {
        Ok(name) => {
            assert(ok_names(entries.push(entry)) =~= ok_names(entries).push(name));
        },
        Err(_) => {},
    }
}

/// The names of the entries that were enumerated without error, in the order
/// in which they came. An entry that gave an error is dropped without a
/// trace.
pub fn names(entries: Vec<Result<String, String>>) -> (kept: Vec<String>)
    ensures
        texts(kept@) == ok_names(entries_view(entries@)),
{
    let mut kept: Vec<String> = Vec::new();
    let mut i: usize = 0;
    proof {
        reveal(Seq::filter);
        assert(entries_view(entries@).take(0) =~= Seq::<EntryView>::empty());
        assert(texts(kept@) =~= ok_names(Seq::<EntryView>::empty()));
    }
    while i < entries.len()
        invariant
            i <= entries.len(),
            texts(kept@) == ok_names(entries_view(entries@).take(i as int)),
        decreases entries.len() - i,
    {
        proof {
            let all = entries_view(entries@);
            assert(all.take(i + 1) =~= all.take(i as int).push(all[i as int]));
            ok_names_push(all.take(i as int), all[i as int]);
        }
        let ghost before = kept@;
        match &entries[i] {
            Ok(name) => {
                kept.push(name.clone());
                assert(texts(kept@) =~= texts(before).push(name@));
            },
            Err(_) => {},
        }
        i += 1;
    }
    assert(entries_view(entries@).take(i as int) =~= entries_view(entries@));
    kept
}

} // verus!
