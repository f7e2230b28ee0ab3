//! Ordered lists of environment settings, in which a later entry overrides
//! an earlier one with the same key.

use vstd::prelude::*;

verus! {

/// The entries of a list with keys and values as character sequences.
pub open spec fn pairs_view(entries: Seq<(String, String)>) -> Seq<(Seq<char>, Seq<char>)> {
    Seq::new(entries.len(), |i: int| (entries[i].0@, entries[i].1@))
}

/// The value that a list gives to a key: that of the last entry with the
/// key, `None` where there is none.
pub open spec fn env_lookup(entries: Seq<(Seq<char>, Seq<char>)>, key: Seq<char>) -> Option<
    Seq<char>,
>
    decreases entries.len(),
{
    if entries.len() == 0 {
        None
    } else if entries.last().0 == key {
        Some(entries.last().1)
    } else {
        env_lookup(entries.drop_last(), key)
    }
}

/// Looks a key up in a list of settings: the value of the last entry with
/// that key.
pub fn lookup(entries: &Vec<(String, String)>, key: &str) -> (r: Option<String>)
    ensures
        r is Some <==> env_lookup(pairs_view(entries@), key@) is Some,
        r is Some ==> Some(r->Some_0@) == env_lookup(pairs_view(entries@), key@),
{
    let wanted = String::from_str(key);
    let mut i: usize = entries.len();
    assert(pairs_view(entries@).take(i as int) =~= pairs_view(entries@));
    while i > 0
        invariant
            i <= entries@.len(),
            wanted@ == key@,
            env_lookup(pairs_view(entries@), key@) == env_lookup(
                pairs_view(entries@).take(i as int),
                key@,
            ),
        decreases i,
    {
        let entry = &entries[i - 1];
        proof {
            let prefix = pairs_view(entries@).take(i as int);
            assert(prefix.drop_last() =~= pairs_view(entries@).take(i - 1));
        }
        if entry.0 == wanted {
            return Some(entry.1.clone());
        }
        i = i - 1;
    }
    None
}

/// Appending settings overrides: the joined list gives a key the value from
/// the appended part where that part has the key, and the value from the
/// first part otherwise.
pub proof fn lemma_later_entries_win(
    first: Seq<(Seq<char>, Seq<char>)>,
    appended: Seq<(Seq<char>, Seq<char>)>,
    key: Seq<char>,
)
    ensures
        env_lookup(first + appended, key) == match env_lookup(appended, key) {
            Some(value) => Some(value),
            None => env_lookup(first, key),
        },
    decreases appended.len(),
{
    if appended.len() == 0 {
        assert(first + appended =~= first);
    } else {
        let joined = first + appended;
        assert(joined.drop_last() =~= first + appended.drop_last());
        if appended.last().0 != key {
            lemma_later_entries_win(first, appended.drop_last(), key);
        }
    }
}

/// Of two entries with one key the later one counts: a list that ends in an
/// entry for the key gives that entry's value, whatever came before.
pub proof fn lemma_last_write_wins(
    entries: Seq<(Seq<char>, Seq<char>)>,
    key: Seq<char>,
    value: Seq<char>,
)
    ensures
        env_lookup(entries.push((key, value)), key) == Some(value),
{
}

} // verus!
