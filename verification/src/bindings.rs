//! Callbacks exposed to page scripts (`expose_function`, `expose_binding`),
//! by name, and what a call of an exposed name is answered with.

use vstd::prelude::*;
use crate::text::{owned, push_str, str_eq};

verus! {

/// The exposed callbacks of a page or a browser context, by name; `H` is
/// the callback type. Registering a name again replaces its callback.
pub struct BindingCallbacks<H> {
    entries: Vec<(String, H)>,
}

/// The names of a list of entries.
pub open spec fn entry_names<H>(entries: Seq<(String, H)>) -> Seq<Seq<char>> {
    entries.map_values(|e: (String, H)| e.0@)
}

/// The callbacks of a list of entries with distinct names, by name.
pub open spec fn entries_map<H>(entries: Seq<(String, H)>) -> Map<Seq<char>, H>
    decreases entries.len(),
{
    if entries.len() == 0 {
        Map::empty()
    } else {
        entries_map(entries.drop_last()).insert(entries.last().0@, entries.last().1)
    }
}

impl<H> BindingCallbacks<H> {
    /// The callbacks by name.
    pub closed spec fn callback_map(&self) -> Map<Seq<char>, H> {
        entries_map(self.entries@)
    }

    /// No name occurs twice.
    pub closed spec fn wf(&self) -> bool {
        entry_names(self.entries@).no_duplicates()
    }

    /// No callbacks.
    pub fn new() -> (r: Self)
        ensures
            r.wf(),
            r.callback_map() == Map::<Seq<char>, H>::empty(),
    {
        let r = BindingCallbacks { entries: Vec::new() };
        assert(entry_names(r.entries@) =~= Seq::<Seq<char>>::empty());
        r
    }

    /// Where `name` sits among the entries, if it does.
    fn position(&self, name: &str) -> (r: Option<usize>)
        ensures
            match r {
                Some(i) => i < self.entries@.len() && self.entries@[i as int].0@ == name@,
                None => !entry_names(self.entries@).contains(name@),
            },
    {
        let mut i: usize = 0;
        while i < self.entries.len()
            invariant
                i <= self.entries@.len(),
                forall|j: int| 0 <= j < i ==> self.entries@[j].0@ != name@,
            decreases self.entries@.len() - i,
        {
            if str_eq(self.entries[i].0.as_str(), name) {
                return Some(i);
            }
            i = i + 1;
        }
        proof {
            assert forall|j: int| 0 <= j < entry_names(self.entries@).len() implies entry_names(
                self.entries@,
            )[j] != name@ by {
                assert(entry_names(self.entries@)[j] == self.entries@[j].0@);
            }
        }
        None
    }

    /// Registers `callback` under `name`, replacing an earlier one.
    pub fn register(&mut self, name: &str, callback: H)
        requires
            old(self).wf(),
        ensures
            final(self).wf(),
            final(self).callback_map() == old(self).callback_map().insert(name@, callback),
    {
        let ghost before = self.entries@;
        match self.position(name) {
            Some(i) => {
                let _replaced = self.entries.remove(i);
                proof {
                    lemma_remove_keeps_map(before, i as int);
                    lemma_names_remove(before, i as int);
                }
                let ghost mid = self.entries@;
                self.entries.push((owned(name), callback));
                proof {
                    assert(self.entries@.drop_last() =~= mid);
                    lemma_names_push(mid, name@, callback);
                    assert(entries_map(self.entries@) == entries_map(mid).insert(name@, callback));
                    assert(entries_map(mid).insert(name@, callback) =~= entries_map(before).insert(
                        name@,
                        callback,
                    ));
                }
            },
            None => {
                self.entries.push((owned(name), callback));
                proof {
                    assert(self.entries@.drop_last() =~= before);
                    lemma_names_push(before, name@, callback);
                }
            },
        }
    }

    /// The callback registered under `name`.
    pub fn get(&self, name: &str) -> (r: Option<&H>)
        requires
            self.wf(),
        ensures
            match r {
                Some(h) => self.callback_map().contains_key(name@) && *h == self.callback_map()[name@],
                None => !self.callback_map().contains_key(name@),
            },
    {
        proof {
            lemma_map_domain(self.entries@);
        }
        match self.position(name) {
            Some(i) => {
                proof {
                    lemma_map_value(self.entries@, i as int);
                }
                Some(&self.entries[i].1)
            },
            None => None,
        }
    }
}

/// The map of a list holds exactly its names.
proof fn lemma_map_domain<H>(entries: Seq<(String, H)>)
    ensures
        forall|k: Seq<char>| #[trigger] entries_map(entries).contains_key(k) <==> entry_names(entries).contains(k),
    decreases entries.len(),
{
    if entries.len() > 0 {
        lemma_map_domain(entries.drop_last());
        assert forall|k: Seq<char>| #[trigger] entries_map(entries).contains_key(k) <==> entry_names(
            entries,
        ).contains(k) by {
            let names = entry_names(entries);
            let init = entry_names(entries.drop_last());
            assert(entries_map(entries.drop_last()).contains_key(k) <==> init.contains(k));
            assert(entries_map(entries) == entries_map(entries.drop_last()).insert(
                entries.last().0@,
                entries.last().1,
            ));
            assert(names.drop_last() =~= init);
            assert(names.last() == entries.last().0@);
            if names.contains(k) {
                let j = choose|j: int| 0 <= j < names.len() && names[j] == k;
                if j < names.len() - 1 {
                    assert(init[j] == k);
                }
            }
            if init.contains(k) {
                let j = choose|j: int| 0 <= j < init.len() && init[j] == k;
                assert(names[j] == k);
            }
            if k == entries.last().0@ {
                assert(names[names.len() - 1] == k);
            }
        }
    }
}

/// In a list with distinct names, the map gives each entry's callback.
proof fn lemma_map_value<H>(entries: Seq<(String, H)>, i: int)
    requires
        0 <= i < entries.len(),
        entry_names(entries).no_duplicates(),
    ensures
        entries_map(entries).contains_key(entries[i].0@),
        entries_map(entries)[entries[i].0@] == entries[i].1,
    decreases entries.len(),
{
    let init = entries.drop_last();
    assert(entry_names(init) =~= entry_names(entries).drop_last());
    if i < entries.len() - 1 {
        assert(init[i] == entries[i]);
        lemma_map_value(init, i);
        assert(entry_names(entries)[i] != entry_names(entries)[entries.len() - 1]);
    }
}

/// Removing an entry with a distinct name removes just that name.
proof fn lemma_remove_keeps_map<H>(entries: Seq<(String, H)>, i: int)
    requires
        0 <= i < entries.len(),
        entry_names(entries).no_duplicates(),
    ensures
        entries_map(entries.remove(i)) =~= entries_map(entries).remove(entries[i].0@),
    decreases entries.len(),
{
    let init = entries.drop_last();
    assert(entry_names(init) =~= entry_names(entries).drop_last());
    if i == entries.len() - 1 {
        assert(entries.remove(i) =~= init);
        lemma_map_domain(init);
        assert(!entry_names(init).contains(entries[i].0@)) by {
            if entry_names(init).contains(entries[i].0@) {
                let j = choose|j: int| 0 <= j < entry_names(init).len() && entry_names(init)[j]
                    == entries[i].0@;
                assert(entry_names(entries)[j] == entry_names(entries)[i]);
            }
        }
        assert(entries_map(init).remove(entries[i].0@) =~= entries_map(init));
    } else {
        lemma_remove_keeps_map(init, i);
        assert(init[i] == entries[i]);
        assert(entries.remove(i).drop_last() =~= init.remove(i));
        assert(entries.remove(i).last() == entries.last());
        assert(entry_names(entries)[i] != entry_names(entries)[entries.len() - 1]);
    }
}

/// Removing an entry keeps the other names distinct and drops its name.
proof fn lemma_names_remove<H>(entries: Seq<(String, H)>, i: int)
    requires
        0 <= i < entries.len(),
        entry_names(entries).no_duplicates(),
    ensures
        entry_names(entries.remove(i)).no_duplicates(),
        !entry_names(entries.remove(i)).contains(entries[i].0@),
{
    let names = entry_names(entries);
    let rn = entry_names(entries.remove(i));
    assert(rn =~= names.remove(i));
    assert forall|a: int, b: int| 0 <= a < b < rn.len() implies rn[a] != rn[b] by {
        let a2 = if a < i { a } else { a + 1 };
        let b2 = if b < i { b } else { b + 1 };
        assert(rn[a] == names[a2] && rn[b] == names[b2]);
    }
    if rn.contains(entries[i].0@) {
        let j = choose|j: int| 0 <= j < rn.len() && rn[j] == entries[i].0@;
        let j2 = if j < i { j } else { j + 1 };
        assert(rn[j] == names[j2]);
        assert(names[i] == entries[i].0@);
    }
}

/// Appending an entry with a new name keeps names distinct.
proof fn lemma_names_push<H>(entries: Seq<(String, H)>, name: Seq<char>, h: H)
    requires
        entry_names(entries).no_duplicates(),
        !entry_names(entries).contains(name),
    ensures
        forall|s: String| s@ == name ==> entry_names(entries.push((s, h))).no_duplicates(),
{
    assert forall|s: String| s@ == name implies entry_names(entries.push((s, h))).no_duplicates() by {
        let pn = entry_names(entries.push((s, h)));
        assert(pn =~= entry_names(entries).push(name));
        assert forall|a: int, b: int| 0 <= a < b < pn.len() implies pn[a] != pn[b] by {
            if b == pn.len() - 1 {
                assert(entry_names(entries)[a] == pn[a]);
            }
        }
    }
}

/// The rejection sent for a call of a name no callback is registered under.
pub open spec fn missing_binding_message(name: Seq<char>) -> Seq<char> {
    "No Rust handler for binding '"@ + name + "'"@
}

/// Builds the rejection for a call of an unregistered name.
pub fn missing_binding(name: &str) -> (r: String)
    ensures
        r@ == missing_binding_message(name@),
{
    let mut m = owned("No Rust handler for binding '");
    push_str(&mut m, name);
    push_str(&mut m, "'");
    m
}

} // verus!
