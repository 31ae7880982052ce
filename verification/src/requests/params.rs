//! The table of request parameters: each name has one value, and the names
//! keep the order in which they were first written.

use crate::text::{lemma_occurs_ahead, lemma_occurs_between, occurs_in, same_text};
use vstd::prelude::*;
use vstd::string::StringExecFns;

verus! {

/// The value that `table` holds under `name`, if it holds one.
pub open spec fn held(table: Map<Seq<char>, Seq<char>>, name: Seq<char>) -> Option<Seq<char>> {
    if table.contains_key(name) {
        Some(table[name])
    } else {
        None
    }
}

/// The value of a parameter after `value` is appended to it: the value
/// alone where there was none, else the earlier value, a pipe and `value`.
pub open spec fn joined(earlier: Option<Seq<char>>, value: Seq<char>) -> Seq<char> {
    match earlier {
        Some(text) => text + "|"@ + value,
        None => value,
    }
}

/// `table` after `value` is appended to the parameter `name`.
pub open spec fn appended(
    table: Map<Seq<char>, Seq<char>>,
    name: Seq<char>,
    value: Seq<char>,
) -> Map<Seq<char>, Seq<char>> {
    table.insert(name, joined(held(table, name), value))
}

/// `table` with `value` under `name` unless `name` has a value already.
pub open spec fn defaulted(
    table: Map<Seq<char>, Seq<char>>,
    name: Seq<char>,
    value: Seq<char>,
) -> Map<Seq<char>, Seq<char>> {
    if table.contains_key(name) {
        table
    } else {
        table.insert(name, value)
    }
}

/// `names` once `name` has been written: a new name goes to the end.
pub open spec fn listed(names: Seq<Seq<char>>, name: Seq<char>) -> Seq<Seq<char>> {
    if names.contains(name) {
        names
    } else {
        names.push(name)
    }
}

/// One pair of a query string: an ampersand, the name, an equals sign
/// and the value. Nothing is escaped.
pub open spec fn pair_text(name: Seq<char>, value: Seq<char>) -> Seq<char> {
    "&"@ + name + "="@ + value
}

/// The pairs of a query string: one for each of `names` in turn, with
/// the value that `table` holds.
pub open spec fn pairs_text(names: Seq<Seq<char>>, table: Map<Seq<char>, Seq<char>>) -> Seq<char>
    decreases names.len(),
{
    if names.len() == 0 {
        Seq::empty()
    } else {
        pairs_text(names.drop_last(), table) + pair_text(names.last(), table[names.last()])
    }
}

/// `table` after each of `values` in turn was appended under `name`.
pub open spec fn appended_all(
    table: Map<Seq<char>, Seq<char>>,
    name: Seq<char>,
    values: Seq<Seq<char>>,
) -> Map<Seq<char>, Seq<char>>
    decreases values.len(),
{
    if values.len() == 0 {
        table
    } else {
        appended(appended_all(table, name, values.drop_last()), name, values.last())
    }
}

/// `values` with a pipe between each two, in their order.
pub open spec fn pipe_joined(values: Seq<Seq<char>>) -> Seq<char>
    decreases values.len(),
{
    if values.len() == 0 {
        Seq::empty()
    } else if values.len() == 1 {
        values[0]
    } else {
        pipe_joined(values.drop_last()) + "|"@ + values.last()
    }
}

/// What a parameter holds, as the values that were appended to it: one
/// value, or none.
pub open spec fn earlier_values(table: Map<Seq<char>, Seq<char>>, name: Seq<char>) -> Seq<
    Seq<char>,
> {
    match held(table, name) {
        Some(text) => seq![text],
        None => Seq::empty(),
    }
}

/// After any number of appends under one name, the name holds what it
/// held before and the appended values, joined by pipes in the order of
/// the appends: nothing where it held nothing and nothing was appended.
/// No other name has changed.
pub proof fn lemma_appends_join(
    table: Map<Seq<char>, Seq<char>>,
    name: Seq<char>,
    values: Seq<Seq<char>>,
)
    ensures
        held(appended_all(table, name, values), name) == if (earlier_values(table, name)
            + values).len() == 0 {
            None
        } else {
            Some(pipe_joined(earlier_values(table, name) + values))
        },
        forall|other: Seq<char>|
            other != name ==> held(appended_all(table, name, values), other) == held(table, other),
    decreases values.len(),
{
    let earlier = earlier_values(table, name);
    let all = earlier + values;
    if values.len() == 0 {
        assert(all =~= earlier);
    } else {
        assert(all.drop_last() =~= earlier + values.drop_last());
        lemma_appends_join(table, name, values.drop_last());
    }
}

/// Each parameter stands in the pairs: an ampersand, its name, an equals
/// sign and its value.
pub proof fn lemma_pair_occurs(names: Seq<Seq<char>>, table: Map<Seq<char>, Seq<char>>, i: int)
    requires
        0 <= i < names.len(),
    ensures
        occurs_in(pair_text(names[i], table[names[i]]), pairs_text(names, table)),
    decreases names.len(),
{
    let pair = pair_text(names[i], table[names[i]]);
    let front = pairs_text(names.drop_last(), table);
    if i == names.len() - 1 {
        lemma_occurs_between(front, pair, Seq::empty());
    } else {
        lemma_pair_occurs(names.drop_last(), table, i);
        lemma_occurs_ahead(pair, front, pair_text(names.last(), table[names.last()]));
    }
}

/// The parameters of one request.
///
/// The view is the mapping from name to value; [`Params::names`] is the
/// order in which the names were first written, which is the order of the
/// pairs in the query string.
#[derive(Debug)]
pub struct Params<'a> {
    entries: Vec<(&'a str, String)>,
}

impl<'a> View for Params<'a> {
    type V = Map<Seq<char>, Seq<char>>;

    closed spec fn view(&self) -> Map<Seq<char>, Seq<char>> {
        table_of(self.entries@)
    }
}

/// The names of `entries`, in their order.
spec fn names_of<'a>(entries: Seq<(&'a str, String)>) -> Seq<Seq<char>> {
    Seq::new(entries.len(), |i: int| entries[i].0@)
}

/// The mapping that `entries` stand for.
spec fn table_of<'a>(entries: Seq<(&'a str, String)>) -> Map<Seq<char>, Seq<char>> {
    Map::new(
        |name: Seq<char>| names_of(entries).contains(name),
        |name: Seq<char>| entries[names_of(entries).index_of(name)].1@,
    )
}

/// A new value in the place of an entry changes the value of its name
/// and nothing else.
proof fn lemma_replaced<'a>(entries: Seq<(&'a str, String)>, i: int, value: String)
    requires
        names_of(entries).no_duplicates(),
        0 <= i < entries.len(),
    ensures
        names_of(entries.update(i, (entries[i].0, value))) == names_of(entries),
        table_of(entries.update(i, (entries[i].0, value))) == table_of(entries).insert(
            entries[i].0@,
            value@,
        ),
{
    let after = entries.update(i, (entries[i].0, value));
    assert(names_of(after) =~= names_of(entries));
    let names = names_of(entries);
    assert forall|name: Seq<char>| #[trigger] names.contains(name) implies table_of(after)[name]
        == table_of(entries).insert(entries[i].0@, value@)[name] by {
        if name == entries[i].0@ {
            assert(names[i] == name);
        }
    }
    assert(names.contains(entries[i].0@)) by {
        assert(names[i] == entries[i].0@);
    }
}

/// An entry with a new name, put at the end, adds that name with its
/// value and changes nothing else.
proof fn lemma_pushed<'a>(entries: Seq<(&'a str, String)>, name: &'a str, value: String)
    requires
        names_of(entries).no_duplicates(),
        !names_of(entries).contains(name@),
    ensures
        names_of(entries.push((name, value))) == names_of(entries).push(name@),
        names_of(entries.push((name, value))).no_duplicates(),
        table_of(entries.push((name, value))) == table_of(entries).insert(name@, value@),
{
    let after = entries.push((name, value));
    let names = names_of(entries);
    let longer = names_of(after);
    assert forall|i: int, j: int|
        0 <= i < longer.len() && 0 <= j < longer.len() && i != j implies longer[i] != longer[j] by {
        if i < names.len() {
            assert(names.contains(names[i]));
        }
        if j < names.len() {
            assert(names.contains(names[j]));
        }
    }
    assert forall|key: Seq<char>| #[trigger] longer.contains(key) implies table_of(after)[key]
        == table_of(entries).insert(name@, value@)[key] by {
        if key == name@ {
            assert(longer[names.len() as int] == key);
        } else {
            assert(names[longer.index_of(key)] == key);
        }
    }
    assert forall|key: Seq<char>|
        longer.contains(key) <==> (names.contains(key) || key == name@) by {
        if longer.contains(key) {
            let j = longer.index_of(key);
            if j < names.len() {
                assert(names[j] == key);
            }
        }
        if names.contains(key) {
            let k = names.index_of(key);
            assert(longer[k] == key);
        }
        if key == name@ {
            assert(longer[names.len() as int] == key);
        }
    }
}

impl<'a> Params<'a> {
    #[verifier::type_invariant]
    spec fn names_differ(&self) -> bool {
        self.names().no_duplicates()
    }

    /// The names in the order in which they were first written.
    pub closed spec fn names(&self) -> Seq<Seq<char>> {
        names_of(self.entries@)
    }

    /// Every name is listed once, and the listed names are those that have
    /// a value.
    pub open spec fn well_formed(&self) -> bool {
        &&& self.names().no_duplicates()
        &&& forall|name: Seq<char>| self@.contains_key(name) <==> self.names().contains(name)
    }

    /// This table is `before` after `value` was appended under `name`.
    pub open spec fn extends(&self, before: &Self, name: Seq<char>, value: Seq<char>) -> bool {
        &&& self@ == appended(before@, name, value)
        &&& self.names() == listed(before.names(), name)
        &&& self.well_formed()
    }

    /// This table is `before` after `value` was put under `name`.
    pub open spec fn replaces(&self, before: &Self, name: Seq<char>, value: Seq<char>) -> bool {
        &&& self@ == before@.insert(name, value)
        &&& self.names() == listed(before.names(), name)
        &&& self.well_formed()
    }

    /// An empty table.
    pub fn new() -> (table: Self)
        ensures
            table@ == Map::<Seq<char>, Seq<char>>::empty(),
            table.names() == Seq::<Seq<char>>::empty(),
            table.well_formed(),
    {
        let table = Params { entries: Vec::new() };
        table
    }

    /// The place of `name` among the entries.
    fn find(&self, name: &str) -> (place: Option<usize>)
        ensures
            match place {
                Some(i) => i < self.entries@.len() && self.names()[i as int] == name@,
                None => !self.names().contains(name@),
            },
    {
        let mut i: usize = 0;
        while i < self.entries.len()
            invariant
                0 <= i <= self.entries@.len(),
                forall|j: int| 0 <= j < i ==> self.names()[j] != name@,
            decreases self.entries@.len() - i,
        {
            if same_text(self.entries[i].0, name) {
                return Some(i);
            }
            i += 1;
        }
        None
    }

    /// The number of parameters.
    pub fn len(&self) -> (n: usize)
        ensures
            n == self.names().len(),
            self.well_formed(),
    {
        proof {
            use_type_invariant(self);
        }
        self.entries.len()
    }

    /// The value under `name`, if there is one.
    pub fn get(&self, name: &str) -> (value: Option<&str>)
        ensures
            match value {
                Some(text) => held(self@, name@) == Some(text@),
                None => held(self@, name@) is None,
            },
    {
        proof {
            use_type_invariant(self);
        }
        match self.find(name) {
            Some(i) => Some(self.entries[i].1.as_str()),
            None => None,
        }
    }

    /// Puts `value` under `name`, in place of any earlier value.
    pub fn set(&mut self, name: &'a str, value: &str)
        ensures
            final(self)@ == old(self)@.insert(name@, value@),
            final(self).names() == listed(old(self).names(), name@),
            final(self).well_formed(),
    {
        proof {
            use_type_invariant(&*self);
        }
        let place = self.find(name);
        // The entries are taken out while they change: that no name
        // stands twice is checked when they are put back.
        let mut entries: Vec<(&'a str, String)> = Vec::new();
        core::mem::swap(&mut self.entries, &mut entries);
        let text = value.to_owned();
        match place {
            Some(i) => {
                proof {
                    lemma_replaced(entries@, i as int, text);
                }
                entries[i].1 = text;
            },
            None => {
                proof {
                    lemma_pushed(entries@, name, text);
                }
                entries.push((name, text));
            },
        }
        self.entries = entries;
    }

    /// Puts `value` under `name` unless `name` has a value already.
    pub fn set_default(&mut self, name: &'a str, value: &str)
        ensures
            final(self)@ == defaulted(old(self)@, name@, value@),
            final(self).names() == listed(old(self).names(), name@),
            final(self).well_formed(),
    {
        proof {
            use_type_invariant(&*self);
        }
        if self.find(name).is_none() {
            self.set(name, value);
        }
    }

    /// Appends `value` to the parameter `name`: a name without a value
    /// gets `value`, and a value that is there is extended by a pipe and
    /// `value`. Nothing is ever overwritten.
    pub fn append(&mut self, name: &'a str, value: &str)
        ensures
            final(self)@ == appended(old(self)@, name@, value@),
            final(self).names() == listed(old(self).names(), name@),
            final(self).well_formed(),
    {
        proof {
            use_type_invariant(&*self);
        }
        let place = self.find(name);
        let mut entries: Vec<(&'a str, String)> = Vec::new();
        core::mem::swap(&mut self.entries, &mut entries);
        match place {
            Some(i) => {
                let ghost before = entries@;
                entries[i].1.append("|");
                entries[i].1.append(value);
                proof {
                    lemma_replaced(before, i as int, entries@[i as int].1);
                    assert(entries@ =~= before.update(
                        i as int,
                        (before[i as int].0, entries@[i as int].1),
                    ));
                }
            },
            None => {
                let text = value.to_owned();
                proof {
                    lemma_pushed(entries@, name, text);
                }
                entries.push((name, text));
            },
        }
        self.entries = entries;
    }

    /// The pairs of the query string, in the order of the names.
    pub fn to_pairs_text(&self) -> (text: String)
        ensures
            text@ == pairs_text(self.names(), self@),
            self.well_formed(),
    {
        proof {
            use_type_invariant(self);
        }
        let mut text = String::new();
        let mut i: usize = 0;
        while i < self.entries.len()
            invariant
                0 <= i <= self.entries@.len(),
                self.names().no_duplicates(),
                text@ == pairs_text(self.names().take(i as int), self@),
            decreases self.entries@.len() - i,
        {
            proof {
                let names = self.names();
                let upto = names.take(i + 1);
                assert(upto.drop_last() =~= names.take(i as int));
            }
            text.append("&");
            text.append(self.entries[i].0);
            text.append("=");
            text.append(self.entries[i].1.as_str());
            i += 1;
        }
        assert(self.names().take(i as int) =~= self.names());
        text
    }
}

} // verus!
