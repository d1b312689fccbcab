use bytes::Bytes;
use vstd::prelude::*;

verus! {

#[verifier::external_type_specification]
#[verifier::external_body]
pub struct ExBytes(Bytes);

/// The bytes that a buffer holds, in order.
pub uninterp spec fn bytes_view(buffer: Bytes) -> Seq<u8>;

/// `Bytes::from` on a byte slice. Trusted: the buffer it returns holds a copy of the
/// slice, byte for byte.
#[verifier::external_body]
pub(crate) fn bytes_from_slice(src: &[u8]) -> (buffer: Bytes)
    ensures
        bytes_view(buffer) == src@,
{
    Bytes::from(src)
}

/// What an [`Event`] stands for: its body and its fields by name.
pub struct EventView {
    pub body: Seq<u8>,
    pub fields: Map<Seq<char>, Seq<u8>>,
}

/// One record on its way downstream: a body and named fields, each name used once.
#[derive(Debug)]
pub struct Event {
    body: Bytes,
    fields: Vec<(String, Bytes)>,
}

/// No two entries carry the same name.
pub open spec fn names_distinct(entries: Seq<(String, Bytes)>) -> bool {
    forall|i: int, j: int|
        0 <= i < j < entries.len() ==> (#[trigger] entries[i]).0@ != (#[trigger] entries[j]).0@
}

/// Some entry carries `name`.
pub open spec fn has_name(entries: Seq<(String, Bytes)>, name: Seq<char>) -> bool {
    exists|i: int| 0 <= i < entries.len() && (#[trigger] entries[i]).0@ == name
}

/// The place of an entry that carries `name`, where there is one.
pub open spec fn place_of(entries: Seq<(String, Bytes)>, name: Seq<char>) -> int {
    choose|i: int| 0 <= i < entries.len() && (#[trigger] entries[i]).0@ == name
}

/// The entries read as a map from name to value.
pub open spec fn field_map(entries: Seq<(String, Bytes)>) -> Map<Seq<char>, Seq<u8>> {
    Map::new(
        |name: Seq<char>| has_name(entries, name),
        |name: Seq<char>| bytes_view(entries[place_of(entries, name)].1),
    )
}

/// With distinct names, the entry at place `i` is the one its name leads to.
proof fn lemma_place_of(entries: Seq<(String, Bytes)>, i: int)
    requires
        names_distinct(entries),
        0 <= i < entries.len(),
    ensures
        has_name(entries, entries[i].0@),
        place_of(entries, entries[i].0@) == i,
{
    let name = entries[i].0@;
    let p = place_of(entries, name);
    assert(0 <= p < entries.len() && entries[p].0@ == name);
    if p < i {
        assert(entries[p].0@ != entries[i].0@);
    } else if i < p {
        assert(entries[i].0@ != entries[p].0@);
    }
}

/// Replacing the value of entry `i` under an equal name is an insertion into the map.
proof fn lemma_update(entries: Seq<(String, Bytes)>, i: int, name: String, value: Bytes)
    requires
        names_distinct(entries),
        0 <= i < entries.len(),
        entries[i].0@ == name@,
    ensures
        names_distinct(entries.update(i, (name, value))),
        field_map(entries.update(i, (name, value))) == field_map(entries).insert(
            name@,
            bytes_view(value),
        ),
{
    let updated = entries.update(i, (name, value));
    assert forall|a: int, b: int| 0 <= a < b < updated.len() implies (#[trigger] updated[a]).0@ != (
    #[trigger] updated[b]).0@ by {
        assert(updated[a].0@ == entries[a].0@);
        assert(updated[b].0@ == entries[b].0@);
    }
    let expected = field_map(entries).insert(name@, bytes_view(value));
    assert forall|k: Seq<char>| has_name(updated, k) == has_name(entries, k) by {
        if has_name(updated, k) {
            let p = place_of(updated, k);
            assert(entries[p].0@ == k);
        }
        if has_name(entries, k) {
            let p = place_of(entries, k);
            assert(updated[p].0@ == k);
        }
    }
    lemma_place_of(entries, i);
    assert forall|k: Seq<char>| #[trigger] expected.contains_key(k) implies field_map(updated)[k]
        == expected[k] by {
        let p = place_of(updated, k);
        assert(0 <= p < updated.len() && updated[p].0@ == k);
        lemma_place_of(updated, p);
        if k != name@ {
            lemma_place_of(entries, p);
        } else {
            lemma_place_of(updated, i);
        }
    }
    assert(field_map(updated) =~= expected);
}

/// Appending an entry under a name not yet used is an insertion into the map.
proof fn lemma_push(entries: Seq<(String, Bytes)>, name: String, value: Bytes)
    requires
        names_distinct(entries),
        !has_name(entries, name@),
    ensures
        names_distinct(entries.push((name, value))),
        field_map(entries.push((name, value))) == field_map(entries).insert(
            name@,
            bytes_view(value),
        ),
{
    let pushed = entries.push((name, value));
    let last = entries.len() as int;
    assert forall|a: int, b: int| 0 <= a < b < pushed.len() implies (#[trigger] pushed[a]).0@ != (
    #[trigger] pushed[b]).0@ by {
        assert(pushed[a] == entries[a]);
        if b < last {
            assert(pushed[b] == entries[b]);
        }
    }
    let expected = field_map(entries).insert(name@, bytes_view(value));
    assert(pushed[last].0@ == name@);
    assert forall|k: Seq<char>| has_name(pushed, k) == (has_name(entries, k) || k == name@) by {
        if has_name(pushed, k) {
            let p = place_of(pushed, k);
            if p < last {
                assert(entries[p].0@ == k);
            }
        }
        if has_name(entries, k) {
            let p = place_of(entries, k);
            assert(pushed[p].0@ == k);
        }
    }
    assert forall|k: Seq<char>| #[trigger] expected.contains_key(k) implies field_map(pushed)[k]
        == expected[k] by {
        let p = place_of(pushed, k);
        assert(0 <= p < pushed.len() && pushed[p].0@ == k);
        lemma_place_of(pushed, p);
        if k != name@ {
            assert(pushed[p] == entries[p]);
            lemma_place_of(entries, p);
        } else {
            lemma_place_of(pushed, last);
        }
    }
    assert(field_map(pushed) =~= expected);
}

/// With distinct names, the map has as many keys as there are entries.
proof fn lemma_field_count(entries: Seq<(String, Bytes)>)
    requires
        names_distinct(entries),
    ensures
        field_map(entries).dom().finite(),
        field_map(entries).dom().len() == entries.len(),
    decreases entries.len(),
{
    if entries.len() == 0 {
        assert(field_map(entries).dom() =~= Set::empty());
    } else {
        let front = entries.drop_last();
        let last = entries.last();
        assert forall|i: int, j: int| 0 <= i < j < front.len() implies (#[trigger] front[i]).0@ != (
        #[trigger] front[j]).0@ by {
            assert(front[i] == entries[i]);
            assert(front[j] == entries[j]);
        }
        if has_name(front, last.0@) {
            let p = place_of(front, last.0@);
            assert(entries[p].0@ != entries[entries.len() - 1].0@);
        }
        lemma_field_count(front);
        lemma_push(front, last.0, last.1);
        assert(front.push((last.0, last.1)) =~= entries);
        assert(field_map(entries).dom() =~= field_map(front).dom().insert(last.0@));
    }
}

impl View for Event {
    type V = EventView;

    closed spec fn view(&self) -> EventView {
        EventView { body: bytes_view(self.body), fields: field_map(self.fields@) }
    }
}

impl Event {
    #[verifier::type_invariant]
    spec fn well_formed(self) -> bool {
        names_distinct(self.fields@)
    }

    /// An event with the given body and no fields.
    pub fn new(body: Bytes) -> (event: Event)
        ensures
            event@ == (EventView { body: bytes_view(body), fields: Map::empty() }),
    {
        let event = Event { body, fields: Vec::new() };
        assert(field_map(event.fields@) =~= Map::empty());
        event
    }

    /// The body.
    pub fn body(&self) -> (body: &Bytes)
        ensures
            bytes_view(*body) == self@.body,
    {
        &self.body
    }

    /// The number of fields.
    pub fn field_count(&self) -> (count: usize)
        ensures
            self@.fields.dom().finite(),
            count == self@.fields.dom().len(),
    {
        proof {
            use_type_invariant(self);
            lemma_field_count(self.fields@);
        }
        self.fields.len()
    }

    /// The place of the entry named `name`, if there is one.
    fn find(&self, name: &String) -> (found: Option<usize>)
        ensures
            found is None ==> !has_name(self.fields@, name@),
            found matches Some(i) ==> i < self.fields@.len() && self.fields@[i as int].0@ == name@,
    {
        let mut i: usize = 0;
        while i < self.fields.len()
            invariant
                i <= self.fields@.len(),
                forall|j: int| 0 <= j < i ==> (#[trigger] self.fields@[j]).0@ != name@,
            decreases self.fields@.len() - i,
        {
            if self.fields[i].0 == *name {
                return Some(i);
            }
            i += 1;
        }
        None
    }

    /// The value of the field `name`, if the event has that field.
    pub fn get(&self, name: &str) -> (value: Option<&Bytes>)
        ensures
            value is Some <==> self@.fields.contains_key(name@),
            value matches Some(buffer) ==> bytes_view(*buffer) == self@.fields[name@],
    {
        proof {
            use_type_invariant(self);
        }
        let owned = name.to_owned();
        match self.find(&owned) {
            Some(i) => {
                proof {
                    lemma_place_of(self.fields@, i as int);
                }
                Some(&self.fields[i].1)
            },
            None => None,
        }
    }

    /// Sets the field `name` to `value`, replacing the value it had, if any.
    pub fn insert(&mut self, name: String, value: Bytes)
        ensures
            final(self)@ == (EventView {
                body: old(self)@.body,
                fields: old(self)@.fields.insert(name@, bytes_view(value)),
            }),
    {
        proof {
            use_type_invariant(&*self);
        }
        let found = self.find(&name);
        let mut fields: Vec<(String, Bytes)> = Vec::new();
        core::mem::swap(&mut self.fields, &mut fields);
        match found {
            Some(i) => {
                proof {
                    lemma_update(fields@, i as int, name, value);
                }
                fields.set(i, (name, value));
            },
            None => {
                proof {
                    lemma_push(fields@, name, value);
                }
                fields.push((name, value));
            },
        }
        core::mem::swap(&mut self.fields, &mut fields);
    }
}

} // verus!
