//! Labels: the string-keyed, string-valued map the platform attaches to objects.

use vstd::prelude::*;

verus! {

/// One label.
#[derive(Debug, PartialEq, Eq)]
pub struct Label {
    pub key: String,
    pub value: String,
}

impl Clone for Label {
    fn clone(&self) -> (copy: Label)
        ensures
            copy == *self,
    {
        Label { key: self.key.clone(), value: self.value.clone() }
    }
}

/// The keys and values of a list of labels.
pub open spec fn pairs(entries: Seq<Label>) -> Seq<(Seq<char>, Seq<char>)> {
    entries.map_values(|label: Label| (label.key@, label.value@))
}

/// No key occurs twice in `listed`.
pub open spec fn distinct_keys(listed: Seq<(Seq<char>, Seq<char>)>) -> bool {
    forall|i: int, j: int| 0 <= i < j < listed.len() ==> listed[i].0 != listed[j].0
}

/// The map a list of labels stands for: every key bound to the value of its
/// last occurrence.
pub open spec fn label_map(listed: Seq<(Seq<char>, Seq<char>)>) -> Map<Seq<char>, Seq<char>>
    decreases listed.len(),
{
    if listed.len() == 0 {
        Map::empty()
    } else {
        label_map(listed.drop_last()).insert(listed.last().0, listed.last().1)
    }
}

/// Where `key` stands in `listed`: the index of its first occurrence, or the
/// length of the list if it does not occur.
pub open spec fn position(listed: Seq<(Seq<char>, Seq<char>)>, key: Seq<char>) -> int
    decreases listed.len(),
{
    if listed.len() == 0 || listed[0].0 == key {
        0
    } else {
        1 + position(listed.drop_first(), key)
    }
}

/// The list after `key` has been bound to `value`: a key that the list holds
/// keeps its place and gets the new value, a new key goes to the end.
pub open spec fn inserted(
    listed: Seq<(Seq<char>, Seq<char>)>,
    key: Seq<char>,
    value: Seq<char>,
) -> Seq<(Seq<char>, Seq<char>)> {
    let at = position(listed, key);
    if at < listed.len() {
        listed.update(at, (key, value))
    } else {
        listed.push((key, value))
    }
}

/// The position of a key is the index before which it does not occur and at
/// which, unless the list ends there, it does.
proof fn lemma_position(listed: Seq<(Seq<char>, Seq<char>)>, key: Seq<char>, at: int)
    requires
        0 <= at <= listed.len(),
        forall|i: int| 0 <= i < at ==> listed[i].0 != key,
        at < listed.len() ==> listed[at].0 == key,
    ensures
        position(listed, key) == at,
    decreases at,
{
    if at > 0 {
        lemma_position(listed.drop_first(), key, at - 1);
    }
}

/// A list without `key` binds nothing to it.
proof fn lemma_absent_key(listed: Seq<(Seq<char>, Seq<char>)>, key: Seq<char>)
    requires
        forall|i: int| 0 <= i < listed.len() ==> listed[i].0 != key,
    ensures
        !label_map(listed).contains_key(key),
    decreases listed.len(),
{
    if listed.len() > 0 {
        lemma_absent_key(listed.drop_last(), key);
    }
}

/// Giving a key that the list holds once a new value rebinds the key.
proof fn lemma_replace(listed: Seq<(Seq<char>, Seq<char>)>, at: int, value: Seq<char>)
    requires
        distinct_keys(listed),
        0 <= at < listed.len(),
    ensures
        label_map(listed.update(at, (listed[at].0, value))) == label_map(listed).insert(
            listed[at].0,
            value,
        ),
    decreases listed.len(),
{
    let key = listed[at].0;
    let replaced = listed.update(at, (key, value));
    let last = listed.len() - 1;
    if at == last {
        assert(replaced.drop_last() =~= listed.drop_last());
        assert(label_map(replaced) =~= label_map(listed).insert(key, value));
    } else {
        lemma_replace(listed.drop_last(), at, value);
        assert(replaced.drop_last() =~= listed.drop_last().update(at, (key, value)));
        assert(listed[at].0 != listed[last].0);
        assert(label_map(replaced) =~= label_map(listed).insert(key, value));
    }
}

/// Binding a key in a list without repeated keys leaves the list without
/// repeated keys, and the map it stands for is the old one with the key bound to
/// the new value.
pub proof fn lemma_inserted(listed: Seq<(Seq<char>, Seq<char>)>, key: Seq<char>, value: Seq<char>)
    requires
        distinct_keys(listed),
    ensures
        distinct_keys(inserted(listed, key, value)),
        label_map(inserted(listed, key, value)) == label_map(listed).insert(key, value),
{
    let at = first_occurrence(listed, key);
    if at < listed.len() {
        lemma_replace(listed, at, value);
    } else {
        assert(listed.push((key, value)).drop_last() =~= listed);
    }
}

/// The position of a key, with what makes it the position.
proof fn first_occurrence(listed: Seq<(Seq<char>, Seq<char>)>, key: Seq<char>) -> (at: int)
    ensures
        at == position(listed, key),
        0 <= at <= listed.len(),
        forall|i: int| 0 <= i < at ==> listed[i].0 != key,
        at < listed.len() ==> listed[at].0 == key,
    decreases listed.len(),
{
    if listed.len() == 0 || listed[0].0 == key {
        0
    } else {
        let rest = listed.drop_first();
        let at = first_occurrence(rest, key);
        assert forall|i: int| 0 <= i < at + 1 implies listed[i].0 != key by {
            if i > 0 {
                assert(rest[i - 1] == listed[i]);
            }
        }
        at + 1
    }
}

/// A finite map from label keys to label values that remembers the order in
/// which its keys came in.
///
/// Its view is the list of its labels as pairs of key and value, in that order;
/// no key occurs twice in it. [`label_map`] of the view is the map that the
/// labels stand for. Two values are `==` when their views are equal.
#[derive(Debug, PartialEq, Eq)]
pub struct Labels {
    entries: Vec<Label>,
}

impl View for Labels {
    type V = Seq<(Seq<char>, Seq<char>)>;

    closed spec fn view(&self) -> Seq<(Seq<char>, Seq<char>)> {
        pairs(self.entries@)
    }
}

impl Clone for Labels {
    fn clone(&self) -> (copy: Labels)
        ensures
            copy@ == self@,
    {
        proof {
            use_type_invariant(self);
        }
        let mut entries: Vec<Label> = Vec::new();
        let mut at: usize = 0;
        while at < self.entries.len()
            invariant
                at <= self.entries.len(),
                entries@ == self.entries@.take(at as int),
            decreases self.entries.len() - at,
        {
            entries.push(self.entries[at].clone());
            proof {
                assert(entries@ =~= self.entries@.take(at + 1));
            }
            at += 1;
        }
        proof {
            assert(entries@ =~= self.entries@);
        }
        Labels { entries }
    }
}

impl Labels {
    #[verifier::type_invariant]
    spec fn keys_are_distinct(self) -> bool {
        distinct_keys(pairs(self.entries@))
    }

    /// The map without labels.
    pub fn new() -> (labels: Labels)
        ensures
            labels@ == Seq::<(Seq<char>, Seq<char>)>::empty(),
    {
        let labels = Labels { entries: Vec::new() };
        proof {
            assert(labels@ =~= Seq::<(Seq<char>, Seq<char>)>::empty());
        }
        labels
    }

    /// Binds `key` to `value`, whatever it was bound to before.
    pub fn insert(&mut self, key: String, value: String)
        ensures
            final(self)@ == inserted(old(self)@, key@, value@),
            label_map(final(self)@) == label_map(old(self)@).insert(key@, value@),
    {
        proof {
            use_type_invariant(&*self);
        }
        // The list is worked on outside of `self`, which holds the empty list meanwhile.
        let mut entries: Vec<Label> = Vec::new();
        std::mem::swap(&mut entries, &mut self.entries);
        let ghost before = pairs(entries@);
        let mut at: usize = 0;
        while at < entries.len() && entries[at].key != key
            invariant
                at <= entries.len(),
                forall|i: int| 0 <= i < at ==> pairs(entries@)[i].0 != key@,
            decreases entries.len() - at,
        {
            at += 1;
        }
        let entry = Label { key, value };
        proof {
            lemma_position(before, key@, at as int);
            lemma_inserted(before, key@, value@);
        }
        if at < entries.len() {
            entries.set(at, entry);
            proof {
                assert(pairs(entries@) =~= before.update(at as int, (key@, value@)));
            }
        } else {
            entries.push(entry);
            proof {
                assert(pairs(entries@) =~= before.push((key@, value@)));
            }
        }
        self.entries = entries;
    }

    /// The labels as a list, in the order in which their keys came in.
    pub fn entries(&self) -> (entries: &Vec<Label>)
        ensures
            pairs(entries@) == self@,
            distinct_keys(self@),
    {
        proof {
            use_type_invariant(self);
        }
        &self.entries
    }
}

} // verus!
