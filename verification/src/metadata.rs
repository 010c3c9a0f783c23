//! Call metadata: the textual fields that travel beside a request.

use vstd::prelude::*;

verus! {

/// One field of the metadata.
#[derive(Debug, PartialEq, Eq)]
pub struct MetadataEntry {
    pub key: String,
    pub value: String,
}

/// The metadata of a call. A key holds at most one value: of several entries
/// with one key, the last counts.
#[derive(Debug, PartialEq, Eq)]
pub struct MetadataMap {
    pub entries: Vec<MetadataEntry>,
}

/// The fields that a list of entries stands for.
pub open spec fn fields_of(entries: Seq<MetadataEntry>) -> Map<Seq<char>, Seq<char>>
    decreases entries.len(),
{
    if entries.len() == 0 {
        Map::empty()
    } else {
        fields_of(entries.drop_last()).insert(entries.last().key@, entries.last().value@)
    }
}

proof fn lemma_found(entries: Seq<MetadataEntry>, key: Seq<char>, at: int)
    requires
        0 <= at < entries.len(),
        entries[at].key@ == key,
        forall|j: int| at < j < entries.len() ==> entries[j].key@ != key,
    ensures
        fields_of(entries).contains_key(key),
        fields_of(entries)[key] == entries[at].value@,
    decreases entries.len(),
{
    if at < entries.len() - 1 {
        lemma_found(entries.drop_last(), key, at);
    }
}

proof fn lemma_absent(entries: Seq<MetadataEntry>, key: Seq<char>)
    requires
        forall|j: int| 0 <= j < entries.len() ==> entries[j].key@ != key,
    ensures
        !fields_of(entries).contains_key(key),
    decreases entries.len(),
{
    if entries.len() > 0 {
        lemma_absent(entries.drop_last(), key);
    }
}

proof fn lemma_entry_removed(entries: Seq<MetadataEntry>, key: Seq<char>, at: int)
    requires
        0 <= at < entries.len(),
        entries[at].key@ == key,
    ensures
        fields_of(entries.remove(at)).remove(key) == fields_of(entries).remove(key),
    decreases entries.len(),
{
    let rest = entries.drop_last();
    let last = entries.last();
    if at < entries.len() - 1 {
        let shorter = entries.remove(at);
        assert(shorter.drop_last() =~= rest.remove(at));
        lemma_entry_removed(rest, key, at);
        assert(fields_of(entries).remove(key) =~= fields_of(rest).remove(key).insert(
            last.key@,
            last.value@,
        ).remove(key));
    }
}

impl View for MetadataMap {
    type V = Map<Seq<char>, Seq<char>>;

    open spec fn view(&self) -> Map<Seq<char>, Seq<char>> {
        fields_of(self.entries@)
    }
}

impl MetadataMap {
    /// Metadata without any field.
    pub fn new() -> (map: MetadataMap)
        ensures
            map@ == Map::<Seq<char>, Seq<char>>::empty(),
    {
        MetadataMap { entries: Vec::new() }
    }

    /// The value under a key, if the key is present.
    pub fn get(&self, key: &str) -> (value: Option<&String>)
        ensures
            value is Some <==> self@.contains_key(key@),
            value matches Some(text) ==> text@ == self@[key@],
    {
        let wanted = String::from_str(key);
        let mut i: usize = self.entries.len();
        while i > 0
            invariant
                i <= self.entries.len(),
                wanted@ == key@,
                forall|j: int| i <= j < self.entries.len() ==> self.entries[j].key@ != key@,
            decreases i,
        {
            i = i - 1;
            if self.entries[i].key == wanted {
                proof {
                    lemma_found(self.entries@, key@, i as int);
                }
                return Some(&self.entries[i].value);
            }
        }
        proof {
            lemma_absent(self.entries@, key@);
        }
        None
    }

    /// Takes a key and its value out of the metadata.
    pub fn remove(&mut self, key: &str)
        ensures
            final(self)@ == old(self)@.remove(key@),
    {
        let wanted = String::from_str(key);
        let mut i: usize = 0;
        while i < self.entries.len()
            invariant
                i <= self.entries.len(),
                wanted@ == key@,
                forall|j: int| 0 <= j < i ==> self.entries[j].key@ != key@,
                self@.remove(key@) == old(self)@.remove(key@),
            decreases self.entries.len() - i,
        {
            if self.entries[i].key == wanted {
                proof {
                    lemma_entry_removed(self.entries@, key@, i as int);
                }
                let _ = self.entries.remove(i);
            } else {
                i = i + 1;
            }
        }
        proof {
            lemma_absent(self.entries@, key@);
        }
    }

    /// Puts a value under a key, in place of any value the key had.
    pub fn insert(&mut self, key: &str, value: String)
        ensures
            final(self)@ == old(self)@.insert(key@, value@),
    {
        self.remove(key);
        let ghost removed = self.entries@;
        self.entries.push(MetadataEntry { key: String::from_str(key), value });
        proof {
            assert(self.entries@.drop_last() =~= removed);
        }
    }
}

} // verus!
