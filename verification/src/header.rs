//! The decoded structures of the header region: the lead record and the
//! identifier-to-value mapping built from one section.

use vstd::prelude::*;

use crate::tag::{TagID, TagValue, ValueModel};

verus! {

/// The fixed 96-byte preamble that identifies an archive.
#[derive(Debug, PartialEq, Eq)]
pub struct Lead {
    /// File format major version number.
    pub major: u8,
    /// File format minor version number.
    pub minor: u8,
    /// Package type: 0 = binary, 1 = source.
    pub rpm_type: u16,
    /// Package architecture code.
    pub archnum: u16,
    /// Package name, from a NUL-terminated 66-byte field.
    pub name: String,
    /// Package OS code.
    pub osnum: u16,
    /// Package signature type code.
    pub signature_type: u16,
}

/// The mathematical shape of a lead record.
pub struct LeadModel {
    pub major: u8,
    pub minor: u8,
    pub rpm_type: u16,
    pub archnum: u16,
    pub name: Seq<char>,
    pub osnum: u16,
    pub signature_type: u16,
}

impl View for Lead {
    type V = LeadModel;

    open spec fn view(&self) -> LeadModel {
        LeadModel {
            major: self.major,
            minor: self.minor,
            rpm_type: self.rpm_type,
            archnum: self.archnum,
            name: self.name@,
            osnum: self.osnum,
            signature_type: self.signature_type,
        }
    }
}

/// The mapping the entries of one section denote, inserted in table order:
/// when two entries share an identifier the later one wins.
pub open spec fn entries_map(s: Seq<(TagID, TagValue)>) -> Map<int, ValueModel>
    decreases s.len(),
{
    if s.len() == 0 {
        Map::empty()
    } else {
        entries_map(s.drop_last()).insert(s.last().0 as int, s.last().1@)
    }
}

/// No two entries share an identifier.
pub open spec fn entries_unique(s: Seq<(TagID, TagValue)>) -> bool {
    forall|i: int, j: int| 0 <= i < j < s.len() ==> s[i].0 != s[j].0
}

/// A decoded section: a mapping from tag identifier to decoded value.
/// Viewed as a `Map<int, ValueModel>`.
#[derive(Debug)]
pub struct Header {
    entries: Vec<(TagID, TagValue)>,
}

impl View for Header {
    type V = Map<int, ValueModel>;

    closed spec fn view(&self) -> Map<int, ValueModel> {
        entries_map(self.entries@)
    }
}

/// Unique entries denote a map with one key per entry, holding exactly the
/// entries' values.
proof fn lemma_entries_map_unique(s: Seq<(TagID, TagValue)>)
    requires
        entries_unique(s),
    ensures
        entries_map(s).dom().finite(),
        entries_map(s).len() == s.len(),
        forall|id: int|
            entries_map(s).contains_key(id) <==> exists|i: int|
                0 <= i < s.len() && #[trigger] (s[i].0 as int) == id,
        forall|i: int|
            0 <= i < s.len() ==> entries_map(s).contains_key(#[trigger] (s[i].0 as int))
                && entries_map(s)[s[i].0 as int] == s[i].1@,
    decreases s.len(),
{
    if s.len() > 0 {
        lemma_entries_map_unique(s.drop_last());
        let sub = entries_map(s.drop_last());
        let last = s.last();
        assert(forall|i: int| 0 <= i < s.len() - 1 ==> s.drop_last()[i] == s[i]);
        assert(!sub.contains_key(last.0 as int)) by {
            if sub.contains_key(last.0 as int) {
                let i = choose|i: int|
                    0 <= i < s.drop_last().len() && #[trigger] (s.drop_last()[i].0 as int)
                        == last.0 as int;
                assert(s[i].0 == s[s.len() - 1].0);
            }
        }
        assert(entries_map(s).dom() =~= sub.dom().insert(last.0 as int));
        vstd::set::axiom_set_insert_len(sub.dom(), last.0 as int);
    }
}

impl Header {
    #[verifier::type_invariant]
    spec fn wf(self) -> bool {
        entries_unique(self.entries@)
    }

    /// An empty header, denoting the empty mapping.
    pub fn new() -> (h: Header)
        ensures
            h@ == Map::<int, ValueModel>::empty(),
    {
        Header { entries: Vec::new() }
    }

    /// The number of identifiers in the mapping.
    pub fn len(&self) -> (n: usize)
        ensures
            n == self@.len(),
    {
        proof {
            use_type_invariant(self);
            lemma_entries_map_unique(self.entries@);
        }
        self.entries.len()
    }

    /// The value stored for an identifier, if any.
    pub fn get(&self, id: &TagID) -> (r: Option<&TagValue>)
        ensures
            match r {
                Some(v) => self@.contains_key(*id as int) && v@ == self@[*id as int],
                None => !self@.contains_key(*id as int),
            },
    {
        proof {
            use_type_invariant(self);
            lemma_entries_map_unique(self.entries@);
        }
        let n = self.entries.len();
        let mut i: usize = 0;
        while i < n
            invariant
                0 <= i <= n,
                n == self.entries@.len(),
                entries_unique(self.entries@),
                entries_map(self.entries@) == self@,
                forall|j: int| 0 <= j < i ==> self.entries@[j].0 != *id,
            decreases n - i,
        {
            if self.entries[i].0 == *id {
                proof {
                    lemma_entries_map_unique(self.entries@);
                }
                return Some(&self.entries[i].1);
            }
            i = i + 1;
        }
        proof {
            lemma_entries_map_unique(self.entries@);
            if self@.contains_key(*id as int) {
                let j = choose|j: int|
                    0 <= j < self.entries@.len() && #[trigger] (self.entries@[j].0 as int) == *id
                        as int;
                assert(self.entries@[j].0 == *id);
            }
        }
        None
    }

    /// The identifier/value pairs of the mapping, in insertion order, each
    /// identifier once.
    pub fn entries(&self) -> (r: &Vec<(TagID, TagValue)>)
        ensures
            r@.len() == self@.len(),
            forall|i: int|
                0 <= i < r@.len() ==> self@.contains_key(#[trigger] (r@[i].0 as int))
                    && self@[r@[i].0 as int] == r@[i].1@,
    {
        proof {
            use_type_invariant(self);
            lemma_entries_map_unique(self.entries@);
        }
        &self.entries
    }

    /// Insert a value for an identifier, replacing any earlier value.
    pub fn insert(&mut self, id: TagID, v: TagValue)
        ensures
            final(self)@ == old(self)@.insert(id as int, v@),
    {
        let mut tmp = Header { entries: Vec::new() };
        core::mem::swap(self, &mut tmp);
        proof {
            use_type_invariant(&tmp);
        }
        let Header { entries: mut es } = tmp;
        let ghost s0 = es@;
        let n = es.len();
        let mut i: usize = 0;
        while i < n
            invariant
                0 <= i <= n,
                n == es@.len(),
                es@ == s0,
                s0 == old(self).entries@,
                entries_unique(s0),
                forall|j: int| 0 <= j < i ==> es@[j].0 != id,
            decreases n - i,
        {
            if es[i].0 == id {
                es[i] = (id, v);
                proof {
                    lemma_entries_map_update(s0, i as int, id, v);
                }
                *self = Header { entries: es };
                return ;
            }
            i = i + 1;
        }
        es.push((id, v));
        proof {
            assert(es@.drop_last() =~= s0);
            assert(forall|j: int| 0 <= j < s0.len() ==> es@[j] == s0[j]);
        }
        *self = Header { entries: es };
    }
}

/// Replacing the entry that holds an identifier updates the denoted map at
/// that identifier alone.
proof fn lemma_entries_map_update(s: Seq<(TagID, TagValue)>, i: int, id: TagID, v: TagValue)
    requires
        entries_unique(s),
        0 <= i < s.len(),
        s[i].0 == id,
    ensures
        entries_map(s.update(i, (id, v))) == entries_map(s).insert(id as int, v@),
        entries_unique(s.update(i, (id, v))),
    decreases s.len(),
{
    let t = s.update(i, (id, v));
    assert(forall|j: int| 0 <= j < s.len() && j != i ==> t[j] == s[j]);
    if i == s.len() - 1 {
        assert(t.drop_last() =~= s.drop_last());
        assert(entries_map(t) =~= entries_map(s).insert(id as int, v@));
    } else {
        assert(t.drop_last() =~= s.drop_last().update(i, (id, v)));
        lemma_entries_map_update(s.drop_last(), i, id, v);
        assert(s.last().0 != id);
        assert(entries_map(t) == entries_map(s.drop_last()).insert(id as int, v@).insert(
            s.last().0 as int,
            s.last().1@,
        ));
        assert(entries_map(t) =~= entries_map(s).insert(id as int, v@));
    }
}

} // verus!
