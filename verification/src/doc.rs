//! A generic structured-document value.
//!
//! Catalog entries and the engine's report both arrive as structured
//! documents (mappings, lists, strings, booleans). `Doc` holds such a value
//! as plain data, and `DocV` is its mathematical model, used by every
//! contract that speaks about document shapes.

use vstd::prelude::*;

verus! {

broadcast use vstd::seq::group_seq_axioms, vstd::std_specs::vec::group_vec_axioms;

/// A structured-document value: the input shape for the catalog parser and
/// the report decoder.
///
/// `Missing` stands for an absent key, so that looking a key up is total.
/// `Other` covers every node kind the orchestration logic never reads
/// (null, floating-point numbers, aliases).
#[derive(Debug)]
pub enum Doc {
    Str(String),
    Bool(bool),
    Int(i64),
    Array(Vec<Doc>),
    Mapping(Vec<(Doc, Doc)>),
    Missing,
    Other,
}

/// The mathematical model of a `Doc`.
pub enum DocV {
    Str(Seq<char>),
    Bool(bool),
    Int(int),
    Array(Seq<DocV>),
    Mapping(Seq<(DocV, DocV)>),
    Missing,
    Other,
}

impl Doc {
    /// The model of this document value.
    pub open spec fn dv(self) -> DocV
        decreases self,
    {
        match self {
            Doc::Str(s) => DocV::Str(s@),
            Doc::Bool(b) => DocV::Bool(b),
            Doc::Int(i) => DocV::Int(i as int),
            Doc::Array(items) => DocV::Array(
                Seq::new(
                    items@.len(),
                    |i: int|
                        if 0 <= i < items@.len() {
                            items@[i].dv()
                        } else {
                            DocV::Other
                        },
                ),
            ),
            Doc::Mapping(entries) => DocV::Mapping(
                Seq::new(
                    entries@.len(),
                    |i: int|
                        if 0 <= i < entries@.len() {
                            (entries@[i].0.dv(), entries@[i].1.dv())
                        } else {
                            (DocV::Other, DocV::Other)
                        },
                ),
            ),
            Doc::Missing => DocV::Missing,
            Doc::Other => DocV::Other,
        }
    }
}

/// The models of a list of document values.
pub open spec fn docs_view(docs: Seq<Doc>) -> Seq<DocV> {
    docs.map_values(|d: Doc| d.dv())
}

/// The value under a string key among a mapping's entries: the first entry
/// whose key is the given string, or `Missing` when no entry has it.
pub open spec fn map_find(entries: Seq<(DocV, DocV)>, key: Seq<char>) -> DocV
    decreases entries.len(),
{
    if entries.len() == 0 {
        DocV::Missing
    } else if entries[0].0 matches DocV::Str(k) && k == key {
        entries[0].1
    } else {
        map_find(entries.drop_first(), key)
    }
}

/// Indexing a document by a string key: defined on mappings, `Missing`
/// everywhere else.
pub open spec fn doc_index(d: DocV, key: Seq<char>) -> DocV {
    match d {
        DocV::Mapping(entries) => map_find(entries, key),
        _ => DocV::Missing,
    }
}

impl Doc {
    /// Looks a string key up in this document. `None` means the key is
    /// absent or the document is not a mapping.
    pub fn get<'a>(&'a self, key: &str) -> (r: Option<&'a Doc>)
        ensures
            match r {
                Some(d) => d.dv() == doc_index(self.dv(), key@),
                None => doc_index(self.dv(), key@) == DocV::Missing,
            },
    {
        let key_owned = String::from_str(key);
        match self {
            Doc::Mapping(entries) => {
                let ghost eseq = self.dv()->Mapping_0;
                proof {
                    assert(eseq.skip(0) =~= eseq);
                }
                let n = entries.len();
                let mut idx: usize = 0;
                while idx < n
                    invariant
                        n == entries@.len(),
                        idx <= n,
                        key_owned@ == key@,
                        self.dv() matches DocV::Mapping(es) && es == eseq,
                        eseq.len() == n,
                        forall|i: int|
                            0 <= i < n ==> eseq[i] == (
                                #[trigger] entries@[i].0.dv(),
                                entries@[i].1.dv(),
                            ),
                        map_find(eseq, key@) == map_find(eseq.skip(idx as int), key@),
                    decreases n - idx,
                {
                    let ghost tail = eseq.skip(idx as int);
                    proof {
                        assert(tail.len() == n - idx);
                        assert(tail[0] == eseq[idx as int]);
                        assert(eseq[idx as int] == (
                            entries@[idx as int].0.dv(),
                            entries@[idx as int].1.dv(),
                        ));
                        assert(tail.drop_first() =~= eseq.skip(idx as int + 1));
                    }
                    let entry = &entries[idx];
                    let hit = match &entry.0 {
                        Doc::Str(s) => *s == key_owned,
                        _ => false,
                    };
                    proof {
                        assert(hit == (tail[0].0 matches DocV::Str(k) && k == key@));
                    }
                    if hit {
                        proof {
                            assert(map_find(tail, key@) == tail[0].1);
                        }
                        return Some(&entries[idx].1);
                    }
                    proof {
                        assert(map_find(tail, key@) == map_find(tail.drop_first(), key@));
                    }
                    idx += 1;
                }
                proof {
                    assert(eseq.skip(n as int) =~= Seq::<(DocV, DocV)>::empty());
                }
                None
            },
            _ => None,
        }
    }
}

} // verus!
