//! The catalog: every named source, parsed and validated atomically.
//!
//! The catalog document must be a single document holding a `sources`
//! mapping; each entry's key is the source's name and its value the
//! source's description. Parsing fails on the first failing entry — no
//! partial catalog is ever returned.

use vstd::prelude::*;

use crate::doc::{doc_index, docs_view, map_find, Doc, DocV};
use crate::load;
use crate::sources::{
    parse_source_spec, serialize_source_spec, source_res_view, Source, SourceV,
};

verus! {

broadcast use
    vstd::seq::group_seq_axioms,
    vstd::std_specs::vec::group_vec_axioms,
    vstd::string::group_string_axioms;

/// The validated catalog.
pub struct Config {
    pub sources: Vec<Source>,
}

impl View for Config {
    type V = Seq<SourceV>;

    open spec fn view(&self) -> Seq<SourceV> {
        self.sources@.map_values(|s: Source| s@)
    }
}

/// The sources read from the catalog's entries, in order, stopping at the
/// first failure: a non-string name, or the entry's own first failing
/// field. The probe outcomes are supplied positionally.
pub open spec fn sources_list_spec(
    entries: Seq<(DocV, DocV)>,
    prs: Seq<bool>,
    ees: Seq<bool>,
) -> Result<Seq<SourceV>, Seq<char>>
    decreases entries.len(),
{
    if entries.len() == 0 {
        Ok(Seq::empty())
    } else {
        match entries[0].0 {
            DocV::Str(name) => match parse_source_spec(name, entries[0].1, prs[0], ees[0]) {
                Ok(s) => match sources_list_spec(
                    entries.drop_first(),
                    prs.drop_first(),
                    ees.drop_first(),
                ) {
                    Ok(rest) => Ok(seq![s] + rest),
                    Err(e) => Err(e),
                },
                Err(e) => Err(e),
            },
            _ => Err("expected string as source name"@),
        }
    }
}

/// The catalog read from the parsed documents: exactly one document, whose
/// `sources` mapping holds the entries.
pub open spec fn parse_config_spec(docs: Seq<DocV>, prs: Seq<bool>, ees: Seq<bool>) -> Result<
    Seq<SourceV>,
    Seq<char>,
> {
    if docs.len() != 1 {
        Err("configuration should be a single-document YAML file"@)
    } else {
        match doc_index(docs[0], "sources"@) {
            DocV::Mapping(entries) => sources_list_spec(entries, prs, ees),
            _ => Err("missing or empty sources"@),
        }
    }
}

/// The model of a catalog parse outcome.
pub open spec fn config_res_view(r: Result<Config, String>) -> Result<Seq<SourceV>, Seq<char>> {
    match r {
        Ok(c) => Ok(c@),
        Err(e) => Err(e@),
    }
}

fn parse_sources_rec(entries: &Vec<(Doc, Doc)>, idx: usize, eseq: Ghost<Seq<(DocV, DocV)>>) -> (r:
    Result<Vec<Source>, String>)
    requires
        idx <= entries@.len(),
        eseq@.len() == entries@.len(),
        forall|i: int|
            0 <= i < eseq@.len() ==> eseq@[i] == (
                #[trigger] entries@[i].0.dv(),
                entries@[i].1.dv(),
            ),
    ensures
        exists|prs: Seq<bool>, ees: Seq<bool>|
            (match r {
                Ok(v) => Ok::<Seq<SourceV>, Seq<char>>(v@.map_values(|s: Source| s@)),
                Err(e) => Err::<Seq<SourceV>, Seq<char>>(e@),
            }) == sources_list_spec(eseq@.skip(idx as int), prs, ees),
    decreases entries@.len() - idx,
{
    let ghost tail = eseq@.skip(idx as int);
    if idx == entries.len() {
        let v: Vec<Source> = Vec::new();
        proof {
            assert(tail =~= Seq::<(DocV, DocV)>::empty());
            assert(v@.map_values(|s: Source| s@) =~= Seq::<SourceV>::empty());
            let prs = Seq::<bool>::empty();
            let ees = Seq::<bool>::empty();
            assert(Ok::<Seq<SourceV>, Seq<char>>(v@.map_values(|s: Source| s@))
                == sources_list_spec(tail, prs, ees));
        }
        return Ok(v);
    }
    proof {
        assert(tail[0] == eseq@[idx as int]);
        assert(tail.drop_first() =~= eseq@.skip(idx as int + 1));
    }
    proof {
        assert(eseq@[idx as int] == (entries@[idx as int].0.dv(), entries@[idx as int].1.dv()));
    }
    let name: String = match &entries[idx].0 {
        Doc::Str(s) => s.clone(),
        _ => {
            let msg = String::from_str("expected string as source name");
            proof {
                let prs = seq![true];
                let ees = seq![true];
                assert(Err::<Seq<SourceV>, Seq<char>>(msg@) == sources_list_spec(
                    tail,
                    prs,
                    ees,
                ));
            }
            return Err(msg);
        },
    };
    let ghost name_v = name@;
    let ghost d_v = entries@[idx as int].1.dv();
    proof {
        assert(tail[0].0 == DocV::Str(name_v));
        assert(tail[0].1 == d_v);
    }
    let parsed = Source::parse(name, &entries[idx].1);
    let ghost pe = choose|pr: bool, ee: bool|
        source_res_view(parsed) == #[trigger] parse_source_spec(name_v, d_v, pr, ee);
    let head = match parsed {
        Ok(s) => s,
        Err(e) => {
            proof {
                let prs = seq![pe.0];
                let ees = seq![pe.1];
                assert(source_res_view(Err::<Source, String>(e)) == parse_source_spec(
                    name_v,
                    d_v,
                    pe.0,
                    pe.1,
                ));
                assert(Err::<Seq<SourceV>, Seq<char>>(e@) == sources_list_spec(tail, prs, ees));
            }
            return Err(e);
        },
    };
    match parse_sources_rec(entries, idx + 1, eseq) {
        Ok(mut rest) => {
            proof {
                assert(source_res_view(Ok(head)) == parse_source_spec(
                    name_v,
                    d_v,
                    pe.0,
                    pe.1,
                ));
                let (prs2, ees2) = choose|prs2: Seq<bool>, ees2: Seq<bool>|
                    Ok::<Seq<SourceV>, Seq<char>>(rest@.map_values(|s: Source| s@))
                        == #[trigger] sources_list_spec(eseq@.skip(idx as int + 1), prs2, ees2);
                let prs = seq![pe.0] + prs2;
                let ees = seq![pe.1] + ees2;
                assert(prs.drop_first() =~= prs2);
                assert(ees.drop_first() =~= ees2);
                let ghost old_rest = rest@;
                assert(Ok::<Seq<SourceV>, Seq<char>>(
                    seq![head@] + old_rest.map_values(|s: Source| s@),
                ) == sources_list_spec(tail, prs, ees));
            }
            let ghost old_rest = rest@;
            rest.insert(0, head);
            proof {
                assert(rest@.map_values(|s: Source| s@) =~= seq![rest@[0]@] + old_rest.map_values(
                    |s: Source| s@,
                ));
            }
            Ok(rest)
        },
        Err(e) => {
            proof {
                assert(source_res_view(Ok(head)) == parse_source_spec(
                    name_v,
                    d_v,
                    pe.0,
                    pe.1,
                ));
                let (prs2, ees2) = choose|prs2: Seq<bool>, ees2: Seq<bool>|
                    Err::<Seq<SourceV>, Seq<char>>(e@) == #[trigger] sources_list_spec(
                        eseq@.skip(idx as int + 1),
                        prs2,
                        ees2,
                    );
                let prs = seq![pe.0] + prs2;
                let ees = seq![pe.1] + ees2;
                assert(prs.drop_first() =~= prs2);
                assert(ees.drop_first() =~= ees2);
                assert(Err::<Seq<SourceV>, Seq<char>>(e@) == sources_list_spec(tail, prs, ees));
            }
            Err(e)
        },
    }
}

impl Config {
    /// Reads the catalog out of already-parsed documents: there must be
    /// exactly one, holding a `sources` mapping; each entry becomes a
    /// validated source, in order, and the first failure is the result. The
    /// outcome is what the documents describe, for one outcome of each
    /// entry's machine-state probes.
    pub fn parse_docs(docs: Vec<Doc>) -> (r: Result<Config, String>)
        ensures
            exists|prs: Seq<bool>, ees: Seq<bool>|
                config_res_view(r) == #[trigger] parse_config_spec(docs_view(docs@), prs, ees),
    {
        let ghost dseq = docs_view(docs@);
        if docs.len() != 1 {
            let msg = String::from_str("configuration should be a single-document YAML file");
            proof {
                assert(config_res_view(Err(msg)) == parse_config_spec(
                    dseq,
                    Seq::<bool>::empty(),
                    Seq::<bool>::empty(),
                ));
            }
            return Err(msg);
        }
        let missing = Doc::Missing;
        let sources_doc = match docs[0].get("sources") {
            Some(d) => d,
            None => &missing,
        };
        proof {
            assert(dseq[0] == docs@[0].dv());
        }
        match sources_doc {
            Doc::Mapping(entries) => {
                let ghost eseq = sources_doc.dv()->Mapping_0;
                proof {
                    assert(forall|i: int|
                        0 <= i < eseq.len() ==> eseq[i] == (
                            #[trigger] entries@[i].0.dv(),
                            entries@[i].1.dv(),
                        ));
                }
                match parse_sources_rec(entries, 0, Ghost(eseq)) {
                    Ok(v) => {
                        let c = Config { sources: v };
                        proof {
                            assert(eseq.skip(0) =~= eseq);
                            let (prs, ees) = choose|prs: Seq<bool>, ees: Seq<bool>|
                                Ok::<Seq<SourceV>, Seq<char>>(
                                    c.sources@.map_values(|s: Source| s@),
                                ) == #[trigger] sources_list_spec(eseq.skip(0), prs, ees);
                            assert(config_res_view(Ok(c)) == parse_config_spec(dseq, prs, ees));
                        }
                        Ok(c)
                    },
                    Err(e) => {
                        proof {
                            assert(eseq.skip(0) =~= eseq);
                            let (prs, ees) = choose|prs: Seq<bool>, ees: Seq<bool>|
                                Err::<Seq<SourceV>, Seq<char>>(e@) == #[trigger] sources_list_spec(
                                    eseq.skip(0),
                                    prs,
                                    ees,
                                );
                            assert(config_res_view(Err(e)) == parse_config_spec(dseq, prs, ees));
                        }
                        Err(e)
                    },
                }
            },
            _ => {
                let msg = String::from_str("missing or empty sources");
                proof {
                    assert(config_res_view(Err(msg)) == parse_config_spec(
                        dseq,
                        Seq::<bool>::empty(),
                        Seq::<bool>::empty(),
                    ));
                }
                Err(msg)
            },
        }
    }

    /// Parses the catalog from its document text. A text the scanner
    /// rejects yields the scanner's own message; a text it accepts yields
    /// exactly what the scanned documents describe, for one outcome of
    /// each entry's machine-state probes.
    pub fn parse(text: &str) -> (r: Result<Config, String>)
        ensures
            load::yaml_docs_of(text@) matches Err(e) ==> config_res_view(r) == Err::<
                Seq<SourceV>,
                Seq<char>,
            >(e),
            load::yaml_docs_of(text@) is Ok ==> exists|prs: Seq<bool>, ees: Seq<bool>|
                config_res_view(r) == #[trigger] parse_config_spec(
                    load::yaml_docs_of(text@)->Ok_0,
                    prs,
                    ees,
                ),
    {
        let loaded = load::load_yaml_docs(text);
        proof {
            assert(load::yaml_docs_of(text@) == (match loaded {
                Ok(docs) => Ok::<Seq<DocV>, Seq<char>>(docs_view(docs@)),
                Err(e) => Err::<Seq<DocV>, Seq<char>>(e@),
            }));
        }
        let docs = match loaded {
            Ok(d) => d,
            Err(e) => {
                return Err(e);
            },
        };
        let ghost dv = docs_view(docs@);
        proof {
            assert(load::yaml_docs_of(text@) == Ok::<Seq<DocV>, Seq<char>>(dv));
        }
        let r = Self::parse_docs(docs);
        proof {
            let (prs, ees) = choose|prs: Seq<bool>, ees: Seq<bool>|
                config_res_view(r) == #[trigger] parse_config_spec(docs_view(docs@), prs, ees);
            assert(load::yaml_docs_of(text@)->Ok_0 == dv);
            assert(config_res_view(r) == parse_config_spec(
                load::yaml_docs_of(text@)->Ok_0,
                prs,
                ees,
            ));
        }
        r
    }
}

/// The serialized catalog entries: each source's name keying its serialized
/// fields, in order.
pub open spec fn serialize_sources_entries(sources: Seq<SourceV>) -> Seq<(DocV, DocV)> {
    Seq::new(
        sources.len(),
        |i: int| (DocV::Str(sources[i].name), serialize_source_spec(sources[i])),
    )
}

/// The serialized catalog: one document with one `sources` mapping.
pub open spec fn serialize_config_spec(sources: Seq<SourceV>) -> DocV {
    DocV::Mapping(seq![(DocV::Str("sources"@), DocV::Mapping(serialize_sources_entries(sources)))])
}

proof fn lemma_sources_round_trip(
    orig: Seq<(DocV, DocV)>,
    prs: Seq<bool>,
    ees: Seq<bool>,
    sources: Seq<SourceV>,
)
    requires
        sources_list_spec(orig, prs, ees) == Ok::<Seq<SourceV>, Seq<char>>(sources),
    ensures
        sources_list_spec(serialize_sources_entries(sources), prs, ees) == Ok::<
            Seq<SourceV>,
            Seq<char>,
        >(sources),
    decreases orig.len(),
{
    let ser = serialize_sources_entries(sources);
    if orig.len() == 0 {
        assert(sources =~= Seq::<SourceV>::empty());
        assert(ser =~= Seq::<(DocV, DocV)>::empty());
    } else {
        let name = orig[0].0->Str_0;
        let rest = sources_list_spec(orig.drop_first(), prs.drop_first(), ees.drop_first());
        let s0 = choose|s0: SourceV|
            parse_source_spec(name, orig[0].1, prs[0], ees[0]) == Ok::<SourceV, Seq<char>>(s0);
        assert(sources == seq![s0] + rest->Ok_0);
        assert(sources[0] == s0);
        assert(s0.name == name);
        crate::sources::lemma_source_round_trip(name, orig[0].1, prs[0], ees[0], s0);
        lemma_sources_round_trip(orig.drop_first(), prs.drop_first(), ees.drop_first(),
            rest->Ok_0);
        assert(ser[0] == (DocV::Str(s0.name), serialize_source_spec(s0)));
        assert(ser.drop_first() =~= serialize_sources_entries(rest->Ok_0));
        assert(seq![s0] + rest->Ok_0 =~= sources);
    }
}

/// Law: for every catalog document that parses, re-serializing the
/// validated fields of every source reconstructs the same values —
/// re-parsing the serialized catalog, under the same probe outcomes, gives
/// the same sources back.
pub proof fn lemma_catalog_round_trip(
    docs: Seq<DocV>,
    prs: Seq<bool>,
    ees: Seq<bool>,
    sources: Seq<SourceV>,
)
    requires
        parse_config_spec(docs, prs, ees) == Ok::<Seq<SourceV>, Seq<char>>(sources),
    ensures
        parse_config_spec(seq![serialize_config_spec(sources)], prs, ees) == Ok::<
            Seq<SourceV>,
            Seq<char>,
        >(sources),
{
    let ser = serialize_config_spec(sources);
    let entry = (DocV::Str("sources"@), DocV::Mapping(serialize_sources_entries(sources)));
    assert(ser->Mapping_0 =~= seq![entry]);
    assert(map_find(ser->Mapping_0, "sources"@) == entry.1);
    assert(doc_index(ser, "sources"@) == DocV::Mapping(serialize_sources_entries(sources)));
    let entries = doc_index(docs[0], "sources"@)->Mapping_0;
    lemma_sources_round_trip(entries, prs, ees, sources);
    assert(seq![ser].len() == 1);
    assert(seq![ser][0] == ser);
}

} // verus!
