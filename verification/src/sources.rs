//! Playbook sources: the validated catalog entry and its engine context.
//!
//! A source is parsed from one structured-document value. Validation runs
//! in a fixed order and stops at the first failure, because operators
//! script against the exact failure messages. The two machine-state checks
//! (the source directory being readable, the engine override being
//! executable) are probes whose outcome the contracts quantify over; every
//! other decision is a function of the document alone.

use vstd::prelude::*;

use crate::doc::{doc_index, map_find, Doc, DocV};
use crate::pattern::{default_match, regex_compile_err, regex_match, Pattern};
use crate::exec::Invocation;
use crate::probe;

verus! {

broadcast use
    vstd::seq::group_seq_axioms,
    vstd::std_specs::vec::group_vec_axioms,
    vstd::string::group_string_axioms;

/// Parameters to use when invoking the engine: an optional path override
/// and extra environment entries, in document order.
pub struct AnsibleContext {
    pub path: Option<String>,
    pub env: Vec<(String, String)>,
}

/// The model of an engine context.
pub struct AnsibleContextV {
    pub path: Option<Seq<char>>,
    pub env: Seq<(Seq<char>, Seq<char>)>,
}

impl View for AnsibleContext {
    type V = AnsibleContextV;

    open spec fn view(&self) -> AnsibleContextV {
        AnsibleContextV {
            path: match self.path {
                Some(p) => Some(p@),
                None => None,
            },
            env: self.env@.map_values(|e: (String, String)| (e.0@, e.1@)),
        }
    }
}

impl Default for AnsibleContext {
    /// The context used when a source gives none: the engine found on the
    /// standard search path, no extra environment.
    fn default() -> (r: Self)
        ensures
            r@.path is None,
            r@.env == Seq::<(Seq<char>, Seq<char>)>::empty(),
    {
        let r = AnsibleContext { path: None, env: Vec::new() };
        proof {
            assert(r@.env =~= Seq::<(Seq<char>, Seq<char>)>::empty());
        }
        r
    }
}

/// One environment entry read from a document item: its `name` and `value`
/// strings, or the exact message for the first field that fails.
pub open spec fn env_entry_spec(item: DocV) -> Result<(Seq<char>, Seq<char>), Seq<char>> {
    match doc_index(item, "name"@) {
        DocV::Str(n) => match doc_index(item, "value"@) {
            DocV::Str(v) => Ok((n, v)),
            DocV::Missing => Err("missing value property for environment variable"@),
            _ => Err("non-string value property for environment variable"@),
        },
        DocV::Missing => Err("missing name property for environment variable"@),
        _ => Err("non-string name property for environment variable"@),
    }
}

/// The environment entries read from a document list, in order, stopping at
/// the first failing item.
pub open spec fn env_list_spec(items: Seq<DocV>) -> Result<
    Seq<(Seq<char>, Seq<char>)>,
    Seq<char>,
>
    decreases items.len(),
{
    if items.len() == 0 {
        Ok(Seq::empty())
    } else {
        match env_entry_spec(items[0]) {
            Err(e) => Err(e),
            Ok(p) => match env_list_spec(items.drop_first()) {
                Err(e) => Err(e),
                Ok(rest) => Ok(seq![p] + rest),
            },
        }
    }
}

/// The engine context read from a document, with the executability of a
/// given override path supplied as the probe's outcome.
pub open spec fn ansible_spec(d: DocV, engine_executable: bool) -> Result<
    AnsibleContextV,
    Seq<char>,
> {
    let pathr: Result<Option<Seq<char>>, Seq<char>> = match doc_index(d, "path"@) {
        DocV::Missing => Ok(None),
        DocV::Str(s) => if engine_executable {
            Ok(Some(s))
        } else {
            Err("no executable ansible-playbook at "@ + s)
        },
        _ => Err("expected string for the ansible-playbook path"@),
    };
    match pathr {
        Err(e) => Err(e),
        Ok(p) => match doc_index(d, "env"@) {
            DocV::Missing => Ok(AnsibleContextV { path: p, env: Seq::empty() }),
            DocV::Array(items) => match env_list_spec(items) {
                Ok(env) => Ok(AnsibleContextV { path: p, env }),
                Err(e) => Err(e),
            },
            _ => Err("expected list for the ansible-playbook environment"@),
        },
    }
}

/// The model of an engine-context parse outcome.
pub open spec fn ansible_res_view(r: Result<AnsibleContext, String>) -> Result<
    AnsibleContextV,
    Seq<char>,
> {
    match r {
        Ok(c) => Ok(c@),
        Err(e) => Err(e@),
    }
}

fn parse_env_list(items: &Vec<Doc>, iseq: Ghost<Seq<DocV>>) -> (r: Result<
    Vec<(String, String)>,
    String,
>)
    requires
        iseq@.len() == items@.len(),
        forall|i: int| 0 <= i < iseq@.len() ==> iseq@[i] == #[trigger] items@[i].dv(),
    ensures
        match r {
            Ok(env) => env_list_spec(iseq@) == Ok::<_, Seq<char>>(
                env@.map_values(|e: (String, String)| (e.0@, e.1@)),
            ),
            Err(e) => env_list_spec(iseq@) == Err::<Seq<(Seq<char>, Seq<char>)>, _>(e@),
        },
{
    let mut out: Vec<(String, String)> = Vec::new();
    let n = items.len();
    let mut idx: usize = 0;
    proof {
        assert(iseq@.skip(0) =~= iseq@);
        assert(out@.map_values(|e: (String, String)| (e.0@, e.1@)) =~= Seq::<
            (Seq<char>, Seq<char>),
        >::empty());
    }
    while idx < n
        invariant
            n == items@.len(),
            idx <= n,
            iseq@.len() == n,
            forall|i: int| 0 <= i < iseq@.len() ==> iseq@[i] == #[trigger] items@[i].dv(),
            env_list_spec(iseq@) == match env_list_spec(iseq@.skip(idx as int)) {
                Ok(rest) => Ok::<_, Seq<char>>(
                    out@.map_values(|e: (String, String)| (e.0@, e.1@)) + rest,
                ),
                Err(e) => Err::<Seq<(Seq<char>, Seq<char>)>, _>(e),
            },
        decreases n - idx,
    {
        let ghost tail = iseq@.skip(idx as int);
        proof {
            assert(tail.len() == n - idx);
            assert(tail[0] == iseq@[idx as int]);
            assert(tail.drop_first() =~= iseq@.skip(idx as int + 1));
        }
        let item = &items[idx];
        let missing = Doc::Missing;
        let name_doc = match item.get("name") {
            Some(d) => d,
            None => &missing,
        };
        let name: String = match name_doc {
            Doc::Str(s) => s.clone(),
            Doc::Missing => {
                return Err(String::from_str("missing name property for environment variable"));
            },
            _ => {
                return Err(String::from_str("non-string name property for environment variable"));
            },
        };
        let value_doc = match item.get("value") {
            Some(d) => d,
            None => &missing,
        };
        let value: String = match value_doc {
            Doc::Str(s) => s.clone(),
            Doc::Missing => {
                return Err(String::from_str("missing value property for environment variable"));
            },
            _ => {
                return Err(
                    String::from_str("non-string value property for environment variable"),
                );
            },
        };
        let ghost old_out = out@;
        out.push((name, value));
        proof {
            assert(env_entry_spec(tail[0]) == Ok::<_, Seq<char>>((name@, value@)));
            assert(out@.map_values(|e: (String, String)| (e.0@, e.1@)) =~= old_out.map_values(
                |e: (String, String)| (e.0@, e.1@),
            ) + seq![(name@, value@)]);
            match env_list_spec(tail.drop_first()) {
                Ok(rest) => {
                    let m = old_out.map_values(|e: (String, String)| (e.0@, e.1@));
                    assert(m + (seq![(name@, value@)] + rest) =~= (m + seq![(name@, value@)])
                        + rest);
                },
                Err(_) => {},
            }
        }
        idx += 1;
    }
    proof {
        assert(iseq@.skip(n as int) =~= Seq::<DocV>::empty());
        let m = out@.map_values(|e: (String, String)| (e.0@, e.1@));
        assert(m + Seq::<(Seq<char>, Seq<char>)>::empty() =~= m);
    }
    Ok(out)
}

impl AnsibleContext {
    /// Reads the engine context out of a document: an optional engine path,
    /// checked executable by a machine-state probe, and an optional list of
    /// environment entries. The result is the context the document
    /// describes, for one of the probe's two possible answers.
    pub fn parse(doc: &Doc) -> (r: Result<AnsibleContext, String>)
        ensures
            exists|ee: bool| ansible_res_view(r) == ansible_spec(doc.dv(), ee),
    {
        let missing = Doc::Missing;
        let path_doc = match doc.get("path") {
            Some(d) => d,
            None => &missing,
        };
        let mut engine_ok: bool = true;
        let path: Option<String> = match path_doc {
            Doc::Missing => None,
            Doc::Str(s) => {
                engine_ok = probe::file_executable(s.as_str());
                if engine_ok {
                    Some(s.clone())
                } else {
                    let msg = String::from_str("no executable ansible-playbook at ").concat(
                        s.as_str(),
                    );
                    proof {
                        assert(ansible_res_view(Err(msg)) == ansible_spec(doc.dv(), false));
                    }
                    return Err(msg);
                }
            },
            _ => {
                let msg = String::from_str("expected string for the ansible-playbook path");
                proof {
                    assert(ansible_res_view(Err(msg)) == ansible_spec(doc.dv(), true));
                }
                return Err(msg);
            },
        };
        let env_doc = match doc.get("env") {
            Some(d) => d,
            None => &missing,
        };
        let env: Vec<(String, String)> = match env_doc {
            Doc::Missing => Vec::new(),
            Doc::Array(items) => {
                let ghost iseq = env_doc.dv()->Array_0;
                proof {
                    assert(forall|i: int|
                        0 <= i < iseq.len() ==> iseq[i] == #[trigger] items@[i].dv());
                }
                match parse_env_list(items, Ghost(iseq)) {
                    Ok(env) => env,
                    Err(e) => {
                        proof {
                            assert(ansible_res_view(Err(e)) == ansible_spec(
                                doc.dv(),
                                engine_ok,
                            ));
                        }
                        return Err(e);
                    },
                }
            },
            _ => {
                let msg = String::from_str("expected list for the ansible-playbook environment");
                proof {
                    assert(ansible_res_view(Err(msg)) == ansible_spec(doc.dv(), engine_ok));
                }
                return Err(msg);
            },
        };
        let r = AnsibleContext { path, env };
        proof {
            if env_doc.dv() is Missing {
                assert(r@.env =~= Seq::<(Seq<char>, Seq<char>)>::empty());
            }
            assert(ansible_res_view(Ok(r)) == ansible_spec(doc.dv(), engine_ok));
        }
        Ok(r)
    }
}


/// The model of an optional string.
pub open spec fn opt_view(o: Option<String>) -> Option<Seq<char>> {
    match o {
        Some(s) => Some(s@),
        None => None,
    }
}

/// A playbook source: a named directory of playbooks plus its execution
/// policy.
pub struct Source {
    pub name: String,
    pub path: String,
    pub recurse: bool,
    pub playbook_match: Pattern,
    pub pre_provision: Option<String>,
    pub ansible: AnsibleContext,
}

/// The model of a source.
pub struct SourceV {
    pub name: Seq<char>,
    pub path: Seq<char>,
    pub recurse: bool,
    pub playbook_match: Seq<char>,
    pub pre_provision: Option<Seq<char>>,
    pub ansible: AnsibleContextV,
}

impl View for Source {
    type V = SourceV;

    open spec fn view(&self) -> SourceV {
        SourceV {
            name: self.name@,
            path: self.path@,
            recurse: self.recurse,
            playbook_match: self.playbook_match.pat(),
            pre_provision: opt_view(self.pre_provision),
            ansible: self.ansible@,
        }
    }
}

/// The source read from a document, in validation order: `path` (with the
/// readable-directory probe's outcome supplied), `recurse`,
/// `playbook_match`, `pre_provision`, then the engine context (with the
/// executable-file probe's outcome supplied). The first failure's message
/// is the result.
pub open spec fn parse_source_spec(
    name: Seq<char>,
    d: DocV,
    path_readable: bool,
    engine_executable: bool,
) -> Result<SourceV, Seq<char>> {
    let pathr: Result<Seq<char>, Seq<char>> = match doc_index(d, "path"@) {
        DocV::Str(s) => if path_readable {
            Ok(s)
        } else {
            Err("failed to read at "@ + s)
        },
        DocV::Missing => Err("missing path parameter"@),
        _ => Err("expected string for the path parameter"@),
    };
    match pathr {
        Err(e) => Err(e),
        Ok(path) => {
            let rr: Result<bool, Seq<char>> = match doc_index(d, "recurse"@) {
                DocV::Bool(b) => Ok(b),
                DocV::Missing => Ok(false),
                _ => Err("expected boolean for the recurse source parameter"@),
            };
            match rr {
                Err(e) => Err(e),
                Ok(recurse) => {
                    let mr: Result<Seq<char>, Seq<char>> = match doc_index(
                        d,
                        "playbook_match"@,
                    ) {
                        DocV::Str(s) => match regex_compile_err(s) {
                            None => Ok(s),
                            Some(e) => Err(e),
                        },
                        DocV::Missing => Ok(default_match()),
                        _ => Err("expected string for the playbook_match source parameter"@),
                    };
                    match mr {
                        Err(e) => Err(e),
                        Ok(pm) => {
                            let ppr: Result<Option<Seq<char>>, Seq<char>> = match doc_index(
                                d,
                                "pre_provision"@,
                            ) {
                                DocV::Str(s) => Ok(Some(s)),
                                DocV::Missing => Ok(None),
                                _ => Err(
                                    "expected string for the pre_provision source parameter"@,
                                ),
                            };
                            match ppr {
                                Err(e) => Err(e),
                                Ok(pp) => {
                                    let ar: Result<AnsibleContextV, Seq<char>> = if doc_index(
                                        d,
                                        "ansible_playbook"@,
                                    ) is Mapping {
                                        ansible_spec(
                                            doc_index(d, "ansible_playbook"@),
                                            engine_executable,
                                        )
                                    } else {
                                        Ok(AnsibleContextV { path: None, env: Seq::empty() })
                                    };
                                    match ar {
                                        Err(e) => Err(e),
                                        Ok(a) => Ok(
                                            SourceV {
                                                name,
                                                path,
                                                recurse,
                                                playbook_match: pm,
                                                pre_provision: pp,
                                                ansible: a,
                                            },
                                        ),
                                    }
                                },
                            }
                        },
                    }
                },
            }
        },
    }
}

/// The model of a source parse outcome.
pub open spec fn source_res_view(r: Result<Source, String>) -> Result<SourceV, Seq<char>> {
    match r {
        Ok(s) => Ok(s@),
        Err(e) => Err(e@),
    }
}

impl Source {
    /// Assembles a source from already-validated parts.
    pub fn new(
        name: String,
        path: String,
        recurse: bool,
        playbook_match: Pattern,
        pre_provision: Option<String>,
        ansible: AnsibleContext,
    ) -> (r: Source)
        ensures
            r@ == (SourceV {
                name: name@,
                path: path@,
                recurse,
                playbook_match: playbook_match.pat(),
                pre_provision: opt_view(pre_provision),
                ansible: ansible@,
            }),
    {
        Source { name, path, recurse, playbook_match, pre_provision, ansible }
    }

    /// The source's display name.
    pub fn display_name(&self) -> (r: &String)
        ensures
            r@ == self@.name,
    {
        &self.name
    }

    /// Reads and validates one source out of a document. The result is what
    /// the document describes, for one outcome of the readable-directory
    /// probe and one outcome of the executable-file probe.
    pub fn parse(name: String, doc: &Doc) -> (r: Result<Source, String>)
        ensures
            exists|pr: bool, ee: bool|
                source_res_view(r) == parse_source_spec(name@, doc.dv(), pr, ee),
    {
        let missing = Doc::Missing;
        let path_doc = match doc.get("path") {
            Some(d) => d,
            None => &missing,
        };
        let mut path_ok: bool = true;
        let path: String = match path_doc {
            Doc::Str(s) => {
                path_ok = probe::dir_readable(s.as_str());
                if path_ok {
                    s.clone()
                } else {
                    let msg = String::from_str("failed to read at ").concat(s.as_str());
                    proof {
                        assert(source_res_view(Err(msg)) == parse_source_spec(
                            name@,
                            doc.dv(),
                            false,
                            true,
                        ));
                    }
                    return Err(msg);
                }
            },
            Doc::Missing => {
                let msg = String::from_str("missing path parameter");
                proof {
                    assert(source_res_view(Err(msg)) == parse_source_spec(
                        name@,
                        doc.dv(),
                        true,
                        true,
                    ));
                }
                return Err(msg);
            },
            _ => {
                let msg = String::from_str("expected string for the path parameter");
                proof {
                    assert(source_res_view(Err(msg)) == parse_source_spec(
                        name@,
                        doc.dv(),
                        true,
                        true,
                    ));
                }
                return Err(msg);
            },
        };
        let recurse_doc = match doc.get("recurse") {
            Some(d) => d,
            None => &missing,
        };
        let recurse: bool = match recurse_doc {
            Doc::Bool(b) => *b,
            Doc::Missing => false,
            _ => {
                let msg = String::from_str("expected boolean for the recurse source parameter");
                proof {
                    assert(source_res_view(Err(msg)) == parse_source_spec(
                        name@,
                        doc.dv(),
                        true,
                        true,
                    ));
                }
                return Err(msg);
            },
        };
        let match_doc = match doc.get("playbook_match") {
            Some(d) => d,
            None => &missing,
        };
        let playbook_match: Pattern = match match_doc {
            Doc::Str(s) => match Pattern::new(s.clone()) {
                Ok(p) => p,
                Err(e) => {
                    proof {
                        assert(source_res_view(Err(e)) == parse_source_spec(
                            name@,
                            doc.dv(),
                            true,
                            true,
                        ));
                    }
                    return Err(e);
                },
            },
            Doc::Missing => Pattern::default_filter(),
            _ => {
                let msg = String::from_str(
                    "expected string for the playbook_match source parameter",
                );
                proof {
                    assert(source_res_view(Err(msg)) == parse_source_spec(
                        name@,
                        doc.dv(),
                        true,
                        true,
                    ));
                }
                return Err(msg);
            },
        };
        let pre_doc = match doc.get("pre_provision") {
            Some(d) => d,
            None => &missing,
        };
        let pre_provision: Option<String> = match pre_doc {
            Doc::Str(s) => Some(s.clone()),
            Doc::Missing => None,
            _ => {
                let msg = String::from_str(
                    "expected string for the pre_provision source parameter",
                );
                proof {
                    assert(source_res_view(Err(msg)) == parse_source_spec(
                        name@,
                        doc.dv(),
                        true,
                        true,
                    ));
                }
                return Err(msg);
            },
        };
        let ansible_doc = match doc.get("ansible_playbook") {
            Some(d) => d,
            None => &missing,
        };
        let ansible: AnsibleContext = match ansible_doc {
            Doc::Mapping(_) => match AnsibleContext::parse(ansible_doc) {
                Ok(a) => a,
                Err(e) => {
                    proof {
                        let ee = choose|ee: bool|
                            ansible_res_view(Err::<AnsibleContext, String>(e))
                                == ansible_spec(ansible_doc.dv(), ee);
                        assert(source_res_view(Err(e)) == parse_source_spec(
                            name@,
                            doc.dv(),
                            true,
                            ee,
                        ));
                    }
                    return Err(e);
                },
            },
            _ => AnsibleContext::default(),
        };
        let r = Source { name, path, recurse, playbook_match, pre_provision, ansible };
        proof {
            if ansible_doc.dv() is Mapping {
                let ee = choose|ee: bool|
                    ansible_res_view(Ok(r.ansible)) == ansible_spec(ansible_doc.dv(), ee);
                assert(source_res_view(Ok(r)) == parse_source_spec(name@, doc.dv(), true, ee));
            } else {
                assert(r.ansible@.env =~= Seq::<(Seq<char>, Seq<char>)>::empty());
                assert(source_res_view(Ok(r)) == parse_source_spec(name@, doc.dv(), true, true));
            }
        }
        Ok(r)
    }
}


/// One serialized environment entry: a mapping with its `name` and `value`.
pub open spec fn env_item_spec(e: (Seq<char>, Seq<char>)) -> DocV {
    DocV::Mapping(
        seq![
            (DocV::Str("name"@), DocV::Str(e.0)),
            (DocV::Str("value"@), DocV::Str(e.1)),
        ],
    )
}

/// The serialized form of an environment list, one item per entry, in
/// order.
pub open spec fn serialize_env_spec(env: Seq<(Seq<char>, Seq<char>)>) -> Seq<DocV> {
    Seq::new(env.len(), |i: int| env_item_spec(env[i]))
}

/// The serialized form of an engine context: the path override when there
/// is one, and the environment list.
pub open spec fn serialize_ansible_spec(a: AnsibleContextV) -> DocV {
    DocV::Mapping(
        (match a.path {
            Some(p) => seq![(DocV::Str("path"@), DocV::Str(p))],
            None => Seq::empty(),
        }) + seq![(DocV::Str("env"@), DocV::Array(serialize_env_spec(a.env)))],
    )
}

/// The serialized form of a source's validated fields. The playbook filter
/// is written back only when it is not the default: the default came from
/// no document field, so none is written for it.
pub open spec fn serialize_source_spec(s: SourceV) -> DocV {
    DocV::Mapping(
        seq![
            (DocV::Str("path"@), DocV::Str(s.path)),
            (DocV::Str("recurse"@), DocV::Bool(s.recurse)),
        ] + (if s.playbook_match == default_match() {
            Seq::empty()
        } else {
            seq![(DocV::Str("playbook_match"@), DocV::Str(s.playbook_match))]
        }) + (match s.pre_provision {
            Some(p) => seq![(DocV::Str("pre_provision"@), DocV::Str(p))],
            None => Seq::empty(),
        }) + seq![(DocV::Str("ansible_playbook"@), serialize_ansible_spec(s.ansible))],
    )
}

proof fn lemma_find_hit(entries: Seq<(DocV, DocV)>, key: Seq<char>)
    requires
        entries.len() > 0,
        entries[0].0 == DocV::Str(key),
    ensures
        map_find(entries, key) == entries[0].1,
{
}

proof fn lemma_find_skip(entries: Seq<(DocV, DocV)>, key: Seq<char>)
    requires
        entries.len() > 0,
        !(entries[0].0 matches DocV::Str(k) && k == key),
    ensures
        map_find(entries, key) == map_find(entries.drop_first(), key),
{
}


proof fn lemma_keys_distinct()
    ensures
        "name"@ != "value"@,
        "path"@ != "env"@,
        "path"@ != "recurse"@,
        "path"@ != "playbook_match"@,
        "path"@ != "pre_provision"@,
        "path"@ != "ansible_playbook"@,
        "recurse"@ != "playbook_match"@,
        "recurse"@ != "pre_provision"@,
        "recurse"@ != "ansible_playbook"@,
        "playbook_match"@ != "pre_provision"@,
        "playbook_match"@ != "ansible_playbook"@,
        "pre_provision"@ != "ansible_playbook"@,
{
    reveal_strlit("name");
    reveal_strlit("value");
    reveal_strlit("path");
    reveal_strlit("env");
    reveal_strlit("recurse");
    reveal_strlit("playbook_match");
    reveal_strlit("pre_provision");
    reveal_strlit("ansible_playbook");
    assert("name"@.len() == 4);
    assert("value"@.len() == 5);
    assert("path"@.len() == 4);
    assert("env"@.len() == 3);
    assert("recurse"@.len() == 7);
    assert("playbook_match"@.len() == 14);
    assert("pre_provision"@.len() == 13);
    assert("ansible_playbook"@.len() == 16);
}

/// Law, environment part: serializing an environment list and reading it
/// back yields the same entries, in the same order.
pub proof fn lemma_env_round_trip(env: Seq<(Seq<char>, Seq<char>)>)
    ensures
        env_list_spec(serialize_env_spec(env)) == Ok::<Seq<(Seq<char>, Seq<char>)>, Seq<char>>(
            env,
        ),
    decreases env.len(),
{
    lemma_keys_distinct();
    let ser = serialize_env_spec(env);
    if env.len() == 0 {
        assert(ser =~= Seq::<DocV>::empty());
        assert(env =~= Seq::<(Seq<char>, Seq<char>)>::empty());
    } else {
        let item = env_item_spec(env[0]);
        assert(ser[0] == item);
        let ientries = item->Mapping_0;
        lemma_find_hit(ientries, "name"@);
        lemma_find_skip(ientries, "value"@);
        lemma_find_hit(ientries.drop_first(), "value"@);
        assert(env_entry_spec(item) == Ok::<(Seq<char>, Seq<char>), Seq<char>>(env[0]));
        assert(ser.drop_first() =~= serialize_env_spec(env.drop_first()));
        lemma_env_round_trip(env.drop_first());
        assert(seq![env[0]] + env.drop_first() =~= env);
    }
}

/// Law, engine-context part: serializing a parsed engine context and
/// reading it back yields the same context.
pub proof fn lemma_ansible_round_trip(a: AnsibleContextV, ee: bool)
    requires
        a.path is Some ==> ee,
    ensures
        ansible_spec(serialize_ansible_spec(a), ee) == Ok::<AnsibleContextV, Seq<char>>(a),
{
    lemma_keys_distinct();
    let entries = serialize_ansible_spec(a)->Mapping_0;
    let env_entry = (DocV::Str("env"@), DocV::Array(serialize_env_spec(a.env)));
    lemma_env_round_trip(a.env);
    match a.path {
        Some(p) => {
            assert(entries =~= seq![(DocV::Str("path"@), DocV::Str(p)), env_entry]);
            lemma_find_hit(entries, "path"@);
            lemma_find_skip(entries, "env"@);
            lemma_find_hit(entries.drop_first(), "env"@);
        },
        None => {
            assert(entries =~= seq![env_entry]);
            lemma_find_skip(entries, "path"@);
            assert(map_find(entries.drop_first(), "path"@) == DocV::Missing);
            lemma_find_hit(entries, "env"@);
        },
    }
}

/// Law: for every document that parses into a source, re-serializing the
/// validated fields reconstructs the same values — re-parsing the
/// serialized document, under the same probe outcomes, gives the same
/// source back.
pub proof fn lemma_source_round_trip(
    name: Seq<char>,
    d: DocV,
    pr: bool,
    ee: bool,
    s: SourceV,
)
    requires
        parse_source_spec(name, d, pr, ee) == Ok::<SourceV, Seq<char>>(s),
    ensures
        parse_source_spec(name, serialize_source_spec(s), pr, ee) == Ok::<SourceV, Seq<char>>(
            s,
        ),
{
    lemma_keys_distinct();
    let entries = serialize_source_spec(s)->Mapping_0;
    let e_path = (DocV::Str("path"@), DocV::Str(s.path));
    let e_recurse = (DocV::Str("recurse"@), DocV::Bool(s.recurse));
    let e_pm = (DocV::Str("playbook_match"@), DocV::Str(s.playbook_match));
    let e_ansible = (DocV::Str("ansible_playbook"@), serialize_ansible_spec(s.ansible));
    // pr must have been true, and an explicit non-default filter compiled.
    assert(pr);
    if s.playbook_match != default_match() {
        assert(regex_compile_err(s.playbook_match) is None);
    }
    if s.ansible.path is Some {
        assert(ee);
    }
    lemma_ansible_round_trip(s.ansible, ee);
    let tail: Seq<(DocV, DocV)> = match s.pre_provision {
        Some(p) => seq![(DocV::Str("pre_provision"@), DocV::Str(p)), e_ansible],
        None => seq![e_ansible],
    };
    let mid: Seq<(DocV, DocV)> = if s.playbook_match == default_match() {
        tail
    } else {
        seq![e_pm] + tail
    };
    assert(entries =~= seq![e_path, e_recurse] + mid);
    let serialized = serialize_source_spec(s);
    // path
    lemma_find_hit(entries, "path"@);
    assert(doc_index(serialized, "path"@) == DocV::Str(s.path));
    // recurse
    lemma_find_skip(entries, "recurse"@);
    assert(entries.drop_first() =~= seq![e_recurse] + mid);
    lemma_find_hit(entries.drop_first(), "recurse"@);
    assert(doc_index(serialized, "recurse"@) == DocV::Bool(s.recurse));
    // the two optional entries and the engine block, stepping past the
    // leading pair
    assert(entries.skip(2) =~= mid);
    lemma_step_two(entries, mid, "playbook_match"@);
    lemma_step_two(entries, mid, "pre_provision"@);
    lemma_step_two(entries, mid, "ansible_playbook"@);
    if s.playbook_match == default_match() {
        assert(mid == tail);
        lemma_find_tail(tail, s, "playbook_match"@);
        assert(doc_index(serialized, "playbook_match"@) == DocV::Missing);
        lemma_find_tail(tail, s, "pre_provision"@);
        lemma_find_tail(tail, s, "ansible_playbook"@);
    } else {
        lemma_find_hit(mid, "playbook_match"@);
        assert(doc_index(serialized, "playbook_match"@) == DocV::Str(s.playbook_match));
        lemma_find_skip(mid, "pre_provision"@);
        lemma_find_skip(mid, "ansible_playbook"@);
        assert(mid.drop_first() =~= tail);
        lemma_find_tail(tail, s, "pre_provision"@);
        lemma_find_tail(tail, s, "ansible_playbook"@);
    }
    match s.pre_provision {
        Some(p) => {
            assert(doc_index(serialized, "pre_provision"@) == DocV::Str(p));
        },
        None => {
            assert(doc_index(serialized, "pre_provision"@) == DocV::Missing);
        },
    }
    assert(doc_index(serialized, "ansible_playbook"@) == serialize_ansible_spec(s.ansible));
}

proof fn lemma_step_two(entries: Seq<(DocV, DocV)>, mid: Seq<(DocV, DocV)>, key: Seq<char>)
    requires
        entries.len() >= 2,
        entries[0].0 == DocV::Str("path"@),
        entries[1].0 == DocV::Str("recurse"@),
        entries.skip(2) == mid,
        key != "path"@,
        key != "recurse"@,
    ensures
        map_find(entries, key) == map_find(mid, key),
{
    lemma_find_skip(entries, key);
    assert(entries.drop_first()[0] == entries[1]);
    lemma_find_skip(entries.drop_first(), key);
    assert(entries.drop_first().drop_first() =~= entries.skip(2));
}

proof fn lemma_find_tail(tail: Seq<(DocV, DocV)>, s: SourceV, key: Seq<char>)
    requires
        tail == (match s.pre_provision {
            Some(p) => seq![
                (DocV::Str("pre_provision"@), DocV::Str(p)),
                (DocV::Str("ansible_playbook"@), serialize_ansible_spec(s.ansible)),
            ],
            None => seq![
                (DocV::Str("ansible_playbook"@), serialize_ansible_spec(s.ansible)),
            ],
        }),
    ensures
        map_find(tail, key) == (if key == "pre_provision"@ && s.pre_provision is Some {
            DocV::Str(s.pre_provision->0)
        } else if key == "ansible_playbook"@ {
            serialize_ansible_spec(s.ansible)
        } else {
            DocV::Missing
        }),
{
    lemma_keys_distinct();
    match s.pre_provision {
        Some(p) => {
            if key == "pre_provision"@ {
                lemma_find_hit(tail, key);
            } else {
                lemma_find_skip(tail, key);
                if key == "ansible_playbook"@ {
                    lemma_find_hit(tail.drop_first(), key);
                } else {
                    lemma_find_skip(tail.drop_first(), key);
                    assert(tail.drop_first().drop_first().len() == 0);
                }
            }
        },
        None => {
            if key == "ansible_playbook"@ {
                lemma_find_hit(tail, key);
            } else {
                lemma_find_skip(tail, key);
                assert(tail.drop_first().len() == 0);
            }
        },
    }
}


impl AnsibleContext {
    /// Writes the engine context's validated fields back into a document.
    pub fn serialize(&self) -> (d: Doc)
        ensures
            d.dv() == serialize_ansible_spec(self@),
    {
        let mut env_items: Vec<Doc> = Vec::new();
        let n = self.env.len();
        let mut i: usize = 0;
        while i < n
            invariant
                n == self.env@.len(),
                i <= n,
                env_items@.len() == i,
                forall|j: int|
                    0 <= j < i ==> (#[trigger] env_items@[j].dv()) == env_item_spec(
                        self@.env[j],
                    ),
            decreases n - i,
        {
            let mut entry: Vec<(Doc, Doc)> = Vec::new();
            entry.push((Doc::Str(String::from_str("name")), Doc::Str(self.env[i].0.clone())));
            entry.push((Doc::Str(String::from_str("value")), Doc::Str(self.env[i].1.clone())));
            let ghost ev = entry@;
            let item = Doc::Mapping(entry);
            proof {
                let target = env_item_spec(self@.env[i as int])->Mapping_0;
                let s0 = item.dv()->Mapping_0;
                assert(s0.len() == 2);
                assert(ev[0].0.dv() == DocV::Str("name"@));
                assert(ev[0].1.dv() == DocV::Str(self@.env[i as int].0));
                assert(ev[1].0.dv() == DocV::Str("value"@));
                assert(ev[1].1.dv() == DocV::Str(self@.env[i as int].1));
                assert(s0[0] == target[0]);
                assert(s0[1] == target[1]);
                assert(s0 =~= target);
            }
            env_items.push(item);
            i += 1;
        }
        let ghost items_view = env_items@;
        let env_doc = Doc::Array(env_items);
        proof {
            let s0 = env_doc.dv()->Array_0;
            let target = serialize_env_spec(self@.env);
            assert(s0.len() == target.len());
            assert forall|j: int| 0 <= j < s0.len() implies s0[j] == target[j] by {
                assert(items_view[j].dv() == env_item_spec(self@.env[j]));
            }
            assert(s0 =~= target);
        }
        let mut entries: Vec<(Doc, Doc)> = Vec::new();
        match &self.path {
            Some(p) => {
                entries.push((Doc::Str(String::from_str("path")), Doc::Str(p.clone())));
            },
            None => {},
        }
        entries.push((Doc::Str(String::from_str("env")), env_doc));
        let ghost ev = entries@;
        let d = Doc::Mapping(entries);
        proof {
            let target = serialize_ansible_spec(self@)->Mapping_0;
            let s0 = d.dv()->Mapping_0;
            let e_env = (DocV::Str("env"@), DocV::Array(serialize_env_spec(self@.env)));
            match self@.path {
                Some(p) => {
                    assert(s0.len() == 2);
                    assert(ev[0].0.dv() == DocV::Str("path"@));
                    assert(ev[0].1.dv() == DocV::Str(p));
                    assert(ev[1].0.dv() == DocV::Str("env"@));
                    assert(s0[0] == (DocV::Str("path"@), DocV::Str(p)));
                    assert(s0[1] == e_env);
                    assert(target =~= seq![(DocV::Str("path"@), DocV::Str(p)), e_env]);
                },
                None => {
                    assert(s0.len() == 1);
                    assert(ev[0].0.dv() == DocV::Str("env"@));
                    assert(s0[0] == e_env);
                    assert(target =~= seq![e_env]);
                },
            }
            assert(s0 =~= target);
        }
        d
    }
}

impl Source {
    /// Writes the source's validated fields back into a document. The
    /// playbook filter is written only when it is not the default, which
    /// came from no document field.
    pub fn serialize(&self) -> (d: Doc)
        ensures
            d.dv() == serialize_source_spec(self@),
    {
        let mut entries: Vec<(Doc, Doc)> = Vec::new();
        entries.push((Doc::Str(String::from_str("path")), Doc::Str(self.path.clone())));
        entries.push((Doc::Str(String::from_str("recurse")), Doc::Bool(self.recurse)));
        if !self.playbook_match.is_default() {
            let raw = String::from_str(self.playbook_match.raw_str());
            entries.push((Doc::Str(String::from_str("playbook_match")), Doc::Str(raw)));
        }
        match &self.pre_provision {
            Some(p) => {
                entries.push((Doc::Str(String::from_str("pre_provision")), Doc::Str(p.clone())));
            },
            None => {},
        }
        entries.push((Doc::Str(String::from_str("ansible_playbook")), self.ansible.serialize()));
        let ghost ev = entries@;
        let d = Doc::Mapping(entries);
        proof {
            let sv = self@;
            let target = serialize_source_spec(sv)->Mapping_0;
            let s0 = d.dv()->Mapping_0;
            let e_path = (DocV::Str("path"@), DocV::Str(sv.path));
            let e_recurse = (DocV::Str("recurse"@), DocV::Bool(sv.recurse));
            let e_pm = (DocV::Str("playbook_match"@), DocV::Str(sv.playbook_match));
            let e_ans = (DocV::Str("ansible_playbook"@), serialize_ansible_spec(sv.ansible));
            assert(ev[0].0.dv() == DocV::Str("path"@));
            assert(ev[0].1.dv() == DocV::Str(sv.path));
            assert(ev[1].0.dv() == DocV::Str("recurse"@));
            assert(ev[1].1.dv() == DocV::Bool(sv.recurse));
            assert(s0[0] == e_path);
            assert(s0[1] == e_recurse);
            if sv.playbook_match == default_match() {
                match sv.pre_provision {
                    Some(p) => {
                        let e_pp = (DocV::Str("pre_provision"@), DocV::Str(p));
                        assert(s0.len() == 4);
                        assert(ev[2].0.dv() == DocV::Str("pre_provision"@));
                        assert(ev[2].1.dv() == DocV::Str(p));
                        assert(ev[3].0.dv() == DocV::Str("ansible_playbook"@));
                        assert(s0[2] == e_pp);
                        assert(s0[3] == e_ans);
                        assert(target =~= seq![e_path, e_recurse, e_pp, e_ans]);
                    },
                    None => {
                        assert(s0.len() == 3);
                        assert(ev[2].0.dv() == DocV::Str("ansible_playbook"@));
                        assert(s0[2] == e_ans);
                        assert(target =~= seq![e_path, e_recurse, e_ans]);
                    },
                }
            } else {
                assert(ev[2].0.dv() == DocV::Str("playbook_match"@));
                assert(ev[2].1.dv() == DocV::Str(sv.playbook_match));
                assert(s0[2] == e_pm);
                match sv.pre_provision {
                    Some(p) => {
                        let e_pp = (DocV::Str("pre_provision"@), DocV::Str(p));
                        assert(s0.len() == 5);
                        assert(ev[3].0.dv() == DocV::Str("pre_provision"@));
                        assert(ev[3].1.dv() == DocV::Str(p));
                        assert(ev[4].0.dv() == DocV::Str("ansible_playbook"@));
                        assert(s0[3] == e_pp);
                        assert(s0[4] == e_ans);
                        assert(target =~= seq![e_path, e_recurse, e_pm, e_pp, e_ans]);
                    },
                    None => {
                        assert(s0.len() == 4);
                        assert(ev[3].0.dv() == DocV::Str("ansible_playbook"@));
                        assert(s0[3] == e_ans);
                        assert(target =~= seq![e_path, e_recurse, e_pm, e_ans]);
                    },
                }
            }
            assert(s0 =~= target);
        }
        d
    }
}


/// The playbooks selected among walked paths: the paths the filter matches
/// (tested on the full path), each relativized to the root, in walk order.
pub open spec fn selected(root: Seq<char>, entries: Seq<Seq<char>>, pat: Seq<char>) -> Seq<
    Seq<char>,
>
    decreases entries.len(),
{
    if entries.len() == 0 {
        Seq::empty()
    } else {
        (if regex_match(pat, entries[0]) {
            seq![probe::rel_part(root, entries[0])]
        } else {
            Seq::empty()
        }) + selected(root, entries.drop_first(), pat)
    }
}

/// Law: with recursion off, every selected path is at most one level deep —
/// relative to the root it holds no directory separator at all.
pub proof fn lemma_selected_shallow(root: Seq<char>, entries: Seq<Seq<char>>, pat: Seq<char>)
    requires
        forall|i: int|
            0 <= i < entries.len() ==> probe::child_shallow(root, #[trigger] entries[i]),
    ensures
        forall|i: int, j: int|
            #![trigger selected(root, entries, pat)[i][j]]
            0 <= i < selected(root, entries, pat).len() && 0 <= j < selected(
                root,
                entries,
                pat,
            )[i].len() ==> selected(root, entries, pat)[i][j] != '/',
    decreases entries.len(),
{
    if entries.len() > 0 {
        lemma_selected_shallow(root, entries.drop_first(), pat);
        let sel = selected(root, entries, pat);
        let rest = selected(root, entries.drop_first(), pat);
        assert forall|i: int, j: int|
            0 <= i < sel.len() && 0 <= j < sel[i].len() implies sel[i][j] != '/' by {
            if regex_match(pat, entries[0]) {
                assert(sel =~= seq![probe::rel_part(root, entries[0])] + rest);
                if i == 0 {
                    assert(probe::child_shallow(root, entries[0]));
                    assert(sel[0] == probe::rel_part(root, entries[0]));
                    assert(sel[0][j] == probe::rel_part(root, entries[0])[j]);
                } else {
                    assert(sel[i] == rest[i - 1]);
                    assert(sel[i][j] == rest[i - 1][j]);
                }
            } else {
                assert(sel =~= Seq::<Seq<char>>::empty() + rest);
                assert(sel[i] == rest[i]);
                assert(sel[i][j] == rest[i][j]);
            }
        }
    }
}

/// Picks, among walked full paths, those the filter matches, and hands each
/// back relative to the root.
pub fn select_playbooks(root: &String, entries: &Vec<String>, filter: &Pattern) -> (r: Vec<
    String,
>)
    ensures
        r@.map_values(|s: String| s@) == selected(
            root@,
            entries@.map_values(|s: String| s@),
            filter.pat(),
        ),
{
    let ghost eseq = entries@.map_values(|s: String| s@);
    let root_chars = root.as_str().unicode_len();
    let trailing = root_chars > 0 && root.as_str().get_char(root_chars - 1) == '/';
    proof {
        if trailing {
            assert(probe::base_of(root@) == root@);
        } else {
            assert(probe::base_of(root@) == root@.push('/'));
            assert(probe::base_of(root@).len() == root@.len() + 1);
        }
    }
    let mut out: Vec<String> = Vec::new();
    let n = entries.len();
    let mut idx: usize = 0;
    proof {
        assert(eseq.skip(0) =~= eseq);
        assert(out@.map_values(|s: String| s@) =~= Seq::<Seq<char>>::empty());
    }
    while idx < n
        invariant
            n == entries@.len(),
            idx <= n,
            eseq == entries@.map_values(|s: String| s@),
            eseq.len() == n,
            root_chars == root@.len(),
            trailing == (root@.len() > 0 && root@[root@.len() - 1] == '/'),
            probe::base_of(root@).len() == (if trailing {
                root@.len() as int
            } else {
                root@.len() + 1 as int
            }),
            selected(root@, eseq, filter.pat()) == out@.map_values(|s: String| s@) + selected(
                root@,
                eseq.skip(idx as int),
                filter.pat(),
            ),
        decreases n - idx,
    {
        let ghost tail = eseq.skip(idx as int);
        proof {
            assert(tail.len() == n - idx);
            assert(tail[0] == eseq[idx as int]);
            assert(eseq[idx as int] == entries@[idx as int]@);
            assert(tail.drop_first() =~= eseq.skip(idx as int + 1));
        }
        let entry = &entries[idx];
        let ghost old_out = out@;
        if filter.is_match(entry.as_str()) {
            let rel: String = if *entry == *root {
                String::new()
            } else {
                let entry_chars = entry.as_str().unicode_len();
                if trailing {
                    if entry_chars >= root_chars {
                        String::from_str(entry.as_str().substring_char(root_chars, entry_chars))
                    } else {
                        String::new()
                    }
                } else {
                    if entry_chars > root_chars {
                        String::from_str(
                            entry.as_str().substring_char(root_chars + 1, entry_chars),
                        )
                    } else {
                        String::new()
                    }
                }
            };
            proof {
                let p = tail[0];
                let b = probe::base_of(root@).len() as int;
                if p != root@ && p.len() >= b {
                    assert(p.skip(b) =~= p.subrange(b, p.len() as int));
                }
                assert(rel@ == probe::rel_part(root@, tail[0]));
            }
            out.push(rel);
            proof {
                assert(out@.map_values(|s: String| s@) =~= old_out.map_values(|s: String| s@)
                    + seq![rel@]);
                let m = old_out.map_values(|s: String| s@);
                let rest = selected(root@, tail.drop_first(), filter.pat());
                assert(m + (seq![rel@] + rest) =~= (m + seq![rel@]) + rest);
            }
        } else {
            proof {
                assert(selected(root@, tail, filter.pat()) == selected(
                    root@,
                    tail.drop_first(),
                    filter.pat(),
                ));
                assert(Seq::<Seq<char>>::empty() + selected(
                    root@,
                    tail.drop_first(),
                    filter.pat(),
                ) =~= selected(root@, tail.drop_first(), filter.pat()));
            }
        }
        idx += 1;
    }
    proof {
        assert(eseq.skip(n as int) =~= Seq::<Seq<char>>::empty());
        let m = out@.map_values(|s: String| s@);
        assert(m + Seq::<Seq<char>>::empty() =~= m);
    }
    out
}

impl Source {
    /// Walks the source's directory — bounded to immediate children unless
    /// the source recurses — and returns the playbook paths its filter
    /// matches, relative to the source root. What the walk finds is the
    /// machine's state; what is selected from it is pinned: with recursion
    /// off, no returned path holds a directory separator.
    pub fn explore(&self) -> (r: Vec<String>)
        ensures
            exists|entries: Seq<Seq<char>>|
                {
                    &&& (forall|i: int|
                        0 <= i < entries.len() ==> probe::under_root(
                            self@.path,
                            #[trigger] entries[i],
                        ))
                    &&& (!self@.recurse ==> forall|i: int|
                        0 <= i < entries.len() ==> probe::child_shallow(
                            self@.path,
                            #[trigger] entries[i],
                        ))
                    &&& r@.map_values(|s: String| s@) == selected(
                        self@.path,
                        entries,
                        self@.playbook_match,
                    )
                },
            !self@.recurse ==> forall|i: int, j: int|
                #![trigger r@[i]@[j]]
                0 <= i < r@.len() && 0 <= j < r@[i]@.len() ==> r@[i]@[j] != '/',
    {
        let walked = probe::walk_paths(self.path.as_str(), self.recurse);
        let r = select_playbooks(&self.path, &walked, &self.playbook_match);
        proof {
            let entries = walked@.map_values(|s: String| s@);
            assert(forall|i: int|
                0 <= i < entries.len() ==> probe::under_root(self@.path, #[trigger] entries[i]));
            if !self@.recurse {
                assert(forall|i: int|
                    0 <= i < entries.len() ==> probe::child_shallow(
                        self@.path,
                        #[trigger] entries[i],
                    ));
                lemma_selected_shallow(self@.path, entries, self@.playbook_match);
                let sel = selected(self@.path, entries, self@.playbook_match);
                assert forall|i: int, j: int|
                    0 <= i < r@.len() && 0 <= j < r@[i]@.len() implies #[trigger] r@[i]@[j]
                    != '/' by {
                    assert(r@.map_values(|s: String| s@)[i] == r@[i]@);
                    assert(sel[i][j] == r@[i]@[j]);
                }
            }
        }
        r
    }

    /// The invocation that prepares the source, when it asks for one: its
    /// pre-provision hook run through a shell in the source's directory,
    /// with no extra environment. A source without a hook needs nothing.
    pub fn update(&self) -> (r: Option<Invocation>)
        ensures
            match r {
                Some(inv) => {
                    &&& self@.pre_provision is Some
                    &&& inv@.program == "sh"@
                    &&& inv@.args == seq!["-c"@, self@.pre_provision->0]
                    &&& inv@.cwd == self@.path
                    &&& inv@.env == Seq::<(Seq<char>, Seq<char>)>::empty()
                    &&& !inv@.engine_aware
                },
                None => self@.pre_provision is None,
            },
    {
        match &self.pre_provision {
            Some(c) => {
                let inv = crate::exec::shell(c, &self.path, Vec::new());
                proof {
                    assert(inv@.env =~= Seq::<(Seq<char>, Seq<char>)>::empty());
                }
                Some(inv)
            },
            None => None,
        }
    }
}

} // verus!




