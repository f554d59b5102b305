use vstd::prelude::*;

use crate::text::str_eq;

verus! {

/// The parameters of a web search: the endpoint and its query arguments,
/// each key at most once, in the order they were first set.
#[derive(Clone, Debug)]
pub struct SearchParams {
    pub url: String,
    pub args: Vec<(String, String)>,
}

pub open spec fn pair_views(s: Seq<(String, String)>) -> Seq<(Seq<char>, Seq<char>)> {
    s.map_values(|kv: (String, String)| (kv.0@, kv.1@))
}

/// The value of `key` in an argument list (the last entry wins).
pub open spec fn lookup(s: Seq<(Seq<char>, Seq<char>)>, key: Seq<char>) -> Option<Seq<char>>
    decreases s.len(),
{
    if s.len() == 0 {
        None
    } else if s.last().0 == key {
        Some(s.last().1)
    } else {
        lookup(s.drop_last(), key)
    }
}

/// No key occurs twice.
pub open spec fn keys_unique(s: Seq<(Seq<char>, Seq<char>)>) -> bool
    decreases s.len(),
{
    s.len() == 0 || (keys_unique(s.drop_last()) && lookup(s.drop_last(), s.last().0) is None)
}

/// The entries of `s` whose key is not `key`.
pub open spec fn without_key(s: Seq<(Seq<char>, Seq<char>)>, key: Seq<char>) -> Seq<
    (Seq<char>, Seq<char>),
>
    decreases s.len(),
{
    if s.len() == 0 {
        s
    } else if s.last().0 == key {
        without_key(s.drop_last(), key)
    } else {
        without_key(s.drop_last(), key).push(s.last())
    }
}

/// The arguments that every search starts with: language, location,
/// language restriction, country restriction.
pub open spec fn default_args() -> Seq<(Seq<char>, Seq<char>)> {
    seq![("hl"@, "en"@), ("gl"@, "us"@), ("lr"@, "lang_en"@), ("cr"@, "countryUS"@)]
}

pub open spec fn search_url() -> Seq<char> {
    "https://www.google.com/search"@
}

proof fn lemma_without_key(s: Seq<(Seq<char>, Seq<char>)>, key: Seq<char>, k: Seq<char>)
    ensures
        lookup(without_key(s, key), k) == if k == key {
            None
        } else {
            lookup(s, k)
        },
    decreases s.len(),
{
    if s.len() > 0 {
        lemma_without_key(s.drop_last(), key, k);
        let w = without_key(s.drop_last(), key);
        assert(w.push(s.last()).drop_last() =~= w);
    }
}

proof fn lemma_without_absent_key(s: Seq<(Seq<char>, Seq<char>)>, key: Seq<char>)
    requires
        lookup(s, key) is None,
    ensures
        without_key(s, key) == s,
    decreases s.len(),
{
    if s.len() > 0 {
        lemma_without_absent_key(s.drop_last(), key);
        assert(s.drop_last().push(s.last()) =~= s);
    }
}

proof fn lemma_default_args()
    ensures
        keys_unique(default_args()),
        lookup(default_args(), "q"@) is None,
{
    reveal_strlit("q");
    reveal_strlit("hl");
    reveal_strlit("gl");
    reveal_strlit("lr");
    reveal_strlit("cr");
    let d = default_args();
    let d3 = d.drop_last();
    let d2 = d3.drop_last();
    let d1 = d2.drop_last();
    assert(d1.drop_last() =~= Seq::<(Seq<char>, Seq<char>)>::empty());
    assert(d1 =~= seq![("hl"@, "en"@)]);
    assert(d2 =~= seq![("hl"@, "en"@), ("gl"@, "us"@)]);
    assert(d3 =~= seq![("hl"@, "en"@), ("gl"@, "us"@), ("lr"@, "lang_en"@)]);
    assert("gl"@[0] != "hl"@[0]);
    assert("lr"@[0] != "hl"@[0] && "lr"@[0] != "gl"@[0]);
    assert("cr"@[0] != "hl"@[0] && "cr"@[0] != "gl"@[0] && "cr"@[0] != "lr"@[0]);
    assert("q"@.len() != "hl"@.len());
    let e = d1.drop_last();
    assert(keys_unique(e));
    assert(lookup(e, "hl"@) is None);
    assert(keys_unique(d1));
    assert(lookup(e, "gl"@) is None);
    assert(lookup(e, "lr"@) is None);
    assert(lookup(e, "cr"@) is None);
    assert(lookup(e, "q"@) is None);
    assert(d1.last().0 == "hl"@);
    assert(d1.last().0 != "gl"@);
    assert(d1.last().0 != "lr"@);
    assert(lookup(d1, "gl"@) is None);
    assert(keys_unique(d2));
    assert(lookup(d1, "lr"@) is None);
    assert(lookup(d2, "lr"@) is None);
    assert(keys_unique(d3));
    assert(lookup(d1, "cr"@) is None);
    assert(lookup(d2, "cr"@) is None);
    assert(lookup(d3, "cr"@) is None);
    assert(keys_unique(d));
    assert(lookup(d1, "q"@) is None);
    assert(lookup(d2, "q"@) is None);
    assert(lookup(d3, "q"@) is None);
}

proof fn lemma_without_key_unique(s: Seq<(Seq<char>, Seq<char>)>, key: Seq<char>)
    requires
        keys_unique(s),
    ensures
        keys_unique(without_key(s, key)),
    decreases s.len(),
{
    if s.len() > 0 {
        lemma_without_key_unique(s.drop_last(), key);
        lemma_without_key(s.drop_last(), key, s.last().0);
        let w = without_key(s.drop_last(), key);
        if s.last().0 != key {
            assert(w.push(s.last()).drop_last() =~= w);
        }
    }
}

impl SearchParams {
    pub open spec fn args_view(self) -> Seq<(Seq<char>, Seq<char>)> {
        pair_views(self.args@)
    }

    /// The value of an argument.
    pub open spec fn arg(self, key: Seq<char>) -> Option<Seq<char>> {
        lookup(self.args_view(), key)
    }

    pub open spec fn wf(self) -> bool {
        keys_unique(self.args_view())
    }

    /// Sets an argument, replacing an earlier value of the same key.
    pub fn set_arg(&mut self, key: &str, value: &str)
        requires
            old(self).wf(),
        ensures
            final(self).wf(),
            final(self).url@ == old(self).url@,
            final(self).args_view() == without_key(old(self).args_view(), key@).push(
                (key@, value@),
            ),
            forall|k: Seq<char>|
                #[trigger] final(self).arg(k) == if k == key@ {
                    Some(value@)
                } else {
                    old(self).arg(k)
                },
    {
        let ghost start = self.args_view();
        let mut kept: Vec<(String, String)> = Vec::new();
        let mut i: usize = 0;
        while i < self.args.len()
            invariant
                i <= self.args.len(),
                start == pair_views(self.args@),
                pair_views(kept@) == without_key(start.subrange(0, i as int), key@),
            decreases self.args.len() - i,
        {
            proof {
                assert(start.subrange(0, i + 1).drop_last() =~= start.subrange(0, i as int));
            }
            if !str_eq(self.args[i].0.as_str(), key) {
                let ghost before = kept@;
                let entry = (self.args[i].0.clone(), self.args[i].1.clone());
                kept.push(entry);
                proof {
                    assert(kept@.drop_last() =~= before);
                    assert(pair_views(kept@) =~= pair_views(before).push((entry.0@, entry.1@)));
                }
            }
            i = i + 1;
        }
        proof {
            assert(start.subrange(0, self.args.len() as int) =~= start);
        }
        let ghost before = kept@;
        kept.push((key.to_owned(), value.to_owned()));
        proof {
            assert(kept@.drop_last() =~= before);
            assert(pair_views(kept@) =~= pair_views(before).push((key@, value@)));
        }
        self.args = kept;
        proof {
            let w = without_key(start, key@);
            lemma_without_key_unique(start, key@);
            lemma_without_key(start, key@, key@);
            assert(self.args_view().drop_last() =~= w);
            assert forall|k: Seq<char>|
                #[trigger] self.arg(k) == if k == key@ {
                    Some(value@)
                } else {
                    lookup(start, k)
                } by {
                lemma_without_key(start, key@, k);
            }
        }
    }

    /// Parameters for a search of `query`.
    pub fn new(query: &String) -> (r: SearchParams)
        ensures
            r.wf(),
            r.url@ == search_url(),
            r.args_view() == default_args().push(("q"@, query@)),
    {
        let mut s = Self::default();
        proof {
            lemma_default_args();
            lemma_without_absent_key(default_args(), "q"@);
        }
        s.set_arg("q", query.as_str());
        s
    }

    /// Parameters for a search of `query` through the JSON search API, with
    /// its key and engine id.
    pub fn new_json(query: &String, api_key: &str, engine_id: &str) -> (r: SearchParams)
        ensures
            r.wf(),
            r.url@ == search_url(),
            forall|k: Seq<char>|
                #[trigger] r.arg(k) == if k == "key"@ {
                    Some(api_key@)
                } else if k == "cx"@ {
                    Some(engine_id@)
                } else if k == "q"@ {
                    Some(query@)
                } else {
                    lookup(default_args(), k)
                },
    {
        let mut s = Self::new(query);
        s.add_api_data(api_key, engine_id);
        proof {
            assert forall|k: Seq<char>| #[trigger]
                lookup(default_args().push(("q"@, query@)), k) == if k == "q"@ {
                    Some(query@)
                } else {
                    lookup(default_args(), k)
                } by {
                assert(default_args().push(("q"@, query@)).drop_last() =~= default_args());
            }
        }
        s
    }

    /// Adds the key and engine id that the JSON search API asks for.
    pub fn add_api_data(&mut self, api_key: &str, engine_id: &str)
        requires
            old(self).wf(),
        ensures
            final(self).wf(),
            final(self).url@ == old(self).url@,
            forall|k: Seq<char>|
                #[trigger] final(self).arg(k) == if k == "key"@ {
                    Some(api_key@)
                } else if k == "cx"@ {
                    Some(engine_id@)
                } else {
                    old(self).arg(k)
                },
    {
        let ghost start = *self;
        self.set_arg("key", api_key);
        let ghost mid = *self;
        self.set_arg("cx", engine_id);
        proof {
            reveal_strlit("key");
            reveal_strlit("cx");
            assert("key"@.len() != "cx"@.len());
            assert forall|k: Seq<char>|
                #[trigger] self.arg(k) == if k == "key"@ {
                    Some(api_key@)
                } else if k == "cx"@ {
                    Some(engine_id@)
                } else {
                    start.arg(k)
                } by {
                assert(self.arg(k) == if k == "cx"@ {
                    Some(engine_id@)
                } else {
                    mid.arg(k)
                });
                assert(mid.arg(k) == if k == "key"@ {
                    Some(api_key@)
                } else {
                    start.arg(k)
                });
            }
        }
    }
}

impl Default for SearchParams {
    fn default() -> (r: SearchParams)
        ensures
            r.wf(),
            r.url@ == search_url(),
            r.args_view() == default_args(),
    {
        let mut args: Vec<(String, String)> = Vec::new();
        args.push(("hl".to_owned(), "en".to_owned()));
        args.push(("gl".to_owned(), "us".to_owned()));
        args.push(("lr".to_owned(), "lang_en".to_owned()));
        args.push(("cr".to_owned(), "countryUS".to_owned()));
        let r = SearchParams { url: "https://www.google.com/search".to_owned(), args };
        proof {
            assert(r.args_view() =~= default_args());
            lemma_default_args();
        }
        r
    }
}

/// The query text of a search: the query, then ` site:<site>` and
/// ` allintext:<text>` where given.
pub open spec fn query_text(query: Seq<char>, site: Option<Seq<char>>, allintext: Option<
    Seq<char>,
>) -> Seq<char> {
    query + match site {
        Some(s) => " site:"@ + s,
        None => Seq::empty(),
    } + match allintext {
        Some(a) => " allintext:"@ + a,
        None => Seq::empty(),
    }
}

/// Builds the query text of a search with its optional operators.
pub fn query_string_builder(query: &str, site: &Option<String>, allintext: &Option<String>) -> (r:
    String)
    ensures
        r@ == query_text(
            query@,
            match site {
                Some(s) => Some(s@),
                None => None,
            },
            match allintext {
                Some(a) => Some(a@),
                None => None,
            },
        ),
{
    let mut q = query.to_owned();
    match site {
        Some(s) => {
            q.append(" site:");
            q.append(s.as_str());
        },
        None => {},
    }
    match allintext {
        Some(a) => {
            q.append(" allintext:");
            q.append(a.as_str());
        },
        None => {},
    }
    proof {
        assert(q@ =~= query_text(
            query@,
            match site {
                Some(s) => Some(s@),
                None => None,
            },
            match allintext {
                Some(a) => Some(a@),
                None => None,
            },
        ));
    }
    q
}

} // verus!
