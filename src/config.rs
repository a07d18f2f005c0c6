use vstd::prelude::*;

verus! {

/// The storage backend selected at startup.
pub enum BackendConfig {
    /// An embedded store opened at this path.
    Embedded(String),
    /// A distributed store reached through these placement-driver endpoints.
    Distributed(Vec<String>),
}

/// Why no backend could be selected; the process must not start serving.
#[derive(Debug, Clone, Copy, PartialEq, Eq, Structural)]
pub enum ConfigError {
    /// Neither an embedded path nor a cluster address list was given.
    NoBackend,
    /// Both were given; exactly one backend serves a process.
    BothBackends,
}

/// The pieces of `s` between occurrences of `sep`, in order; an empty text
/// gives one empty piece.
pub open spec fn split_on(s: Seq<char>, sep: char) -> Seq<Seq<char>>
    decreases s.len(),
{
    if s.len() == 0 {
        seq![seq![]]
    } else {
        let init = split_on(s.drop_last(), sep);
        if s.last() == sep {
            init.push(seq![])
        } else {
            init.update(init.len() - 1, init.last().push(s.last()))
        }
    }
}

proof fn lemma_split_nonempty(s: Seq<char>, sep: char)
    ensures
        split_on(s, sep).len() >= 1,
    decreases s.len(),
{
    if s.len() > 0 {
        lemma_split_nonempty(s.drop_last(), sep);
    }
}

/// Splits a comma-separated list of cluster endpoints.
pub fn split_endpoints(s: &str) -> (r: Vec<String>)
    ensures
        r@.map_values(|p: String| p@) == split_on(s@, ','),
{
    let n = s.unicode_len();
    let mut pieces: Vec<String> = Vec::new();
    let mut start: usize = 0;
    let mut i: usize = 0;
    assert(s@.take(0).len() == 0);
    assert(pieces@.map_values(|p: String| p@) =~= Seq::<Seq<char>>::empty());
    assert(s@.subrange(0, 0) =~= Seq::<char>::empty());
    assert(pieces@.map_values(|p: String| p@).push(s@.subrange(0, 0)) =~= seq![Seq::<char>::empty()]);
    while i < n
        invariant
            n == s@.len(),
            start <= i <= n,
            pieces@.map_values(|p: String| p@).push(s@.subrange(start as int, i as int))
                == split_on(s@.take(i as int), ','),
        decreases n - i,
    {
        let c = s.get_char(i);
        let ghost before = pieces@.map_values(|p: String| p@);
        let ghost cur = s@.subrange(start as int, i as int);
        proof {
            lemma_split_nonempty(s@.take(i as int), ',');
            assert(s@.take(i + 1).drop_last() =~= s@.take(i as int));
            assert(s@.take(i + 1).last() == c);
        }
        if c == ',' {
            let piece = s.substring_char(start, i).to_owned();
            pieces.push(piece);
            start = i + 1;
            proof {
                assert(pieces@.map_values(|p: String| p@) =~= before.push(cur));
                assert(s@.subrange(start as int, (i + 1) as int) =~= seq![]);
            }
        } else {
            proof {
                assert(s@.subrange(start as int, (i + 1) as int) =~= cur.push(c));
                assert(before.push(cur).update(before.len() as int, cur.push(c)) =~= before.push(
                    cur.push(c),
                ));
            }
        }
        i = i + 1;
    }
    pieces.push(s.substring_char(start, n).to_owned());
    assert(s@.take(n as int) =~= s@);
    assert(pieces@.map_values(|p: String| p@) =~= split_on(s@, ','));
    pieces
}

/// Selects the backend from the two startup options: exactly one must be
/// given.
pub fn choose_backend(rocksdb_path: Option<String>, pd_addrs: Option<String>) -> (r: Result<
    BackendConfig,
    ConfigError,
>)
    ensures
        match (rocksdb_path, pd_addrs) {
            (None, None) => r == Err::<BackendConfig, ConfigError>(ConfigError::NoBackend),
            (Some(_), Some(_)) => r == Err::<BackendConfig, ConfigError>(ConfigError::BothBackends),
            (Some(p), None) => r is Ok && r->Ok_0 is Embedded && r->Ok_0->Embedded_0 == p,
            (None, Some(a)) => r is Ok && r->Ok_0 is Distributed && r->Ok_0->Distributed_0@.map_values(
                |e: String| e@,
            ) == split_on(a@, ','),
        },
{
    match (rocksdb_path, pd_addrs) {
        (None, None) => Err(ConfigError::NoBackend),
        (Some(_), Some(_)) => Err(ConfigError::BothBackends),
        (Some(p), None) => Ok(BackendConfig::Embedded(p)),
        (None, Some(a)) => Ok(BackendConfig::Distributed(split_endpoints(a.as_str()))),
    }
}

} // verus!
