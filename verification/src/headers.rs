use vstd::prelude::*;
use vstd::string::StringExecFns;
use crate::config::StreamSpec;

verus! {

/// One header formatted as the recorder expects it on its command line:
/// `<key>: <value>\r\n`.
pub open spec fn header_line(k: Seq<char>, v: Seq<char>) -> Seq<char> {
    k + ": "@ + v + "\r\n"@
}

/// The concatenation of the header lines for a list of key/value pairs, in
/// list order.
pub open spec fn headers_text(ps: Seq<(Seq<char>, Seq<char>)>) -> Seq<char>
    decreases ps.len(),
{
    if ps.len() == 0 {
        Seq::empty()
    } else {
        header_line(ps.first().0, ps.first().1) + headers_text(ps.drop_first())
    }
}

/// The authorization pair injected for a bearer token.
pub open spec fn auth_pair(token: Seq<char>) -> (Seq<char>, Seq<char>) {
    ("Authorization"@, "Bearer "@ + token)
}

/// Every header pair a stream contributes: the bearer-token pair first when a
/// token is present, then the configured header map pairs in their stored
/// (key-sorted) order.
pub open spec fn header_pairs(stream: StreamSpec) -> Seq<(Seq<char>, Seq<char>)> {
    let mp = stream.headers@.map_values(|p: (String, String)| (p.0@, p.1@));
    match stream.bearer_token {
        Some(t) => seq![auth_pair(t@)] + mp,
        None => mp,
    }
}

proof fn lemma_headers_text_take_succ(ps: Seq<(Seq<char>, Seq<char>)>, n: int)
    requires
        0 <= n < ps.len(),
    ensures
        headers_text(ps.take(n + 1)) == headers_text(ps.take(n)) + header_line(ps[n].0, ps[n].1),
    decreases n,
{
    if n == 0 {
        assert(ps.take(0) =~= Seq::empty());
        assert(ps.take(1).drop_first() =~= Seq::empty());
        assert(ps.take(1).first() == ps[0]);
        assert(headers_text(ps.take(1)) =~= header_line(ps[0].0, ps[0].1));
        assert(headers_text(ps.take(0)) + header_line(ps[0].0, ps[0].1)
            =~= header_line(ps[0].0, ps[0].1));
    } else {
        lemma_headers_text_take_succ(ps.drop_first(), n - 1);
        assert(ps.take(n + 1).drop_first() =~= ps.drop_first().take(n));
        assert(ps.take(n).drop_first() =~= ps.drop_first().take(n - 1));
        assert(ps.take(n + 1).first() == ps[0]);
        assert(ps.take(n).first() == ps[0]);
        assert(ps.drop_first()[n - 1] == ps[n]);
        assert(headers_text(ps.take(n + 1))
            =~= headers_text(ps.take(n)) + header_line(ps[n].0, ps[n].1));
    }
}

/// Builds the header argument for one stream's recording pipeline: `None`
/// when the stream has neither a bearer token nor any configured header
/// (absence, not an empty string), otherwise the concatenation of one
/// `<key>: <value>\r\n` line per pair, bearer-token line first.
pub fn build_headers(stream: &StreamSpec) -> (r: Option<String>)
    ensures
        (r is Some) <==> (stream.bearer_token is Some || stream.headers@.len() > 0),
        r matches Some(s) ==> s@ == headers_text(header_pairs(*stream)),
{
    if stream.bearer_token.is_none() && stream.headers.len() == 0 {
        return None;
    }
    let ghost pairs = header_pairs(*stream);
    let ghost mp = stream.headers@.map_values(|p: (String, String)| (p.0@, p.1@));
    let ghost base: int = if stream.bearer_token is Some { 1int } else { 0int };

    let mut out = String::new();
    if let Some(tok) = &stream.bearer_token {
        out.append("Authorization");
        out.append(": ");
        out.append("Bearer ");
        out.append(tok.as_str());
        out.append("\r\n");
        proof {
            assert(pairs.take(1).drop_first() =~= Seq::empty());
            assert(pairs.take(1).first() == auth_pair(tok@));
            assert(out@ =~= header_line(auth_pair(tok@).0, auth_pair(tok@).1));
            assert(headers_text(pairs.take(1))
                =~= header_line(auth_pair(tok@).0, auth_pair(tok@).1) + headers_text(Seq::empty()));
            assert(headers_text(pairs.take(1))
                =~= header_line(auth_pair(tok@).0, auth_pair(tok@).1));
            assert(out@ =~= headers_text(pairs.take(base)));
        }
    } else {
        proof {
            assert(pairs.take(0) =~= Seq::empty());
        }
    }

    let n = stream.headers.len();
    for i in 0..n
        invariant
            n == stream.headers@.len(),
            pairs == header_pairs(*stream),
            mp == stream.headers@.map_values(|p: (String, String)| (p.0@, p.1@)),
            base == (if stream.bearer_token is Some { 1int } else { 0int }),
            pairs.len() == base + n,
            forall|k: int| 0 <= k < n ==> pairs[base + k] == mp[k],
            out@ == headers_text(pairs.take(base + i)),
    {
        let pair = &stream.headers[i];
        out.append(pair.0.as_str());
        out.append(": ");
        out.append(pair.1.as_str());
        out.append("\r\n");
        proof {
            lemma_headers_text_take_succ(pairs, base + i);
            assert(mp[i as int] == (stream.headers@[i as int].0@, stream.headers@[i as int].1@));
            assert(pairs[base + i] == mp[i as int]);
            assert(out@ =~= headers_text(pairs.take(base + i)) + header_line(pairs[base + i].0, pairs[base + i].1));
        }
    }
    proof {
        assert(pairs.take(base + n) =~= pairs);
    }
    Some(out)
}

} // verus!
