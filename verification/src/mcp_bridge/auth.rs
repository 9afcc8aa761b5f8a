//! Token check of the bridge's HTTP layer: a request to `/mcp` is let
//! through with `Authorization: Bearer <token>` or a `token=<token>` query
//! parameter.
use vstd::prelude::*;

verus! {

/// The (name, value) pairs that `url::form_urlencoded::parse` decodes from
/// a query string.
pub uninterp spec fn form_urlencoded_pairs(query: Seq<char>) -> Seq<(Seq<char>, Seq<char>)>;

pub open spec fn pair_views(v: Seq<(String, String)>) -> Seq<(Seq<char>, Seq<char>)> {
    v.map_values(|p: (String, String)| (p.0@, p.1@))
}

/// Characters that form-decoding changes or splits on: `&` separates
/// pairs, `+` stands for a space, `%` starts an escape.
pub open spec fn no_form_specials(s: Seq<char>) -> bool {
    forall|i: int| 0 <= i < s.len() ==> #[trigger] s[i] != '&' && s[i] != '+' && s[i] != '%'
}

/// `url::form_urlencoded::parse(query.as_bytes())`, collected into owned
/// pairs; the pairs are named by `form_urlencoded_pairs` of the query.
/// The parser splits the input at `&`, each piece at its first `=`, and
/// decodes `+` and `%` escapes; so `token=<t>`, where `t` holds no `&`,
/// `+` or `%`, is the one pair `("token", t)`.
#[verifier::external_body]
pub fn query_pairs(query: &str) -> (pairs: Vec<(String, String)>)
    ensures
        pair_views(pairs@) == form_urlencoded_pairs(query@),
        query@.len() >= 6 && query@.take(6) == "token="@ && no_form_specials(query@.skip(6))
            ==> pair_views(pairs@) == seq![("token"@, query@.skip(6))],
{
    url::form_urlencoded::parse(query.as_bytes()).into_owned().collect()
}

/// The `Authorization` header value that admits a request.
pub open spec fn expected_bearer(token: Seq<char>) -> Seq<char> {
    "Bearer "@ + token
}

/// Whether the query's decoded pairs hold `token=<token>`.
pub open spec fn query_has_token(pairs: Seq<(Seq<char>, Seq<char>)>, token: Seq<char>) -> bool {
    exists|i: int| 0 <= i < pairs.len() && #[trigger] pairs[i] == ("token"@, token)
}

/// Whether a request carrying this `Authorization` header (if it is valid
/// text) and this query string (if any) may reach the MCP service.
pub open spec fn spec_authorized(header: Option<Seq<char>>, query: Option<Seq<char>>, token: Seq<char>) -> bool {
    ||| (header matches Some(h) && h == expected_bearer(token))
    ||| (query matches Some(q) && query_has_token(form_urlencoded_pairs(q), token))
}

pub open spec fn opt_str_view(o: Option<&str>) -> Option<Seq<char>> {
    match o {
        Some(s) => Some(s@),
        None => None,
    }
}

pub fn is_authorized(header: Option<&str>, query: Option<&str>, token: &str) -> (ok: bool)
    ensures
        ok == spec_authorized(opt_str_view(header), opt_str_view(query), token@),
        opt_str_view(query) == Some("token="@ + token@) && no_form_specials(token@) ==> ok,
{
    let mut expected = "Bearer ".to_owned();
    expected.append(token);
    let header_ok = match header {
        Some(h) => crate::text::str_eq(h, expected.as_str()),
        None => false,
    };
    if header_ok {
        return true;
    }
    match query {
        None => false,
        Some(q) => {
            let pairs = query_pairs(q);
            proof {
                if q@ == "token="@ + token@ && no_form_specials(token@) {
                    reveal_strlit("token=");
                    assert(q@.take(6) =~= "token="@);
                    assert(q@.skip(6) =~= token@);
                }
            }
            let name = "token".to_owned();
            let mut i: usize = 0;
            while i < pairs.len()
                invariant
                    i <= pairs@.len(),
                    name@ == "token"@,
                    opt_str_view(query) == Some(q@),
                    pair_views(pairs@) == form_urlencoded_pairs(q@),
                    forall|j: int| 0 <= j < i ==> pair_views(pairs@)[j] != ("token"@, token@),
                    q@ == "token="@ + token@ && no_form_specials(token@) ==> pair_views(pairs@) == seq![
                        ("token"@, token@),
                    ],
                decreases pairs@.len() - i,
            {
                let (k, v) = (&pairs[i].0, &pairs[i].1);
                if crate::text::str_eq(k.as_str(), name.as_str()) && crate::text::str_eq(v.as_str(), token) {
                    proof {
                        assert(pair_views(pairs@)[i as int] == ("token"@, token@));
                        assert(form_urlencoded_pairs(q@)[i as int] == ("token"@, token@));
                        assert(query_has_token(form_urlencoded_pairs(q@), token@));
                    }
                    return true;
                }
                i = i + 1;
            }
            proof {
                if q@ == "token="@ + token@ && no_form_specials(token@) {
                    assert(pair_views(pairs@).len() == pairs@.len());
                    assert(pair_views(pairs@)[0] == ("token"@, token@));
                }
            }
            false
        },
    }
}

} // verus!

verus! {

/// The bearer header alone admits a request; a request with neither a
/// header nor a query is refused; a `token=<token>` query pair alone
/// admits it.
pub proof fn law_authorization(header: Option<Seq<char>>, query: Option<Seq<char>>, token: Seq<char>)
    ensures
        header == Some(expected_bearer(token)) ==> spec_authorized(header, query, token),
        header is None && query is None ==> !spec_authorized(header, query, token),
        (query matches Some(q) && query_has_token(form_urlencoded_pairs(q), token)) ==> spec_authorized(
            header,
            query,
            token,
        ),
        (header matches Some(h) && h != expected_bearer(token)) && query is None ==> !spec_authorized(
            header,
            query,
            token,
        ),
{
}

/// A generated token (URL-safe base64) holds no `&`, `+` or `%`, so the
/// `token=<token>` query of the URLs the bridge hands out needs no
/// decoding and admits requests (see [`is_authorized`]).
pub proof fn law_generated_token_query_safe(token: Seq<char>)
    requires
        forall|i: int| 0 <= i < token.len() ==> super::is_url_safe_b64_char(#[trigger] token[i]),
    ensures
        no_form_specials(token),
{
    assert forall|i: int| 0 <= i < token.len() implies #[trigger] token[i] != '&' && token[i] != '+'
        && token[i] != '%' by {
        assert(super::is_url_safe_b64_char(token[i]));
    }
}

} // verus!
