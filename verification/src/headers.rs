//! Verified header assembly and lookup.
//!
//! Headers are held as ordered name/value pairs; where two entries share a
//! name, the later one wins. Request headers start with the bearer token, so
//! caller-supplied entries can override it; a `Content-Type` entry is added
//! exactly when a JSON body is present. Response headers keep, for each name,
//! the last value that decoded as text; undecodable values are dropped.

use vstd::prelude::*;

verus! {

/// The name/value views of a pair list.
pub open spec fn pairs_view(hs: Seq<(String, String)>) -> Seq<(Seq<char>, Seq<char>)> {
    hs.map_values(|p: (String, String)| (p.0@, p.1@))
}

/// Last-write-wins lookup of `name` in a header list.
pub open spec fn header_lookup(hs: Seq<(Seq<char>, Seq<char>)>, name: Seq<char>) -> Option<
    Seq<char>,
>
    decreases hs.len(),
{
    if hs.len() == 0 {
        None
    } else if hs.last().0 == name {
        Some(hs.last().1)
    } else {
        header_lookup(hs.drop_last(), name)
    }
}

/// No two entries share a name.
pub open spec fn unique_names(hs: Seq<(Seq<char>, Seq<char>)>) -> bool {
    forall|i: int, j: int| 0 <= i < j < hs.len() ==> (#[trigger] hs[i]).0 != (#[trigger] hs[j]).0
}

/// The value of the `Authorization` header built from the API key.
pub open spec fn bearer_value(api_key: Seq<char>) -> Seq<char> {
    "Bearer "@ + api_key
}

/// The view of an optional list of additional headers: absent means none.
pub open spec fn additional_view(additional: Option<Vec<(String, String)>>) -> Seq<
    (Seq<char>, Seq<char>),
> {
    match additional {
        Some(v) => pairs_view(v@),
        None => Seq::empty(),
    }
}

/// The headers sent with a request: the bearer token first, then every
/// caller-supplied entry, then `Content-Type: application/json` exactly when
/// a JSON body is present.
pub open spec fn assembled_headers(
    api_key: Seq<char>,
    additional: Seq<(Seq<char>, Seq<char>)>,
    has_json_body: bool,
) -> Seq<(Seq<char>, Seq<char>)> {
    seq![("Authorization"@, bearer_value(api_key))] + additional + if has_json_body {
        seq![("Content-Type"@, "application/json"@)]
    } else {
        Seq::empty()
    }
}

/// Assembles the headers of one request.
pub fn assemble_headers(
    api_key: &str,
    additional: &Option<Vec<(String, String)>>,
    has_json_body: bool,
) -> (hs: Vec<(String, String)>)
    ensures
        pairs_view(hs@) == assembled_headers(
            api_key@,
            additional_view(*additional),
            has_json_body,
        ),
{
    let mut hs: Vec<(String, String)> = Vec::new();
    let mut bearer: String = "Bearer ".to_owned();
    bearer.append(api_key);
    hs.push(("Authorization".to_owned(), bearer));
    if let Some(extra) = additional {
        let mut i: usize = 0;
        while i < extra.len()
            invariant
                i <= extra@.len(),
                pairs_view(hs@) == seq![("Authorization"@, bearer_value(api_key@))] + pairs_view(
                    extra@.subrange(0, i as int),
                ),
            decreases extra@.len() - i,
        {
            let ghost old_hs = hs@;
            let pair = (extra[i].0.clone(), extra[i].1.clone());
            proof {
                assert(pair.0@ == extra@[i as int].0@ && pair.1@ == extra@[i as int].1@);
            }
            hs.push(pair);
            proof {
                assert(pairs_view(hs@) =~= pairs_view(old_hs).push((pair.0@, pair.1@)));
                assert(pairs_view(extra@.subrange(0, i as int + 1)) =~= pairs_view(
                    extra@.subrange(0, i as int),
                ).push((extra@[i as int].0@, extra@[i as int].1@)));
                assert(pairs_view(hs@) =~= seq![("Authorization"@, bearer_value(api_key@))]
                    + pairs_view(extra@.subrange(0, i as int + 1)));
            }
            i = i + 1;
        }
        proof {
            assert(extra@.subrange(0, extra@.len() as int) =~= extra@);
        }
    }
    if has_json_body {
        hs.push(("Content-Type".to_owned(), "application/json".to_owned()));
    }
    proof {
        assert(pairs_view(hs@) =~= assembled_headers(
            api_key@,
            additional_view(*additional),
            has_json_body,
        ));
    }
    hs
}

proof fn lemma_lookup_absent(hs: Seq<(Seq<char>, Seq<char>)>, name: Seq<char>)
    requires
        forall|i: int| 0 <= i < hs.len() ==> (#[trigger] hs[i]).0 != name,
    ensures
        header_lookup(hs, name) is None,
    decreases hs.len(),
{
    if hs.len() > 0 {
        assert(hs.last() == hs[hs.len() - 1]);
        lemma_lookup_absent(hs.drop_last(), name);
    }
}

proof fn lemma_lookup_found(hs: Seq<(Seq<char>, Seq<char>)>, name: Seq<char>, j: int)
    requires
        0 <= j < hs.len(),
        hs[j].0 == name,
        forall|i: int| j < i < hs.len() ==> (#[trigger] hs[i]).0 != name,
    ensures
        header_lookup(hs, name) == Some(hs[j].1),
    decreases hs.len(),
{
    if j == hs.len() - 1 {
        assert(hs.last() == hs[j]);
    } else {
        assert(hs.last() == hs[hs.len() - 1]);
        lemma_lookup_found(hs.drop_last(), name, j);
    }
}

/// Law: a request carrying a JSON body always carries
/// `Content-Type: application/json`, whatever else the caller supplied.
pub proof fn lemma_json_body_content_type(api_key: Seq<char>, additional: Seq<(Seq<char>, Seq<char>)>)
    ensures
        header_lookup(assembled_headers(api_key, additional, true), "Content-Type"@) == Some(
            "application/json"@,
        ),
{
    let hs = assembled_headers(api_key, additional, true);
    assert(hs.last() == ("Content-Type"@, "application/json"@));
}

/// Law: a request without a JSON body carries no `Content-Type`, as long as
/// the caller supplied none either.
pub proof fn lemma_no_body_no_content_type(
    api_key: Seq<char>,
    additional: Seq<(Seq<char>, Seq<char>)>,
)
    requires
        forall|i: int| 0 <= i < additional.len() ==> (#[trigger] additional[i]).0
            != "Content-Type"@,
    ensures
        header_lookup(assembled_headers(api_key, additional, false), "Content-Type"@) is None,
{
    let hs = assembled_headers(api_key, additional, false);
    reveal_strlit("Content-Type");
    reveal_strlit("Authorization");
    assert("Content-Type"@.len() == 12 && "Authorization"@.len() == 13);
    assert forall|i: int| 0 <= i < hs.len() implies (#[trigger] hs[i]).0 != "Content-Type"@ by {
        if i == 0 {
            assert(hs[0].0 == "Authorization"@);
        } else {
            assert(hs[i] == additional[i - 1]);
        }
    }
    lemma_lookup_absent(hs, "Content-Type"@);
}

/// Law: a caller-supplied `Authorization` header overrides the bearer token;
/// the last such entry wins.
pub proof fn lemma_authorization_override(
    api_key: Seq<char>,
    additional: Seq<(Seq<char>, Seq<char>)>,
    has_json_body: bool,
    j: int,
)
    requires
        0 <= j < additional.len(),
        additional[j].0 == "Authorization"@,
        forall|i: int| j < i < additional.len() ==> (#[trigger] additional[i]).0
            != "Authorization"@,
    ensures
        header_lookup(assembled_headers(api_key, additional, has_json_body), "Authorization"@)
            == Some(additional[j].1),
{
    let hs = assembled_headers(api_key, additional, has_json_body);
    reveal_strlit("Content-Type");
    reveal_strlit("Authorization");
    assert("Content-Type"@.len() == 12 && "Authorization"@.len() == 13);
    assert(hs[j + 1] == additional[j]);
    assert forall|i: int| j + 1 < i < hs.len() implies (#[trigger] hs[i]).0 != "Authorization"@ by {
        if i < 1 + additional.len() {
            assert(hs[i] == additional[i - 1]);
        } else {
            assert(hs[i] == ("Content-Type"@, "application/json"@));
        }
    }
    lemma_lookup_found(hs, "Authorization"@, j + 1);
}

/// Law: where the caller supplies no `Authorization` header, the request
/// carries the bearer token built from the API key.
pub proof fn lemma_bearer_token_applied(
    api_key: Seq<char>,
    additional: Seq<(Seq<char>, Seq<char>)>,
    has_json_body: bool,
)
    requires
        forall|i: int| 0 <= i < additional.len() ==> (#[trigger] additional[i]).0
            != "Authorization"@,
    ensures
        header_lookup(assembled_headers(api_key, additional, has_json_body), "Authorization"@)
            == Some(bearer_value(api_key)),
{
    let hs = assembled_headers(api_key, additional, has_json_body);
    reveal_strlit("Content-Type");
    reveal_strlit("Authorization");
    assert("Content-Type"@.len() == 12 && "Authorization"@.len() == 13);
    assert(hs[0] == ("Authorization"@, bearer_value(api_key)));
    assert forall|i: int| 0 < i < hs.len() implies (#[trigger] hs[i]).0 != "Authorization"@ by {
        if i < 1 + additional.len() {
            assert(hs[i] == additional[i - 1]);
        } else {
            assert(hs[i] == ("Content-Type"@, "application/json"@));
        }
    }
    lemma_lookup_found(hs, "Authorization"@, 0);
}

// ---------------------------------------------------------------------------
// Response headers
// ---------------------------------------------------------------------------

/// The view of raw response headers: each name with its value where the value
/// decoded as text, or nothing where it did not.
pub open spec fn raw_pairs_view(raw: Seq<(String, Option<String>)>) -> Seq<
    (Seq<char>, Option<Seq<char>>),
> {
    raw.map_values(
        |p: (String, Option<String>)|
            (
                p.0@,
                match p.1 {
                    Some(v) => Some(v@),
                    None => None,
                },
            ),
    )
}

/// Last-write-wins lookup among the raw header values that decoded as text;
/// undecodable values are invisible.
pub open spec fn raw_header_lookup(
    raw: Seq<(Seq<char>, Option<Seq<char>>)>,
    name: Seq<char>,
) -> Option<Seq<char>>
    decreases raw.len(),
{
    if raw.len() == 0 {
        None
    } else if raw.last().0 == name && raw.last().1 is Some {
        Some(raw.last().1->Some_0)
    } else {
        raw_header_lookup(raw.drop_last(), name)
    }
}

/// Law: a header name whose every raw value failed to decode as text is
/// absent from the collected headers; the call itself does not fail on it.
pub proof fn lemma_undecodable_header_omitted(
    raw: Seq<(Seq<char>, Option<Seq<char>>)>,
    name: Seq<char>,
)
    requires
        forall|i: int| 0 <= i < raw.len() && (#[trigger] raw[i]).0 == name ==> raw[i].1 is None,
    ensures
        raw_header_lookup(raw, name) is None,
    decreases raw.len(),
{
    if raw.len() > 0 {
        assert(raw.last() == raw[raw.len() - 1]);
        lemma_undecodable_header_omitted(raw.drop_last(), name);
    }
}

proof fn lemma_lookup_unique_found(hs: Seq<(Seq<char>, Seq<char>)>, j: int)
    requires
        unique_names(hs),
        0 <= j < hs.len(),
    ensures
        header_lookup(hs, hs[j].0) == Some(hs[j].1),
{
    assert forall|i: int| j < i < hs.len() implies (#[trigger] hs[i]).0 != hs[j].0 by {}
    lemma_lookup_found(hs, hs[j].0, j);
}

fn find_name(hs: &Vec<(String, String)>, name: &String) -> (r: Option<usize>)
    ensures
        r is Some ==> r->Some_0 < hs@.len() && pairs_view(hs@)[r->Some_0 as int].0 == name@,
        r is None ==> forall|i: int| 0 <= i < hs@.len() ==> (#[trigger] pairs_view(hs@)[i]).0
            != name@,
{
    let mut i: usize = 0;
    while i < hs.len()
        invariant
            i <= hs@.len(),
            forall|k: int| 0 <= k < i ==> (#[trigger] pairs_view(hs@)[k]).0 != name@,
        decreases hs@.len() - i,
    {
        if hs[i].0 == *name {
            return Some(i);
        }
        i = i + 1;
    }
    None
}

/// Collects raw response headers into a deduplicated header list: for each
/// name the last value that decoded as text, values that did not decode
/// silently dropped.
pub fn collect_response_headers(raw: Vec<(String, Option<String>)>) -> (hs: Vec<(String, String)>)
    ensures
        unique_names(pairs_view(hs@)),
        forall|name: Seq<char>| #[trigger] header_lookup(pairs_view(hs@), name)
            == raw_header_lookup(raw_pairs_view(raw@), name),
{
    let mut hs: Vec<(String, String)> = Vec::new();
    let rlen = raw.len();
    let mut i: usize = 0;
    proof {
        assert(raw_pairs_view(raw@).subrange(0, 0) =~= Seq::<(Seq<char>, Option<Seq<char>>)>::empty());
    }
    while i < rlen
        invariant
            i <= rlen,
            rlen == raw@.len(),
            unique_names(pairs_view(hs@)),
            forall|name: Seq<char>| #[trigger] header_lookup(pairs_view(hs@), name)
                == raw_header_lookup(raw_pairs_view(raw@).subrange(0, i as int), name),
        decreases rlen - i,
    {
        let ghost prefix = raw_pairs_view(raw@).subrange(0, i as int);
        let ghost next_prefix = raw_pairs_view(raw@).subrange(0, i as int + 1);
        proof {
            assert(next_prefix.drop_last() =~= prefix);
            assert(next_prefix.last() == raw_pairs_view(raw@)[i as int]);
        }
        if let Some(raw_value) = &raw[i].1 {
            let name = raw[i].0.clone();
            let value = raw_value.clone();
            let ghost old_hs = pairs_view(hs@);
            match find_name(&hs, &name) {
                Some(at) => {
                    hs.remove(at);
                    let ghost mid_hs = pairs_view(hs@);
                    hs.push((name, value));
                    proof {
                        assert(mid_hs =~= old_hs.remove(at as int));
                        assert(pairs_view(hs@).drop_last() =~= mid_hs);
                        assert(pairs_view(hs@).last() == (next_prefix.last().0,
                            next_prefix.last().1->Some_0));
                        lemma_collect_update(old_hs, mid_hs, pairs_view(hs@), prefix, next_prefix,
                            at as int);
                    }
                },
                None => {
                    hs.push((name, value));
                    proof {
                        assert(pairs_view(hs@).drop_last() =~= old_hs);
                        assert(pairs_view(hs@).last() == (next_prefix.last().0,
                            next_prefix.last().1->Some_0));
                        lemma_collect_push(old_hs, pairs_view(hs@), prefix, next_prefix);
                    }
                },
            }
        } else {
            proof {
                assert forall|name: Seq<char>| #[trigger] header_lookup(pairs_view(hs@), name)
                    == raw_header_lookup(next_prefix, name) by {
                    assert(raw_header_lookup(next_prefix, name) == raw_header_lookup(
                        prefix,
                        name,
                    ));
                }
            }
        }
        i = i + 1;
    }
    proof {
        assert(raw_pairs_view(raw@).subrange(0, rlen as int) =~= raw_pairs_view(raw@));
    }
    hs
}

proof fn lemma_collect_push(
    old_hs: Seq<(Seq<char>, Seq<char>)>,
    new_hs: Seq<(Seq<char>, Seq<char>)>,
    prefix: Seq<(Seq<char>, Option<Seq<char>>)>,
    next_prefix: Seq<(Seq<char>, Option<Seq<char>>)>,
)
    requires
        unique_names(old_hs),
        forall|name: Seq<char>| #[trigger] header_lookup(old_hs, name) == raw_header_lookup(
            prefix,
            name,
        ),
        forall|i: int| 0 <= i < old_hs.len() ==> (#[trigger] old_hs[i]).0 != new_hs.last().0,
        new_hs.len() == old_hs.len() + 1,
        new_hs.drop_last() == old_hs,
        next_prefix.len() == prefix.len() + 1,
        next_prefix.drop_last() == prefix,
        next_prefix.last().1 is Some,
        new_hs.last() == (next_prefix.last().0, next_prefix.last().1->Some_0),
    ensures
        unique_names(new_hs),
        forall|name: Seq<char>| #[trigger] header_lookup(new_hs, name) == raw_header_lookup(
            next_prefix,
            name,
        ),
{
    assert forall|i: int, j: int| 0 <= i < j < new_hs.len() implies (#[trigger] new_hs[i]).0 != (
    #[trigger] new_hs[j]).0 by {
        if j < new_hs.len() - 1 {
            assert(new_hs[i] == old_hs[i] && new_hs[j] == old_hs[j]);
        } else {
            assert(new_hs[i] == old_hs[i]);
        }
    }
    assert forall|name: Seq<char>| #[trigger] header_lookup(new_hs, name) == raw_header_lookup(
        next_prefix,
        name,
    ) by {
        if name == new_hs.last().0 {
        } else {
            assert(header_lookup(new_hs, name) == header_lookup(old_hs, name));
            assert(raw_header_lookup(next_prefix, name) == raw_header_lookup(prefix, name));
        }
    }
}

proof fn lemma_collect_update(
    old_hs: Seq<(Seq<char>, Seq<char>)>,
    mid_hs: Seq<(Seq<char>, Seq<char>)>,
    new_hs: Seq<(Seq<char>, Seq<char>)>,
    prefix: Seq<(Seq<char>, Option<Seq<char>>)>,
    next_prefix: Seq<(Seq<char>, Option<Seq<char>>)>,
    at: int,
)
    requires
        unique_names(old_hs),
        forall|name: Seq<char>| #[trigger] header_lookup(old_hs, name) == raw_header_lookup(
            prefix,
            name,
        ),
        0 <= at < old_hs.len(),
        old_hs[at].0 == new_hs.last().0,
        mid_hs == old_hs.remove(at),
        new_hs.len() == mid_hs.len() + 1,
        new_hs.drop_last() == mid_hs,
        next_prefix.len() == prefix.len() + 1,
        next_prefix.drop_last() == prefix,
        next_prefix.last().1 is Some,
        new_hs.last() == (next_prefix.last().0, next_prefix.last().1->Some_0),
    ensures
        unique_names(new_hs),
        forall|name: Seq<char>| #[trigger] header_lookup(new_hs, name) == raw_header_lookup(
            next_prefix,
            name,
        ),
{
    // mid_hs keeps every pair of old_hs but the one at `at`, names still unique
    assert forall|i: int, j: int| 0 <= i < j < mid_hs.len() implies (#[trigger] mid_hs[i]).0 != (
    #[trigger] mid_hs[j]).0 by {
        let oi = if i < at { i } else { i + 1 };
        let oj = if j < at { j } else { j + 1 };
        assert(mid_hs[i] == old_hs[oi] && mid_hs[j] == old_hs[oj]);
    }
    assert forall|i: int| 0 <= i < mid_hs.len() implies (#[trigger] mid_hs[i]).0 != new_hs.last().0
        by {
        let oi = if i < at { i } else { i + 1 };
        assert(mid_hs[i] == old_hs[oi]);
    }
    assert forall|i: int, j: int| 0 <= i < j < new_hs.len() implies (#[trigger] new_hs[i]).0 != (
    #[trigger] new_hs[j]).0 by {
        if j < new_hs.len() - 1 {
            assert(new_hs[i] == mid_hs[i] && new_hs[j] == mid_hs[j]);
        } else {
            assert(new_hs[i] == mid_hs[i]);
        }
    }
    assert forall|name: Seq<char>| #[trigger] header_lookup(new_hs, name) == raw_header_lookup(
        next_prefix,
        name,
    ) by {
        if name == new_hs.last().0 {
        } else {
            assert(header_lookup(new_hs, name) == header_lookup(mid_hs, name));
            lemma_lookup_remove_other(old_hs, at, name);
            assert(raw_header_lookup(next_prefix, name) == raw_header_lookup(prefix, name));
        }
    }
}

proof fn lemma_lookup_remove_other(hs: Seq<(Seq<char>, Seq<char>)>, at: int, name: Seq<char>)
    requires
        unique_names(hs),
        0 <= at < hs.len(),
        hs[at].0 != name,
    ensures
        header_lookup(hs.remove(at), name) == header_lookup(hs, name),
{
    let removed = hs.remove(at);
    assert forall|i: int, j: int| 0 <= i < j < removed.len() implies (#[trigger] removed[i]).0 != (
    #[trigger] removed[j]).0 by {
        let oi = if i < at { i } else { i + 1 };
        let oj = if j < at { j } else { j + 1 };
        assert(removed[i] == hs[oi] && removed[j] == hs[oj]);
    }
    if exists|j: int| 0 <= j < hs.len() && (#[trigger] hs[j]).0 == name {
        let j = choose|j: int| 0 <= j < hs.len() && (#[trigger] hs[j]).0 == name;
        lemma_lookup_unique_found(hs, j);
        let rj = if j < at { j } else { j - 1 };
        assert(removed[rj] == hs[j]);
        lemma_lookup_unique_found(removed, rj);
    } else {
        lemma_lookup_absent(hs, name);
        assert forall|i: int| 0 <= i < removed.len() implies (#[trigger] removed[i]).0 != name by {
            let oi = if i < at { i } else { i + 1 };
            assert(removed[i] == hs[oi]);
        }
        lemma_lookup_absent(removed, name);
    }
}

} // verus!
