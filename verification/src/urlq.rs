use vstd::prelude::*;

verus! {

/// Whether a text parses as an absolute URL.
pub uninterp spec fn url_ok(s: Seq<char>) -> bool;

/// The decoded query pairs of a URL, in the order they stand in it.
pub uninterp spec fn url_query_pairs(s: Seq<char>) -> Seq<(Seq<char>, Seq<char>)>;

/// The URL obtained by parsing a base URL and appending the given query
/// pairs, form-urlencoded, to its query string.
pub uninterp spec fn url_with_query(
    base: Seq<char>,
    pairs: Seq<(Seq<char>, Seq<char>)>,
) -> Seq<char>;

/// Relies on url::Url::parse, Url::query_pairs_mut with append_pair, and
/// Url::as_str: parses the base, appends each pair encoded, and renders
/// the result; parsing succeeds exactly on well-formed absolute URLs.
#[verifier::external_body]
pub(crate) fn append_query_pairs(base: &str, pairs: &Vec<(String, String)>) -> (r: Option<String>)
    ensures
        r is Some <==> url_ok(base@),
        r matches Some(u) ==> u@ == url_with_query(base@, pairs.deep_view()),
{
    let mut url = match url::Url::parse(base) {
        Ok(url) => url,
        Err(_) => return None,
    };
    {
        let mut query = url.query_pairs_mut();
        for pair in pairs.iter() {
            query.append_pair(&pair.0, &pair.1);
        }
    }
    Some(url.as_str().to_string())
}

/// Relies on url::Url::parse and Url::query_pairs: parses the URL and
/// hands its decoded query pairs back, in order.
#[verifier::external_body]
pub(crate) fn parse_query_pairs(url: &str) -> (r: Option<Vec<(String, String)>>)
    ensures
        r is Some <==> url_ok(url@),
        r matches Some(v) ==> v.deep_view() == url_query_pairs(url@),
{
    match url::Url::parse(url) {
        Ok(url) => Some(
            url.query_pairs().map(|(k, v)| (k.into_owned(), v.into_owned())).collect(),
        ),
        Err(_) => None,
    }
}

/// The value of the first query pair carrying the given key.
pub open spec fn first_value(pairs: Seq<(Seq<char>, Seq<char>)>, key: Seq<char>) -> Option<
    Seq<char>,
>
    decreases pairs.len(),
{
    if pairs.len() == 0 {
        None
    } else if pairs[0].0 == key {
        Some(pairs[0].1)
    } else {
        first_value(pairs.drop_first(), key)
    }
}

/// Finds the value of the first query pair carrying the given key.
pub fn find_query_param(pairs: &Vec<(String, String)>, key: &str) -> (r: Option<String>)
    ensures
        r is Some <==> first_value(pairs.deep_view(), key@) is Some,
        r matches Some(v) ==> first_value(pairs.deep_view(), key@) matches Some(m) && v@ == m,
{
    let key_owned: String = key.to_owned();
    let ghost all: Seq<(Seq<char>, Seq<char>)> = pairs.deep_view();
    proof {
        assert(all.skip(0) =~= all);
    }
    let mut i: usize = 0;
    while i < pairs.len()
        invariant
            i <= pairs.len(),
            all == pairs.deep_view(),
            key_owned@ == key@,
            first_value(all, key@) == first_value(all.skip(i as int), key@),
        decreases pairs.len() - i,
    {
        proof {
            assert(all.skip(i as int)[0] == all[i as int]);
        }
        if pairs[i].0 == key_owned {
            return Some(pairs[i].1.clone());
        }
        proof {
            assert(all.skip(i as int).drop_first() =~= all.skip(i as int + 1));
        }
        i += 1;
    }
    proof {
        assert(all.skip(i as int).len() == 0);
    }
    None
}

} // verus!
