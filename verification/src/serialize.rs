//! Rendering the service's JSON bodies: a language object, one enriched
//! record, and the array of enriched records. Repository records pass through
//! as the JSON text the upstream returned; language names are escaped.

use vstd::prelude::*;
use crate::model::{lang_views, response_views, RepoResponse, RepoResponseView};
use crate::text::{dec_digits, escaped, json_escape, u64_to_dec};

verus! {

/// One member of a JSON language object: the escaped name and the count.
pub open spec fn lang_pair_json(p: (Seq<char>, u64)) -> Seq<char> {
    "\""@ + escaped(p.0) + "\":"@ + dec_digits(p.1 as nat)
}

/// The members of a JSON language object, comma-separated, in list order.
pub open spec fn langs_json_inner(pairs: Seq<(Seq<char>, u64)>) -> Seq<char>
    decreases pairs.len(),
{
    if pairs.len() == 0 {
        Seq::empty()
    } else if pairs.len() == 1 {
        lang_pair_json(pairs[0])
    } else {
        langs_json_inner(pairs.drop_last()) + ","@ + lang_pair_json(pairs.last())
    }
}

/// The JSON object mapping each language name to its byte count.
pub open spec fn langs_json(pairs: Seq<(Seq<char>, u64)>) -> Seq<char> {
    "{"@ + langs_json_inner(pairs) + "}"@
}

/// The JSON object pairing a repository record (verbatim) with its languages.
pub open spec fn repo_response_json(r: RepoResponseView) -> Seq<char> {
    "{\"repo\":"@ + r.repo.json + ",\"languages\":"@ + langs_json(r.languages) + "}"@
}

/// The elements of the enriched array, comma-separated, in list order.
pub open spec fn responses_json_inner(rs: Seq<RepoResponseView>) -> Seq<char>
    decreases rs.len(),
{
    if rs.len() == 0 {
        Seq::empty()
    } else if rs.len() == 1 {
        repo_response_json(rs[0])
    } else {
        responses_json_inner(rs.drop_last()) + ","@ + repo_response_json(rs.last())
    }
}

/// The JSON array of enriched records.
pub open spec fn responses_json(rs: Seq<RepoResponseView>) -> Seq<char> {
    "["@ + responses_json_inner(rs) + "]"@
}

/// Renders the JSON language object for the given pairs, in list order.
pub fn write_langs_json(pairs: &Vec<(String, u64)>) -> (r: String)
    ensures
        r@ == langs_json(lang_views(pairs@)),
{
    let mut out = String::from_str("{");
    let mut i: usize = 0;
    while i < pairs.len()
        invariant
            i <= pairs@.len(),
            out@ == "{"@ + langs_json_inner(lang_views(pairs@).subrange(0, i as int)),
        decreases pairs@.len() - i,
    {
        if i > 0 {
            out.append(",");
        }
        out.append("\"");
        let esc = json_escape(pairs[i].0.as_str());
        out.append(esc.as_str());
        out.append("\":");
        let digits = u64_to_dec(pairs[i].1);
        out.append(digits.as_str());
        proof {
            let lv = lang_views(pairs@);
            let pre = lv.subrange(0, i as int);
            let post = lv.subrange(0, i + 1 as int);
            assert(post.drop_last() =~= pre);
            assert(post.last() == (pairs@[i as int].0@, pairs@[i as int].1));
            if i == 0 {
                assert(out@ =~= "{"@ + langs_json_inner(post));
            } else {
                assert(langs_json_inner(post) == langs_json_inner(pre) + ","@ + lang_pair_json(
                    post.last(),
                ));
                assert(out@ =~= "{"@ + langs_json_inner(post));
            }
        }
        i += 1;
    }
    out.append("}");
    proof {
        assert(lang_views(pairs@).subrange(0, pairs@.len() as int) =~= lang_views(pairs@));
        assert(out@ =~= langs_json(lang_views(pairs@)));
    }
    out
}

/// Renders one enriched record: the repository JSON verbatim, then its
/// language object.
pub fn write_repo_response_json(r: &RepoResponse) -> (out: String)
    ensures
        out@ == repo_response_json(r@),
{
    let mut out = String::from_str("{\"repo\":");
    out.append(r.repo.json.as_str());
    out.append(",\"languages\":");
    let langs = write_langs_json(&r.languages);
    out.append(langs.as_str());
    out.append("}");
    proof {
        assert(out@ =~= repo_response_json(r@));
    }
    out
}

/// Renders the JSON array of enriched records, in list order.
pub fn write_responses_json(rs: &Vec<RepoResponse>) -> (out: String)
    ensures
        out@ == responses_json(response_views(rs@)),
{
    let mut out = String::from_str("[");
    let mut i: usize = 0;
    while i < rs.len()
        invariant
            i <= rs@.len(),
            out@ == "["@ + responses_json_inner(response_views(rs@).subrange(0, i as int)),
        decreases rs@.len() - i,
    {
        if i > 0 {
            out.append(",");
        }
        let item = write_repo_response_json(&rs[i]);
        out.append(item.as_str());
        proof {
            let rv = response_views(rs@);
            let pre = rv.subrange(0, i as int);
            let post = rv.subrange(0, i + 1 as int);
            assert(post.drop_last() =~= pre);
            assert(post.last() == rs@[i as int]@);
            if i == 0 {
                assert(out@ =~= "["@ + responses_json_inner(post));
            } else {
                assert(responses_json_inner(post) == responses_json_inner(pre) + ","@
                    + repo_response_json(post.last()));
                assert(out@ =~= "["@ + responses_json_inner(post));
            }
        }
        i += 1;
    }
    out.append("]");
    proof {
        assert(response_views(rs@).subrange(0, rs@.len() as int) =~= response_views(rs@));
        assert(out@ =~= responses_json(response_views(rs@)));
    }
    out
}

} // verus!
