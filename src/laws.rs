//! Properties that relate the flows' rules to one another.
use vstd::prelude::*;
use crate::api::{
    generate_route, health_outcome_of, installed_in, route_url, tags_route,
    translate_outcome_of,
};
use crate::status::success_code;
use crate::text::{names_model, trim_slashes};

verus! {

/// Whether `s` ends with `'/'`.
pub open spec fn ends_with_slash(s: Seq<char>) -> bool {
    s.len() > 0 && s.last() == '/'
}

/// Trimming leaves no trailing slash, and trimming again changes nothing.
pub proof fn lemma_trim_slashes(s: Seq<char>)
    ensures
        !ends_with_slash(trim_slashes(s)),
        trim_slashes(trim_slashes(s)) == trim_slashes(s),
    decreases s.len(),
{
    if s.len() > 0 && s.last() == '/' {
        lemma_trim_slashes(s.drop_last());
    }
}

/// A trailing slash on the endpoint does not change a request URL: the URL is
/// the endpoint without trailing slashes, then the route, whose first
/// character is the one slash between them.
pub proof fn lemma_one_slash_before_route(endpoint: Seq<char>)
    ensures
        route_url(endpoint.push('/'), generate_route()) == route_url(endpoint, generate_route()),
        route_url(endpoint.push('/'), tags_route()) == route_url(endpoint, tags_route()),
        !ends_with_slash(trim_slashes(endpoint)),
        generate_route()[0] == '/' && generate_route()[1] != '/',
        tags_route()[0] == '/' && tags_route()[1] != '/',
{
    reveal_strlit("/api/generate");
    reveal_strlit("/api/tags");
    assert(endpoint.push('/').drop_last() =~= endpoint);
    lemma_trim_slashes(endpoint);
}

/// A request that never reached the server is an error for both flows, never
/// a result.
pub proof fn lemma_unreachable_is_error(
    error: Seq<char>,
    model: Seq<char>,
    reason: Option<Seq<char>>,
    decoded: Result<Seq<char>, Seq<char>>,
    listed: Result<Seq<Seq<char>>, Seq<char>>,
)
    ensures
        translate_outcome_of(Err(error), reason, decoded) is Err,
        health_outcome_of(model, Err(error), reason, listed) is Err,
{
}

/// A server that answers with a failure status fails a translation, but a
/// probe reports it as an unreachable server without a model, not an error.
pub proof fn lemma_failure_status(
    status: u16,
    body: Seq<char>,
    model: Seq<char>,
    reason: Option<Seq<char>>,
    decoded: Result<Seq<char>, Seq<char>>,
    listed: Result<Seq<Seq<char>>, Seq<char>>,
)
    requires
        !success_code(status),
    ensures
        translate_outcome_of(Ok((status, body)), reason, decoded) is Err,
        health_outcome_of(model, Ok((status, body)), reason, listed) matches Ok(h) && !h.reachable
            && !h.model_installed && h.models.len() == 0,
{
}

/// A listed name made of the requested model, `':'` and a tag counts as the
/// model being installed.
pub proof fn lemma_tagged_name_installed(models: Seq<Seq<char>>, model: Seq<char>, tag: Seq<char>)
    requires
        models.contains(model + seq![':'] + tag),
    ensures
        installed_in(models, model),
{
    let listed = model + seq![':'] + tag;
    assert(listed.subrange(0, model.len() as int) =~= model);
    assert(listed[model.len() as int] == ':');
    let i = choose|i: int| 0 <= i < models.len() && models[i] == listed;
    assert(names_model(models[i], model));
}

} // verus!
