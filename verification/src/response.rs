//! What comes back from a service, and how it is merged into the response.

use crate::json::array_view;
use crate::json::Json;
use crate::json::Value;
use crate::path::all_part;
use crate::path::Path;
use crate::path::PathElement;
use crate::path::Segment;
use crate::rewrites::rules_view;
use crate::rewrites::DataRewrite;
use crate::rewrites::Rewrite;
use crate::variables::holds_name;
use crate::variables::names_view;
use crate::variables::paths_view;
use vstd::prelude::*;
use vstd::string::StringExecFns;

verus! {

/// The response of a service: its data, if it sent any.
#[derive(Debug)]
pub struct Response {
    pub data: Option<Value>,
}

/// The result of a fetch node, recorded for the deferred part of the
/// response that waits for it.
#[derive(Debug)]
pub struct DeferredFetch {
    /// The identity of the fetch node.
    pub id: String,
    pub value: Value,
}

/// The mathematical model of a deferred-fetch record.
pub struct DeferredFetchModel {
    pub id: Seq<char>,
    pub value: Json,
}

impl View for DeferredFetch {
    type V = DeferredFetchModel;

    open spec fn view(&self) -> DeferredFetchModel {
        DeferredFetchModel { id: self.id@, value: self.value@ }
    }
}

/// What a fetch yields: the merged value and the deferred-fetch records.
#[derive(Debug)]
pub struct FetchResponse {
    pub value: Value,
    pub deferred: Vec<DeferredFetch>,
}

/// The mathematical model of what a fetch yields.
pub struct FetchResponseModel {
    pub value: Json,
    pub deferred: Seq<DeferredFetchModel>,
}

impl FetchResponseModel {
    /// What a fetch yields when there is nothing to fetch: an object without
    /// members and no records.
    pub open spec fn nothing() -> FetchResponseModel {
        FetchResponseModel { value: Json::empty_object(), deferred: Seq::empty() }
    }
}

impl View for FetchResponse {
    type V = FetchResponseModel;

    open spec fn view(&self) -> FetchResponseModel {
        FetchResponseModel {
            value: self.value@,
            deferred: Seq::new(self.deferred@.len(), |i: int| self.deferred@[i]@),
        }
    }
}

impl FetchResponse {
    /// What a fetch yields when there is nothing to fetch.
    pub fn nothing() -> (res: FetchResponse)
        ensures
            res@ == FetchResponseModel::nothing(),
    {
        let res = FetchResponse { value: Value::empty_object(), deferred: Vec::new() };
        assert(res@.deferred =~= Seq::<DeferredFetchModel>::empty());
        res
    }
}

/// The key under which a service returns the entities it was asked for.
pub open spec fn entities_key() -> Seq<char> {
    "_entities"@
}

/// The returned entities, merged: each entity that has an inverted path at
/// its index is put, after the output rewrites, where that path leads, into
/// a value that starts as null. An entity without a path is left out.
pub open spec fn merged_entities(
    entities: Seq<Json>,
    paths: Seq<Seq<Segment>>,
    output_rewrites: Seq<Rewrite>,
) -> Json
    decreases entities.len(),
{
    if entities.len() == 0 {
        Json::Null
    } else {
        let before = merged_entities(entities.drop_last(), paths, output_rewrites);
        let index = entities.len() - 1;
        if index < paths.len() {
            before.with_at(paths[index], entities.last().rewritten_all(output_rewrites))
        } else {
            before
        }
    }
}

/// The value that a response contributes.
///
/// For a fetch that requires input, the entities under `_entities` in the
/// data are merged at the inverted paths; data that is no object, or has no
/// array there, contributes null.
///
/// For a fetch that requires no input, the data, or null without data, is put
/// after the output rewrites where `dir` leads.
pub open spec fn response_value(
    required: Seq<Seq<Segment>>,
    dir: Seq<Segment>,
    paths: Seq<Seq<Segment>>,
    data: Option<Json>,
    output_rewrites: Seq<Rewrite>,
) -> Json {
    if required.len() > 0 {
        match data {
            Some(found) => match found.child(Segment::Key(entities_key())) {
                Some(Json::Array(entities)) => merged_entities(entities, paths, output_rewrites),
                _ => Json::Null,
            },
            None => Json::Null,
        }
    } else {
        let sent = match data {
            Some(found) => found,
            None => Json::Null,
        };
        Json::Null.with_at(dir, sent.rewritten_all(output_rewrites))
    }
}

/// The deferred-fetch records of a result: one, under the node's identity,
/// where the node has one and the registry holds it; else none.
pub open spec fn deferred_records(
    id: Option<Seq<char>>,
    registry: Seq<Seq<char>>,
    value: Json,
) -> Seq<DeferredFetchModel> {
    match id {
        Some(id) => if registry.contains(id) {
            seq![DeferredFetchModel { id, value }]
        } else {
            Seq::empty()
        },
        None => Seq::empty(),
    }
}

/// Each merged entity is found where its inverted path leads, where each two
/// of the inverted paths part.
pub proof fn merged_entities_are_found(
    entities: Seq<Json>,
    paths: Seq<Seq<Segment>>,
    output_rewrites: Seq<Rewrite>,
    index: int,
)
    requires
        all_part(paths),
        0 <= index < entities.len(),
        index < paths.len(),
    ensures
        merged_entities(entities, paths, output_rewrites).at(paths[index]) == Some(
            entities[index].rewritten_all(output_rewrites),
        ),
    decreases entities.len(),
{
    let before = merged_entities(entities.drop_last(), paths, output_rewrites);
    let last = entities.len() - 1;
    let entity = entities.last().rewritten_all(output_rewrites);
    if index == last {
        before.with_at_then_at(paths[last], entity);
    } else {
        merged_entities_are_found(entities.drop_last(), paths, output_rewrites, index);
        if last < paths.len() {
            before.with_at_keeps_what_lies_apart(paths[last], entity, paths[index]);
        }
    }
}

/// Computes `merged_entities`.
fn merge_entities(entities: &Vec<Value>, paths: &Vec<Path>, output_rewrites: &Vec<DataRewrite>) -> (res:
    Value)
    ensures
        res@ == merged_entities(
            crate::json::items_view(entities@),
            paths_view(paths@),
            rules_view(output_rewrites@),
        ),
{
    let ghost all = crate::json::items_view(entities@);
    let mut res = Value::Null;
    let mut i: usize = 0;
    assert(all.take(0) =~= Seq::<Json>::empty());
    while i < entities.len()
        invariant
            i <= entities@.len(),
            all == crate::json::items_view(entities@),
            res@ == merged_entities(
                all.take(i as int),
                paths_view(paths@),
                rules_view(output_rewrites@),
            ),
        decreases entities.len() - i,
    {
        proof {
            let upto = all.take(i as int + 1);
            assert(upto.drop_last() =~= all.take(i as int));
            assert(upto.last() == entities@[i as int]@);
        }
        if i < paths.len() {
            let entity = entities[i].clone().apply_rewrites(output_rewrites);
            res = res.insert(&paths[i], entity);
        }
        i = i + 1;
    }
    assert(all.take(i as int) =~= all);
    res
}

/// The value that `response` contributes to the response of a fetch with the
/// given required input paths, current path, inverted paths and output
/// rewrites.
pub fn response_at_path(
    current_dir: &Path,
    inverted_paths: &Vec<Path>,
    response: &Response,
    required: &Vec<Path>,
    output_rewrites: &Vec<DataRewrite>,
) -> (res: Value)
    ensures
        res@ == response_value(
            paths_view(required@),
            current_dir@,
            paths_view(inverted_paths@),
            match response.data {
                Some(data) => Some(data@),
                None => None,
            },
            rules_view(output_rewrites@),
        ),
{
    if required.len() > 0 {
        let key = PathElement::Key(String::from_str("_entities"));
        match &response.data {
            Some(data) => match data.get(&key) {
                Some(Value::Array(entities)) => {
                    proof {
                        array_view(*entities);
                    }
                    merge_entities(entities, inverted_paths, output_rewrites)
                },
                Some(other) => {
                    assert(!(other@ is Array));
                    Value::Null
                },
                None => Value::Null,
            },
            None => Value::Null,
        }
    } else {
        let sent = match &response.data {
            Some(data) => data.clone(),
            None => Value::Null,
        };
        Value::Null.insert(current_dir, sent.apply_rewrites(output_rewrites))
    }
}

/// The deferred-fetch records of the result `value` of the fetch node with
/// the identity `id`, where `deferred_fetches` holds the identities that a
/// deferred part of the response waits for.
pub fn record_deferred(id: &Option<String>, deferred_fetches: &Vec<String>, value: &Value) -> (res:
    Vec<DeferredFetch>)
    ensures
        Seq::new(res@.len(), |i: int| res@[i]@) == deferred_records(
            match id {
                Some(id) => Some(id@),
                None => None,
            },
            names_view(deferred_fetches@),
            value@,
        ),
{
    let mut res: Vec<DeferredFetch> = Vec::new();
    match id {
        Some(id) => {
            if holds_name(deferred_fetches, id) {
                res.push(DeferredFetch { id: id.clone(), value: value.clone() });
            }
        },
        None => {},
    }
    assert(Seq::new(res@.len(), |i: int| res@[i]@) =~= deferred_records(
        match id {
            Some(id) => Some(id@),
            None => None,
        },
        names_view(deferred_fetches@),
        value@,
    ));
    res
}

} // verus!
