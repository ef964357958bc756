//! Resolution of the variables of a fetch from the data gathered so far.

use crate::decimal::indexed_name;
use crate::decimal::with_index;
use crate::json::array_view;
use crate::json::items_view;
use crate::json::members_view;
use crate::json::object_view;
use crate::json::Json;
use crate::json::JsonMember;
use crate::json::Member;
use crate::json::Value;
use crate::path::all_part;
use crate::path::part;
use crate::path::steps_from_one_path_part;
use crate::path::Path;
use crate::path::PathElement;
use crate::path::Segment;
use crate::request::Request;
use crate::rewrites::rules_view;
use crate::rewrites::DataRewrite;
use crate::rewrites::Rewrite;
use vstd::prelude::*;
use vstd::string::StringExecFns;

verus! {

/// The models of a list of paths.
pub open spec fn paths_view(paths: Seq<Path>) -> Seq<Seq<Segment>> {
    Seq::new(paths.len(), |i: int| paths[i]@)
}

/// The models of a list of names.
pub open spec fn names_view(names: Seq<String>) -> Seq<Seq<char>> {
    Seq::new(names.len(), |i: int| names[i]@)
}

/// The path of one step, into the member under `key`.
pub open spec fn key_path(key: Seq<char>) -> Seq<Segment> {
    seq![Segment::Key(key)]
}

/// The name of the variable that carries the records of an entity fetch.
pub open spec fn representations_key() -> Seq<char> {
    "representations"@
}

/// A value of the gathered data that may be an entity, with the path that
/// leads to it.
pub struct Candidate {
    pub path: Seq<Segment>,
    pub value: Json,
}

/// The candidates at `dir` in `data`: the items of the array that `dir` leads
/// to, each with its index as the last step of its path; or the one value
/// that `dir` leads to, where that is no array; or none, where `dir` leads
/// nowhere.
pub open spec fn candidates(data: Json, dir: Seq<Segment>) -> Seq<Candidate> {
    match data.at(dir) {
        None => Seq::empty(),
        Some(Json::Array(items)) => Seq::new(
            items.len(),
            |i: int| Candidate { path: dir.push(Segment::Index(i as nat)), value: items[i] },
        ),
        Some(value) => seq![Candidate { path: dir, value }],
    }
}

/// What `value` holds at the required paths: an object built by putting, for
/// each required path in order that leads somewhere in `value`, the value
/// found at the same path.
pub open spec fn projection(value: Json, required: Seq<Seq<Segment>>) -> Json
    decreases required.len(),
{
    if required.len() == 0 {
        Json::empty_object()
    } else {
        let before = projection(value, required.drop_last());
        match value.at(required.last()) {
            Some(found) => before.with_at(required.last(), found),
            None => before,
        }
    }
}

/// Whether a projection stands for an entity: it is an object with a member.
pub open spec fn is_record(projected: Json) -> bool {
    projected is Object && projected.members().len() > 0
}

/// The contextual arguments of `value`: an object with, for each key renamer
/// among the rules, in order, whose path leads somewhere in `value`, the
/// value found there under the rule's new key. Value setters say nothing of
/// the context.
pub open spec fn context_of(value: Json, rules: Seq<Rewrite>) -> Json
    decreases rules.len(),
{
    if rules.len() == 0 {
        Json::empty_object()
    } else {
        let before = context_of(value, rules.drop_last());
        match rules.last() {
            Rewrite::KeyRenamer { path, rename_key_to } => match value.at(path) {
                Some(found) => before.with_at(key_path(rename_key_to), found),
                None => before,
            },
            Rewrite::ValueSetter { .. } => before,
        }
    }
}

/// What has been extracted from the gathered data: the records, and for each
/// record, at the same index, the path it was found at and its contextual
/// arguments.
pub struct Extraction {
    pub records: Seq<Json>,
    pub paths: Seq<Seq<Segment>>,
    pub contexts: Seq<Json>,
}

impl Extraction {
    /// Nothing extracted.
    pub open spec fn none() -> Extraction {
        Extraction { records: Seq::empty(), paths: Seq::empty(), contexts: Seq::empty() }
    }

    /// This extraction after `candidate` has been looked at. A candidate whose
    /// projection is a record adds that record, after the input rewrites, with
    /// its path and its contextual arguments; another candidate adds nothing.
    pub open spec fn with(
        self,
        candidate: Candidate,
        required: Seq<Seq<Segment>>,
        input_rewrites: Seq<Rewrite>,
        context_rewrites: Seq<Rewrite>,
    ) -> Extraction {
        let projected = projection(candidate.value, required);
        if is_record(projected) {
            Extraction {
                records: self.records.push(projected.rewritten_all(input_rewrites)),
                paths: self.paths.push(candidate.path),
                contexts: self.contexts.push(context_of(candidate.value, context_rewrites)),
            }
        } else {
            self
        }
    }
}

/// What the candidates yield, looked at in order.
pub open spec fn extraction(
    found: Seq<Candidate>,
    required: Seq<Seq<Segment>>,
    input_rewrites: Seq<Rewrite>,
    context_rewrites: Seq<Rewrite>,
) -> Extraction
    decreases found.len(),
{
    if found.len() == 0 {
        Extraction::none()
    } else {
        extraction(found.drop_last(), required, input_rewrites, context_rewrites).with(
            found.last(),
            required,
            input_rewrites,
            context_rewrites,
        )
    }
}

/// The bindings of the variables that the operation uses: an object with, for
/// each used name in order that the request binds, the value it binds it to.
pub open spec fn bindings(usages: Seq<Seq<char>>, variables: Json) -> Json
    decreases usages.len(),
{
    if usages.len() == 0 {
        Json::empty_object()
    } else {
        let before = bindings(usages.drop_last(), variables);
        match variables.child(Segment::Key(usages.last())) {
            Some(found) => before.with_at(key_path(usages.last()), found),
            None => before,
        }
    }
}

/// The names of the contextual arguments: the new key of each key renamer
/// among the rules, in order.
pub open spec fn argument_names(rules: Seq<Rewrite>) -> Seq<Seq<char>>
    decreases rules.len(),
{
    if rules.len() == 0 {
        Seq::empty()
    } else {
        let before = argument_names(rules.drop_last());
        match rules.last() {
            Rewrite::KeyRenamer { rename_key_to, .. } => before.push(rename_key_to),
            Rewrite::ValueSetter { .. } => before,
        }
    }
}

/// `variables` with the contextual arguments of the record at `index`: each
/// under the name of the argument with the index behind it.
pub open spec fn with_context(variables: Json, arguments: Seq<JsonMember>, index: nat) -> Json
    decreases arguments.len(),
{
    if arguments.len() == 0 {
        variables
    } else {
        with_context(variables, arguments.drop_last(), index).with_at(
            key_path(indexed_name(arguments.last().key, index)),
            arguments.last().value,
        )
    }
}

/// `variables` with the contextual arguments of each record, in the order of
/// the records.
pub open spec fn with_contexts(variables: Json, contexts: Seq<Json>) -> Json
    decreases contexts.len(),
{
    if contexts.len() == 0 {
        variables
    } else {
        with_context(
            with_contexts(variables, contexts.drop_last()),
            contexts.last().members(),
            (contexts.len() - 1) as nat,
        )
    }
}

/// The mathematical model of what an aliased operation is built from.
pub struct ContextualArgumentsModel {
    pub arguments: Seq<Seq<char>>,
    pub count: nat,
}

/// The mathematical model of resolved variables.
pub struct VariablesModel {
    pub variables: Json,
    pub inverted_paths: Seq<Seq<Segment>>,
    pub contextual_arguments: Option<ContextualArgumentsModel>,
}

/// The variables of a fetch.
///
/// Where the fetch required input, the records are extracted from the
/// candidates at `dir`. With no record there is nothing to fetch. Otherwise
/// the variables are the bindings of the used names, the contextual
/// arguments of each record under names that end in the record's index, and,
/// under `representations`, the records; the inverted paths give for each
/// record the path it was found at; and where there are context rewrites,
/// the contextual arguments give the names of the arguments and the number
/// of records: an aliased operation has one alias for each record.
///
/// Where the fetch required no input, there is nothing to fetch if `dir` has
/// a step and leads nowhere or to null. Otherwise the variables are the
/// bindings of the used names.
pub open spec fn resolved(
    required: Seq<Seq<Segment>>,
    usages: Seq<Seq<char>>,
    data: Json,
    dir: Seq<Segment>,
    request_variables: Json,
    input_rewrites: Seq<Rewrite>,
    context_rewrites: Seq<Rewrite>,
) -> Option<VariablesModel> {
    if required.len() > 0 {
        let extracted = extraction(
            candidates(data, dir),
            required,
            input_rewrites,
            context_rewrites,
        );
        if extracted.records.len() == 0 {
            None
        } else {
            Some(
                VariablesModel {
                    variables: with_contexts(
                        bindings(usages, request_variables),
                        extracted.contexts,
                    ).with_at(key_path(representations_key()), Json::Array(extracted.records)),
                    inverted_paths: extracted.paths,
                    contextual_arguments: if context_rewrites.len() > 0 {
                        Some(
                            ContextualArgumentsModel {
                                arguments: argument_names(context_rewrites),
                                count: extracted.records.len(),
                            },
                        )
                    } else {
                        None
                    },
                },
            )
        }
    } else if dir.len() > 0 && (data.at(dir) is None || data.at(dir) == Some(Json::Null)) {
        None
    } else {
        Some(
            VariablesModel {
                variables: bindings(usages, request_variables),
                inverted_paths: Seq::empty(),
                contextual_arguments: None,
            },
        )
    }
}

/// Each record has its path and its contextual arguments at its own index,
/// and there are no more records than candidates.
pub proof fn extraction_is_aligned(
    found: Seq<Candidate>,
    required: Seq<Seq<Segment>>,
    input_rewrites: Seq<Rewrite>,
    context_rewrites: Seq<Rewrite>,
)
    ensures
        ({
            let extracted = extraction(found, required, input_rewrites, context_rewrites);
            &&& extracted.paths.len() == extracted.records.len()
            &&& extracted.contexts.len() == extracted.records.len()
            &&& extracted.records.len() <= found.len()
        }),
    decreases found.len(),
{
    if found.len() > 0 {
        extraction_is_aligned(found.drop_last(), required, input_rewrites, context_rewrites);
    }
}

/// A record is extracted exactly where the projection of some candidate is a
/// record.
pub proof fn extraction_finds_the_entities(
    found: Seq<Candidate>,
    required: Seq<Seq<Segment>>,
    input_rewrites: Seq<Rewrite>,
    context_rewrites: Seq<Rewrite>,
)
    ensures
        extraction(found, required, input_rewrites, context_rewrites).records.len() > 0
            <==> exists|i: int|
            0 <= i < found.len() && is_record(projection((#[trigger] found[i]).value, required)),
    decreases found.len(),
{
    if found.len() > 0 {
        let before = found.drop_last();
        extraction_finds_the_entities(before, required, input_rewrites, context_rewrites);
        extraction_is_aligned(before, required, input_rewrites, context_rewrites);
        let last = found.len() - 1;
        if is_record(projection(found[last].value, required)) {
        } else if extraction(before, required, input_rewrites, context_rewrites).records.len() > 0 {
            let i = choose|i: int|
                0 <= i < before.len() && is_record(
                    projection((#[trigger] before[i]).value, required),
                );
            assert(found[i] == before[i]);
        } else {
            assert forall|i: int| 0 <= i < found.len() implies !is_record(
                projection((#[trigger] found[i]).value, required),
            ) by {
                if i < last {
                    assert(found[i] == before[i]);
                }
            }
        }
    }
}

/// A fetch that requires input has nothing to fetch exactly where no
/// candidate at the current path is an entity: where the projection of none
/// of them is a record.
pub proof fn nothing_resolves_without_an_entity(
    required: Seq<Seq<Segment>>,
    usages: Seq<Seq<char>>,
    data: Json,
    dir: Seq<Segment>,
    request_variables: Json,
    input_rewrites: Seq<Rewrite>,
    context_rewrites: Seq<Rewrite>,
)
    requires
        required.len() > 0,
    ensures
        resolved(
            required,
            usages,
            data,
            dir,
            request_variables,
            input_rewrites,
            context_rewrites,
        ) is None <==> forall|i: int|
            0 <= i < candidates(data, dir).len() ==> !is_record(
                projection((#[trigger] candidates(data, dir)[i]).value, required),
            ),
{
    extraction_finds_the_entities(candidates(data, dir), required, input_rewrites, context_rewrites);
}

/// Resolved variables give each record its inverted path: there are as many
/// inverted paths as records under `representations`, and where there are
/// contextual arguments, their count is that number too.
pub proof fn resolved_records_have_their_paths(
    required: Seq<Seq<Segment>>,
    usages: Seq<Seq<char>>,
    data: Json,
    dir: Seq<Segment>,
    request_variables: Json,
    input_rewrites: Seq<Rewrite>,
    context_rewrites: Seq<Rewrite>,
)
    requires
        required.len() > 0,
        resolved(
            required,
            usages,
            data,
            dir,
            request_variables,
            input_rewrites,
            context_rewrites,
        ) is Some,
    ensures
        ({
            let variables = resolved(
                required,
                usages,
                data,
                dir,
                request_variables,
                input_rewrites,
                context_rewrites,
            )->0;
            let records = variables.variables.at(key_path(representations_key()));
            &&& records is Some
            &&& records->0 is Array
            &&& records->0.items().len() == variables.inverted_paths.len()
            &&& variables.inverted_paths.len() > 0
            &&& variables.contextual_arguments matches Some(arguments) ==> arguments.count
                == variables.inverted_paths.len()
        }),
{
    let extracted = extraction(candidates(data, dir), required, input_rewrites, context_rewrites);
    extraction_is_aligned(candidates(data, dir), required, input_rewrites, context_rewrites);
    with_contexts(bindings(usages, request_variables), extracted.contexts).with_at_then_at(
        key_path(representations_key()),
        Json::Array(extracted.records),
    );
}

/// The paths of the candidates.
pub open spec fn candidate_paths(found: Seq<Candidate>) -> Seq<Seq<Segment>> {
    Seq::new(found.len(), |i: int| found[i].path)
}

/// Each two candidates at a path lie at paths that part.
pub proof fn candidates_lie_apart(data: Json, dir: Seq<Segment>)
    ensures
        all_part(candidate_paths(candidates(data, dir))),
{
    let found = candidates(data, dir);
    assert forall|i: int, j: int|
        0 <= i < found.len() && 0 <= j < found.len() && i != j implies part(
        #[trigger] candidate_paths(found)[i],
        #[trigger] candidate_paths(found)[j],
    ) by {
        steps_from_one_path_part(dir, Segment::Index(i as nat), Segment::Index(j as nat));
    }
}

/// Each extracted path is the path of a candidate.
pub proof fn extracted_paths_are_of_candidates(
    found: Seq<Candidate>,
    required: Seq<Seq<Segment>>,
    input_rewrites: Seq<Rewrite>,
    context_rewrites: Seq<Rewrite>,
    index: int,
) -> (origin: int)
    requires
        0 <= index < extraction(found, required, input_rewrites, context_rewrites).paths.len(),
    ensures
        0 <= origin < found.len(),
        extraction(found, required, input_rewrites, context_rewrites).paths[index]
            == found[origin].path,
    decreases found.len(),
{
    let before = found.drop_last();
    let earlier = extraction(before, required, input_rewrites, context_rewrites);
    if index < earlier.paths.len() {
        let origin = extracted_paths_are_of_candidates(
            before,
            required,
            input_rewrites,
            context_rewrites,
            index,
        );
        assert(found[origin] == before[origin]);
        origin
    } else {
        found.len() - 1
    }
}

/// Where each two candidates lie at paths that part, each two of the
/// extracted paths part: they are the paths of different candidates.
pub proof fn extracted_paths_part(
    found: Seq<Candidate>,
    required: Seq<Seq<Segment>>,
    input_rewrites: Seq<Rewrite>,
    context_rewrites: Seq<Rewrite>,
)
    requires
        all_part(candidate_paths(found)),
    ensures
        all_part(extraction(found, required, input_rewrites, context_rewrites).paths),
    decreases found.len(),
{
    let extracted = extraction(found, required, input_rewrites, context_rewrites);
    if found.len() > 0 {
        let before = found.drop_last();
        let earlier = extraction(before, required, input_rewrites, context_rewrites);
        assert forall|i: int, j: int|
            0 <= i < before.len() && 0 <= j < before.len() && i != j implies part(
            #[trigger] candidate_paths(before)[i],
            #[trigger] candidate_paths(before)[j],
        ) by {
            assert(candidate_paths(before)[i] == candidate_paths(found)[i]);
            assert(candidate_paths(before)[j] == candidate_paths(found)[j]);
        }
        extracted_paths_part(before, required, input_rewrites, context_rewrites);
        assert forall|i: int, j: int|
            0 <= i < extracted.paths.len() && 0 <= j < extracted.paths.len() && i != j implies part(
            #[trigger] extracted.paths[i],
            #[trigger] extracted.paths[j],
        ) by {
            if i < earlier.paths.len() && j < earlier.paths.len() {
                assert(extracted.paths[i] == earlier.paths[i]);
                assert(extracted.paths[j] == earlier.paths[j]);
            } else {
                let last = found.len() - 1;
                let old = if i < earlier.paths.len() {
                    i
                } else {
                    j
                };
                let origin = extracted_paths_are_of_candidates(
                    before,
                    required,
                    input_rewrites,
                    context_rewrites,
                    old,
                );
                assert(extracted.paths[old] == candidate_paths(found)[origin]);
                assert(found[last].path == candidate_paths(found)[last]);
            }
        }
    }
}

/// The variables of a fetch, resolved from the data gathered so far.
#[derive(Debug)]
pub struct Variables {
    /// The bindings sent with the operation, an object.
    pub variables: Value,
    /// For each record sent, the path in the gathered data that it came from.
    pub inverted_paths: Vec<Path>,
    /// What an aliased operation is built from, where the records have
    /// contextual arguments: values taken from the data around each record,
    /// which one variable for all records cannot carry.
    pub contextual_arguments: Option<ContextualArguments>,
}

/// What an aliased operation is built from: the names of the contextual
/// arguments, and the number of records, each of which gets an alias.
#[derive(Debug)]
pub struct ContextualArguments {
    pub arguments: Vec<String>,
    pub count: usize,
}

impl View for ContextualArguments {
    type V = ContextualArgumentsModel;

    open spec fn view(&self) -> ContextualArgumentsModel {
        ContextualArgumentsModel {
            arguments: names_view(self.arguments@),
            count: self.count as nat,
        }
    }
}

impl View for Variables {
    type V = VariablesModel;

    open spec fn view(&self) -> VariablesModel {
        VariablesModel {
            variables: self.variables@,
            inverted_paths: paths_view(self.inverted_paths@),
            contextual_arguments: match self.contextual_arguments {
                Some(arguments) => Some(arguments@),
                None => None,
            },
        }
    }
}

/// Whether `names` holds `name`.
pub fn holds_name(names: &Vec<String>, name: &String) -> (res: bool)
    ensures
        res == names_view(names@).contains(name@),
{
    let mut i: usize = 0;
    while i < names.len()
        invariant
            i <= names@.len(),
            forall|j: int| 0 <= j < i ==> names@[j]@ != name@,
        decreases names.len() - i,
    {
        if names[i] == *name {
            assert(names_view(names@)[i as int] == name@);
            return true;
        }
        i = i + 1;
    }
    false
}

/// The path of one step, into the member under `key`.
pub fn path_to_key(key: &String) -> (res: Path)
    ensures
        res@ == key_path(key@),
{
    let mut elements: Vec<PathElement> = Vec::new();
    elements.push(PathElement::Key(key.clone()));
    let res = Path { elements };
    assert(res@ =~= key_path(key@));
    res
}

/// Computes `projection`.
pub fn project(value: &Value, required: &Vec<Path>) -> (res: Value)
    ensures
        res@ == projection(value@, paths_view(required@)),
{
    let ghost all = paths_view(required@);
    let mut res = Value::empty_object();
    let mut i: usize = 0;
    assert(all.take(0) =~= Seq::<Seq<Segment>>::empty());
    while i < required.len()
        invariant
            i <= required@.len(),
            all == paths_view(required@),
            res@ == projection(value@, all.take(i as int)),
        decreases required.len() - i,
    {
        proof {
            let upto = all.take(i as int + 1);
            assert(upto.drop_last() =~= all.take(i as int));
            assert(upto.last() == required@[i as int]@);
        }
        match value.get_path(&required[i]) {
            Some(found) => {
                res = res.insert(&required[i], found.clone());
            },
            None => {},
        }
        i = i + 1;
    }
    assert(all.take(i as int) =~= all);
    res
}

/// Computes `context_of`.
pub fn contextual_arguments_of(value: &Value, rules: &Vec<DataRewrite>) -> (res: Value)
    ensures
        res@ == context_of(value@, rules_view(rules@)),
{
    let ghost all = rules_view(rules@);
    let mut res = Value::empty_object();
    let mut i: usize = 0;
    assert(all.take(0) =~= Seq::<Rewrite>::empty());
    while i < rules.len()
        invariant
            i <= rules@.len(),
            all == rules_view(rules@),
            res@ == context_of(value@, all.take(i as int)),
        decreases rules.len() - i,
    {
        proof {
            let upto = all.take(i as int + 1);
            assert(upto.drop_last() =~= all.take(i as int));
            assert(upto.last() == rules@[i as int]@);
        }
        match &rules[i] {
            DataRewrite::KeyRenamer { path, rename_key_to } => {
                match value.get_path(path) {
                    Some(found) => {
                        res = res.insert(&path_to_key(rename_key_to), found.clone());
                    },
                    None => {},
                }
            },
            DataRewrite::ValueSetter { .. } => {},
        }
        i = i + 1;
    }
    assert(all.take(i as int) =~= all);
    res
}

/// Computes `bindings`.
pub fn bind(usages: &Vec<String>, variables: &Value) -> (res: Value)
    ensures
        res@ == bindings(names_view(usages@), variables@),
{
    let ghost all = names_view(usages@);
    let mut res = Value::empty_object();
    let mut i: usize = 0;
    assert(all.take(0) =~= Seq::<Seq<char>>::empty());
    while i < usages.len()
        invariant
            i <= usages@.len(),
            all == names_view(usages@),
            res@ == bindings(all.take(i as int), variables@),
        decreases usages.len() - i,
    {
        proof {
            let upto = all.take(i as int + 1);
            assert(upto.drop_last() =~= all.take(i as int));
            assert(upto.last() == usages@[i as int]@);
        }
        let step = PathElement::Key(usages[i].clone());
        match variables.get(&step) {
            Some(found) => {
                res = res.insert(&path_to_key(&usages[i]), found.clone());
            },
            None => {},
        }
        i = i + 1;
    }
    assert(all.take(i as int) =~= all);
    res
}

/// Computes `argument_names`.
pub fn names_of_arguments(rules: &Vec<DataRewrite>) -> (res: Vec<String>)
    ensures
        names_view(res@) == argument_names(rules_view(rules@)),
{
    let ghost all = rules_view(rules@);
    let mut res: Vec<String> = Vec::new();
    let mut i: usize = 0;
    assert(all.take(0) =~= Seq::<Rewrite>::empty());
    assert(names_view(res@) =~= Seq::<Seq<char>>::empty());
    while i < rules.len()
        invariant
            i <= rules@.len(),
            all == rules_view(rules@),
            names_view(res@) == argument_names(all.take(i as int)),
        decreases rules.len() - i,
    {
        proof {
            let upto = all.take(i as int + 1);
            assert(upto.drop_last() =~= all.take(i as int));
            assert(upto.last() == rules@[i as int]@);
        }
        let ghost before = names_view(res@);
        match &rules[i] {
            DataRewrite::KeyRenamer { rename_key_to, .. } => {
                res.push(rename_key_to.clone());
                assert(names_view(res@) =~= before.push(rename_key_to@));
            },
            DataRewrite::ValueSetter { .. } => {},
        }
        i = i + 1;
    }
    assert(all.take(i as int) =~= all);
    res
}

/// Computes `with_context`.
fn add_context(variables: Value, arguments: &Vec<Member>, index: usize) -> (res: Value)
    ensures
        res@ == with_context(variables@, members_view(arguments@), index as nat),
{
    let ghost all = members_view(arguments@);
    let ghost start = variables@;
    let mut res = variables;
    let mut i: usize = 0;
    assert(all.take(0) =~= Seq::<JsonMember>::empty());
    while i < arguments.len()
        invariant
            i <= arguments@.len(),
            all == members_view(arguments@),
            res@ == with_context(start, all.take(i as int), index as nat),
        decreases arguments.len() - i,
    {
        proof {
            let upto = all.take(i as int + 1);
            assert(upto.drop_last() =~= all.take(i as int));
            assert(upto.last() == all[i as int]);
        }
        let name = with_index(&arguments[i].key, index);
        res = res.insert(&path_to_key(&name), arguments[i].value.clone());
        i = i + 1;
    }
    assert(all.take(i as int) =~= all);
    res
}

/// Computes `with_contexts`.
fn add_contexts(variables: Value, contexts: &Vec<Value>) -> (res: Value)
    ensures
        res@ == with_contexts(variables@, items_view(contexts@)),
{
    let ghost all = items_view(contexts@);
    let ghost start = variables@;
    let mut res = variables;
    let mut i: usize = 0;
    assert(all.take(0) =~= Seq::<Json>::empty());
    while i < contexts.len()
        invariant
            i <= contexts@.len(),
            all == items_view(contexts@),
            res@ == with_contexts(start, all.take(i as int)),
        decreases contexts.len() - i,
    {
        proof {
            let upto = all.take(i as int + 1);
            assert(upto.drop_last() =~= all.take(i as int));
            assert(upto.last() == contexts@[i as int]@);
            assert(upto.len() - 1 == i);
        }
        match &contexts[i] {
            Value::Object(arguments) => {
                proof {
                    object_view(*arguments);
                }
                res = add_context(res, arguments, i);
            },
            other => {
                assert(other@.members() =~= Seq::<JsonMember>::empty());
            },
        }
        i = i + 1;
    }
    assert(all.take(i as int) =~= all);
    res
}

/// What is extracted while the candidates are looked at.
struct Extracted {
    records: Vec<Value>,
    paths: Vec<Path>,
    contexts: Vec<Value>,
}

impl View for Extracted {
    type V = Extraction;

    closed spec fn view(&self) -> Extraction {
        Extraction {
            records: items_view(self.records@),
            paths: paths_view(self.paths@),
            contexts: items_view(self.contexts@),
        }
    }
}

impl Extracted {
    fn none() -> (res: Extracted)
        ensures
            res@ == Extraction::none(),
    {
        let res = Extracted { records: Vec::new(), paths: Vec::new(), contexts: Vec::new() };
        assert(res@.records =~= Seq::<Json>::empty());
        assert(res@.paths =~= Seq::<Seq<Segment>>::empty());
        assert(res@.contexts =~= Seq::<Json>::empty());
        res
    }

    fn look_at(
        self,
        value: &Value,
        path: Path,
        required: &Vec<Path>,
        input_rewrites: &Vec<DataRewrite>,
        context_rewrites: &Vec<DataRewrite>,
    ) -> (res: Extracted)
        ensures
            res@ == self@.with(
                Candidate { path: path@, value: value@ },
                paths_view(required@),
                rules_view(input_rewrites@),
                rules_view(context_rewrites@),
            ),
    {
        let projected = project(value, required);
        let is_record = match &projected {
            Value::Object(members) => {
                proof {
                    crate::json::object_view(*members);
                }
                members.len() > 0
            },
            _ => false,
        };
        if !is_record {
            return self;
        }
        let record = projected.apply_rewrites(input_rewrites);
        let context = contextual_arguments_of(value, context_rewrites);
        let mut res = self;
        let ghost before = res@;
        res.records.push(record);
        res.paths.push(path);
        res.contexts.push(context);
        proof {
            assert(res@.records =~= before.records.push(record@));
            assert(res@.paths =~= before.paths.push(path@));
            assert(res@.contexts =~= before.contexts.push(context@));
        }
        res
    }
}

/// Extracts the records from the candidates at `current_dir` in `data`.
fn extract(
    required: &Vec<Path>,
    data: &Value,
    current_dir: &Path,
    input_rewrites: &Vec<DataRewrite>,
    context_rewrites: &Vec<DataRewrite>,
) -> (res: Extracted)
    ensures
        res@ == extraction(
            candidates(data@, current_dir@),
            paths_view(required@),
            rules_view(input_rewrites@),
            rules_view(context_rewrites@),
        ),
{
    let ghost found = candidates(data@, current_dir@);
    match data.get_path(current_dir) {
        None => Extracted::none(),
        Some(Value::Array(items)) => {
            proof {
                array_view(*items);
            }
            let mut res = Extracted::none();
            let mut i: usize = 0;
            assert(found.take(0) =~= Seq::<Candidate>::empty());
            while i < items.len()
                invariant
                    i <= items@.len(),
                    found.len() == items@.len(),
                    forall|j: int|
                        0 <= j < items@.len() ==> #[trigger] found[j] == (Candidate {
                            path: current_dir@.push(Segment::Index(j as nat)),
                            value: items@[j]@,
                        }),
                    res@ == extraction(
                        found.take(i as int),
                        paths_view(required@),
                        rules_view(input_rewrites@),
                        rules_view(context_rewrites@),
                    ),
                decreases items.len() - i,
            {
                proof {
                    let upto = found.take(i as int + 1);
                    assert(upto.drop_last() =~= found.take(i as int));
                    assert(upto.last() == found[i as int]);
                }
                let path = current_dir.join(PathElement::Index(i));
                res = res.look_at(&items[i], path, required, input_rewrites, context_rewrites);
                i = i + 1;
            }
            assert(found.take(i as int) =~= found);
            res
        },
        Some(value) => {
            proof {
                assert(!(value@ is Array));
                assert(found =~= seq![Candidate { path: current_dir@, value: value@ }]);
                assert(found.drop_last() =~= Seq::<Candidate>::empty());
                assert(found.last() == Candidate { path: current_dir@, value: value@ });
                assert(extraction(
                    found.drop_last(),
                    paths_view(required@),
                    rules_view(input_rewrites@),
                    rules_view(context_rewrites@),
                ) == Extraction::none());
            }
            Extracted::none().look_at(
                value,
                current_dir.clone(),
                required,
                input_rewrites,
                context_rewrites,
            )
        },
    }
}

impl Variables {
    /// Resolves the variables of a fetch: from the required input paths, the
    /// names that the operation uses, the data gathered so far, the current
    /// path in that data, the request of the client, and the input and context
    /// rewrites. `None` says that there is nothing to fetch.
    pub fn new(
        required: &Vec<Path>,
        variable_usages: &Vec<String>,
        data: &Value,
        current_dir: &Path,
        request: &Request,
        input_rewrites: &Vec<DataRewrite>,
        context_rewrites: &Vec<DataRewrite>,
    ) -> (res: Option<Variables>)
        ensures
            match res {
                Some(variables) => Some(variables@),
                None => None,
            } == resolved(
                paths_view(required@),
                names_view(variable_usages@),
                data@,
                current_dir@,
                request.variables@,
                rules_view(input_rewrites@),
                rules_view(context_rewrites@),
            ),
    {
        if required.len() > 0 {
            let extracted = extract(required, data, current_dir, input_rewrites, context_rewrites);
            if extracted.records.len() == 0 {
                return None;
            }
            let Extracted { records, paths, contexts } = extracted;
            proof {
                array_view(records);
            }
            let key = String::from_str("representations");
            let count = records.len();
            let variables = add_contexts(bind(variable_usages, &request.variables), &contexts).insert(
                &path_to_key(&key),
                Value::Array(records),
            );
            let contextual_arguments = if context_rewrites.len() > 0 {
                Some(ContextualArguments { arguments: names_of_arguments(context_rewrites), count })
            } else {
                None
            };
            Some(Variables { variables, inverted_paths: paths, contextual_arguments })
        } else {
            if current_dir.len() > 0 {
                match data.get_path(current_dir) {
                    None => {
                        return None;
                    },
                    Some(found) => {
                        if found.is_null() {
                            return None;
                        }
                    },
                }
            }
            let res = Variables {
                variables: bind(variable_usages, &request.variables),
                inverted_paths: Vec::new(),
                contextual_arguments: None,
            };
            assert(res@.inverted_paths =~= Seq::<Seq<Segment>>::empty());
            Some(res)
        }
    }
}

} // verus!
