//! The plan of an aliased operation: how an operation that is sent once for
//! several records is rewritten so that each record has its own contextual
//! arguments.
//!
//! The operation itself stays with whoever parsed it. The plan is made from
//! its shape, and says what the aliased operation consists of in terms of the
//! parts of the operation it was made for.

use crate::decimal::decimal;
use crate::decimal::decimal_text;
use crate::decimal::indexed_name;
use crate::decimal::with_index;
use crate::variables::holds_name;
use crate::variables::names_view;
use crate::variables::ContextualArguments;
use vstd::prelude::*;
use vstd::string::StringExecFns;

verus! {

/// The kind of a selection at the root of an operation.
#[derive(Clone, Copy, Debug, PartialEq, Eq, Structural)]
pub enum RootSelection {
    Field,
    Other,
}

/// What the plan needs to know of an operation: the names of its variables,
/// in the order of their definitions, and the kinds of the selections at its
/// root.
#[derive(Debug)]
pub struct OperationShape {
    pub variables: Vec<String>,
    pub root: Vec<RootSelection>,
}

/// Why an operation cannot be aliased.
#[derive(Clone, Copy, Debug, PartialEq, Eq, Structural)]
pub enum AliasError {
    /// The operation selects nothing at its root.
    NoSelectionSet,
    /// The operation selects something else than one field at its root.
    UnexpectedSelection,
}

/// A variable definition of the aliased operation: the definition at the
/// index `definition` in the operation, under `name`.
#[derive(Debug)]
pub struct VariablePlan {
    pub definition: usize,
    pub name: String,
}

/// The mathematical model of a planned variable definition.
pub struct VariablePlanModel {
    pub definition: nat,
    pub name: Seq<char>,
}

impl View for VariablePlan {
    type V = VariablePlanModel;

    open spec fn view(&self) -> VariablePlanModel {
        VariablePlanModel { definition: self.definition as nat, name: self.name@ }
    }
}

/// The replacement of one variable by another wherever it is used as the
/// value of an argument.
#[derive(Debug)]
pub struct Rename {
    pub from: String,
    pub to: String,
}

/// The mathematical model of a replacement.
pub struct RenameModel {
    pub from: Seq<char>,
    pub to: Seq<char>,
}

impl View for Rename {
    type V = RenameModel;

    open spec fn view(&self) -> RenameModel {
        RenameModel { from: self.from@, to: self.to@ }
    }
}

/// A selection at the root of the aliased operation: the root field of the
/// operation under `alias`, with the variables replaced as `renames` say.
#[derive(Debug)]
pub struct RootPlan {
    pub alias: String,
    pub renames: Vec<Rename>,
}

/// The mathematical model of a planned root selection.
pub struct RootPlanModel {
    pub alias: Seq<char>,
    pub renames: Seq<RenameModel>,
}

impl View for RootPlan {
    type V = RootPlanModel;

    open spec fn view(&self) -> RootPlanModel {
        RootPlanModel {
            alias: self.alias@,
            renames: Seq::new(self.renames@.len(), |i: int| self.renames@[i]@),
        }
    }
}

/// The plan of an aliased operation.
#[derive(Debug)]
pub struct AliasPlan {
    pub variables: Vec<VariablePlan>,
    pub roots: Vec<RootPlan>,
}

/// The mathematical model of a plan.
pub struct AliasPlanModel {
    pub variables: Seq<VariablePlanModel>,
    pub roots: Seq<RootPlanModel>,
}

impl View for AliasPlan {
    type V = AliasPlanModel;

    open spec fn view(&self) -> AliasPlanModel {
        AliasPlanModel {
            variables: Seq::new(self.variables@.len(), |i: int| self.variables@[i]@),
            roots: Seq::new(self.roots@.len(), |i: int| self.roots@[i]@),
        }
    }
}

/// The alias of the root selection for the record at `index`.
pub open spec fn alias_of(index: nat) -> Seq<char> {
    "_"@ + decimal_text(index)
}

/// One definition for each record of the variable `name` defined at the
/// index `definition`: under the name with the record's index behind it.
pub open spec fn per_record(definition: nat, name: Seq<char>, count: nat) -> Seq<VariablePlanModel> {
    Seq::new(count, |i: int| VariablePlanModel { definition, name: indexed_name(name, i as nat) })
}

/// The variable definitions of the aliased operation: in the order of the
/// definitions of the operation, a contextual argument is defined once for
/// each record, and every other variable is defined as it was.
pub open spec fn planned_variables(
    variables: Seq<Seq<char>>,
    arguments: Seq<Seq<char>>,
    count: nat,
) -> Seq<VariablePlanModel>
    decreases variables.len(),
{
    if variables.len() == 0 {
        Seq::empty()
    } else {
        let before = planned_variables(variables.drop_last(), arguments, count);
        let definition = (variables.len() - 1) as nat;
        if arguments.contains(variables.last()) {
            before + per_record(definition, variables.last(), count)
        } else {
            before.push(VariablePlanModel { definition, name: variables.last() })
        }
    }
}

/// The replacements for the record at `index`: each contextual argument by
/// the variable of that record.
pub open spec fn planned_renames(arguments: Seq<Seq<char>>, index: nat) -> Seq<RenameModel> {
    Seq::new(
        arguments.len(),
        |k: int| RenameModel { from: arguments[k], to: indexed_name(arguments[k], index) },
    )
}

/// The root selections of the aliased operation: one for each record.
pub open spec fn planned_roots(arguments: Seq<Seq<char>>, count: nat) -> Seq<RootPlanModel> {
    Seq::new(
        count,
        |i: int| RootPlanModel { alias: alias_of(i as nat), renames: planned_renames(arguments, i as nat) },
    )
}

/// Why an operation with the given root cannot be aliased, if it cannot: it
/// must select exactly one field at its root, and nothing else.
pub open spec fn root_defect(root: Seq<RootSelection>) -> Option<AliasError> {
    if root.len() == 0 {
        Some(AliasError::NoSelectionSet)
    } else if root.len() == 1 && root[0] == RootSelection::Field {
        None
    } else {
        Some(AliasError::UnexpectedSelection)
    }
}

/// The plan of the aliased operation, or why there is none.
pub open spec fn planned(
    variables: Seq<Seq<char>>,
    root: Seq<RootSelection>,
    arguments: Seq<Seq<char>>,
    count: nat,
) -> Result<AliasPlanModel, AliasError> {
    match root_defect(root) {
        Some(defect) => Err(defect),
        None => Ok(
            AliasPlanModel {
                variables: planned_variables(variables, arguments, count),
                roots: planned_roots(arguments, count),
            },
        ),
    }
}

/// An aliased operation has one root selection for each record.
pub proof fn one_alias_for_each_record(
    variables: Seq<Seq<char>>,
    root: Seq<RootSelection>,
    arguments: Seq<Seq<char>>,
    count: nat,
)
    ensures
        planned(variables, root, arguments, count) matches Ok(plan) ==> {
            &&& plan.roots.len() == count
            &&& forall|i: int| 0 <= i < count ==> (#[trigger] plan.roots[i]).alias == alias_of(i as nat)
        },
{
}

/// Computes `planned_variables`.
fn plan_variables(variables: &Vec<String>, arguments: &Vec<String>, count: usize) -> (res: Vec<
    VariablePlan,
>)
    ensures
        Seq::new(res@.len(), |i: int| res@[i]@) == planned_variables(
            names_view(variables@),
            names_view(arguments@),
            count as nat,
        ),
{
    let ghost all = names_view(variables@);
    let ghost known = names_view(arguments@);
    let mut res: Vec<VariablePlan> = Vec::new();
    let mut i: usize = 0;
    assert(all.take(0) =~= Seq::<Seq<char>>::empty());
    assert(Seq::new(res@.len(), |i: int| res@[i]@) =~= Seq::<VariablePlanModel>::empty());
    while i < variables.len()
        invariant
            i <= variables@.len(),
            all == names_view(variables@),
            known == names_view(arguments@),
            Seq::new(res@.len(), |i: int| res@[i]@) == planned_variables(
                all.take(i as int),
                known,
                count as nat,
            ),
        decreases variables.len() - i,
    {
        proof {
            let upto = all.take(i as int + 1);
            assert(upto.drop_last() =~= all.take(i as int));
            assert(upto.last() == variables@[i as int]@);
        }
        let ghost before = Seq::new(res@.len(), |i: int| res@[i]@);
        if holds_name(arguments, &variables[i]) {
            let ghost start = res@.len();
            let mut record: usize = 0;
            while record < count
                invariant
                    record <= count,
                    i < variables@.len(),
                    res@.len() == start + record,
                    Seq::new(res@.len(), |i: int| res@[i]@) == before + per_record(
                        i as nat,
                        variables@[i as int]@,
                        record as nat,
                    ),
                decreases count - record,
            {
                let ghost earlier = Seq::new(res@.len(), |i: int| res@[i]@);
                res.push(VariablePlan { definition: i, name: with_index(&variables[i], record) });
                assert(Seq::new(res@.len(), |i: int| res@[i]@) =~= before + per_record(
                    i as nat,
                    variables@[i as int]@,
                    (record + 1) as nat,
                )) by {
                    let now = Seq::new(res@.len(), |i: int| res@[i]@);
                    assert forall|j: int| 0 <= j < now.len() implies now[j] == (before + per_record(
                        i as nat,
                        variables@[i as int]@,
                        (record + 1) as nat,
                    ))[j] by {
                        if j < earlier.len() {
                            assert(now[j] == earlier[j]);
                        }
                    }
                }
                record = record + 1;
            }
        } else {
            res.push(VariablePlan { definition: i, name: variables[i].clone() });
            assert(Seq::new(res@.len(), |i: int| res@[i]@) =~= before.push(
                VariablePlanModel { definition: i as nat, name: variables@[i as int]@ },
            ));
        }
        i = i + 1;
    }
    assert(all.take(i as int) =~= all);
    res
}

/// Computes `planned_renames`.
fn plan_renames(arguments: &Vec<String>, index: usize) -> (res: Vec<Rename>)
    ensures
        Seq::new(res@.len(), |i: int| res@[i]@) == planned_renames(
            names_view(arguments@),
            index as nat,
        ),
{
    let mut res: Vec<Rename> = Vec::new();
    let mut k: usize = 0;
    while k < arguments.len()
        invariant
            k <= arguments@.len(),
            res@.len() == k,
            forall|j: int|
                0 <= j < k ==> (#[trigger] res@[j])@ == (RenameModel {
                    from: arguments@[j]@,
                    to: indexed_name(arguments@[j]@, index as nat),
                }),
        decreases arguments.len() - k,
    {
        res.push(Rename { from: arguments[k].clone(), to: with_index(&arguments[k], index) });
        k = k + 1;
    }
    assert(Seq::new(res@.len(), |i: int| res@[i]@) =~= planned_renames(
        names_view(arguments@),
        index as nat,
    ));
    res
}

/// Computes `planned_roots`.
fn plan_roots(arguments: &Vec<String>, count: usize) -> (res: Vec<RootPlan>)
    ensures
        Seq::new(res@.len(), |i: int| res@[i]@) == planned_roots(
            names_view(arguments@),
            count as nat,
        ),
{
    let mut res: Vec<RootPlan> = Vec::new();
    let mut i: usize = 0;
    while i < count
        invariant
            i <= count,
            res@.len() == i,
            forall|j: int|
                0 <= j < i ==> (#[trigger] res@[j])@ == (RootPlanModel {
                    alias: alias_of(j as nat),
                    renames: planned_renames(names_view(arguments@), j as nat),
                }),
        decreases count - i,
    {
        let mut alias = String::from_str("_");
        let number = decimal(i);
        alias.append(number.as_str());
        res.push(RootPlan { alias, renames: plan_renames(arguments, i) });
        i = i + 1;
    }
    assert(Seq::new(res@.len(), |i: int| res@[i]@) =~= planned_roots(
        names_view(arguments@),
        count as nat,
    ));
    res
}

/// Plans the aliased form of an operation of the given shape: what its
/// variable definitions and its root selections are. An operation that does
/// not select exactly one field at its root has no aliased form.
pub fn plan_aliasing(shape: &OperationShape, contextual: &ContextualArguments) -> (res: Result<
    AliasPlan,
    AliasError,
>)
    ensures
        match res {
            Ok(plan) => Ok(plan@),
            Err(defect) => Err(defect),
        } == planned(
            names_view(shape.variables@),
            shape.root@,
            names_view(contextual.arguments@),
            contextual.count as nat,
        ),
{
    if shape.root.len() == 0 {
        return Err(AliasError::NoSelectionSet);
    }
    if shape.root.len() != 1 || shape.root[0] != RootSelection::Field {
        return Err(AliasError::UnexpectedSelection);
    }
    let variables = plan_variables(&shape.variables, &contextual.arguments, contextual.count);
    let roots = plan_roots(&contextual.arguments, contextual.count);
    Ok(AliasPlan { variables, roots })
}

} // verus!
