//! The operations an account's owner can call, and the arguments each takes.

use vstd::prelude::*;

verus! {

/// The name of the argument that holds one account.
pub const ARG_ACCOUNT: &'static str = "account";

/// The name of the argument that holds one weight or threshold.
pub const ARG_WEIGHT: &'static str = "weight";

/// The name of the argument that holds a list of accounts.
pub const ARG_ACCOUNTS: &'static str = "accounts";

/// The name of the argument that holds a list of weights.
pub const ARG_WEIGHTS: &'static str = "weights";

/// The name of the argument that holds the deployment threshold.
pub const ARG_DEPLOYMENT_THRESHOLD: &'static str = "deployment_threshold";

/// The name of the argument that holds the key-management threshold.
pub const ARG_KEY_MANAGEMENT_THRESHOLD: &'static str = "key_management_threshold";

/// The name of the operation that sets the weight of one key.
pub const SET_KEY_WEIGHT: &'static str = "set_key_weight";

/// The name of the operation that sets the deployment threshold.
pub const SET_DEPLOYMENT_THRESHOLD: &'static str = "set_deployment_threshold";

/// The name of the operation that sets the key-management threshold.
pub const SET_KEY_MANAGEMENT_THRESHOLD: &'static str = "set_key_management_threshold";

/// The name of the operation that replaces the whole policy.
pub const SET_ALL: &'static str = "set_all";

/// What an argument holds.
#[derive(Clone, Copy, Debug, PartialEq, Eq, Structural)]
pub enum ArgumentType {
    /// The identifier of one account.
    Account,
    /// One weight or threshold: an integer from 0 to 255.
    Weight,
    /// A list of account identifiers.
    AccountList,
    /// A list of weights.
    WeightList,
}

/// One argument of an operation.
#[derive(Clone, Copy, Debug, PartialEq, Eq)]
pub struct Parameter {
    pub name: &'static str,
    pub argument_type: ArgumentType,
}

/// One operation: its name and its arguments in order. None returns a
/// value.
#[derive(Debug, PartialEq, Eq)]
pub struct EntryPoint {
    pub name: &'static str,
    pub parameters: Vec<Parameter>,
}

impl View for Parameter {
    type V = (Seq<char>, ArgumentType);

    open spec fn view(&self) -> (Seq<char>, ArgumentType) {
        (self.name@, self.argument_type)
    }
}

impl View for EntryPoint {
    type V = (Seq<char>, Seq<(Seq<char>, ArgumentType)>);

    open spec fn view(&self) -> (Seq<char>, Seq<(Seq<char>, ArgumentType)>) {
        (self.name@, self.parameters@.map_values(|p: Parameter| p@))
    }
}

/// The four operations with their arguments.
pub open spec fn entry_point_table() -> Seq<(Seq<char>, Seq<(Seq<char>, ArgumentType)>)> {
    seq![
        (
            SET_KEY_WEIGHT@,
            seq![(ARG_ACCOUNT@, ArgumentType::Account), (ARG_WEIGHT@, ArgumentType::Weight)],
        ),
        (SET_DEPLOYMENT_THRESHOLD@, seq![(ARG_WEIGHT@, ArgumentType::Weight)]),
        (SET_KEY_MANAGEMENT_THRESHOLD@, seq![(ARG_WEIGHT@, ArgumentType::Weight)]),
        (
            SET_ALL@,
            seq![
                (ARG_DEPLOYMENT_THRESHOLD@, ArgumentType::Weight),
                (ARG_KEY_MANAGEMENT_THRESHOLD@, ArgumentType::Weight),
                (ARG_ACCOUNTS@, ArgumentType::AccountList),
                (ARG_WEIGHTS@, ArgumentType::WeightList),
            ],
        ),
    ]
}

/// The operations to register for an account, in the order of their
/// registration.
pub fn entry_points() -> (table: Vec<EntryPoint>)
    ensures
        table@.map_values(|e: EntryPoint| e@) == entry_point_table(),
{
    let weight = Parameter { name: ARG_WEIGHT, argument_type: ArgumentType::Weight };
    let mut set_key_weight: Vec<Parameter> = Vec::new();
    set_key_weight.push(Parameter { name: ARG_ACCOUNT, argument_type: ArgumentType::Account });
    set_key_weight.push(weight);
    let mut set_deployment_threshold: Vec<Parameter> = Vec::new();
    set_deployment_threshold.push(weight);
    let mut set_key_management_threshold: Vec<Parameter> = Vec::new();
    set_key_management_threshold.push(weight);
    let mut set_all: Vec<Parameter> = Vec::new();
    set_all.push(
        Parameter { name: ARG_DEPLOYMENT_THRESHOLD, argument_type: ArgumentType::Weight },
    );
    set_all.push(
        Parameter { name: ARG_KEY_MANAGEMENT_THRESHOLD, argument_type: ArgumentType::Weight },
    );
    set_all.push(Parameter { name: ARG_ACCOUNTS, argument_type: ArgumentType::AccountList });
    set_all.push(Parameter { name: ARG_WEIGHTS, argument_type: ArgumentType::WeightList });
    let mut table: Vec<EntryPoint> = Vec::new();
    table.push(EntryPoint { name: SET_KEY_WEIGHT, parameters: set_key_weight });
    table.push(EntryPoint { name: SET_DEPLOYMENT_THRESHOLD, parameters: set_deployment_threshold });
    table.push(
        EntryPoint { name: SET_KEY_MANAGEMENT_THRESHOLD, parameters: set_key_management_threshold },
    );
    table.push(EntryPoint { name: SET_ALL, parameters: set_all });
    proof {
        let views = table@.map_values(|e: EntryPoint| e@);
        let expected = entry_point_table();
        assert(views.len() == 4);
        assert(views[0].1 =~= expected[0].1);
        assert(views[1].1 =~= expected[1].1);
        assert(views[2].1 =~= expected[2].1);
        assert(views[3].1 =~= expected[3].1);
        assert(views =~= expected);
    }
    table
}

} // verus!
