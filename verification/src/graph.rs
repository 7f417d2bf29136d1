//! What the exported graph must offer.
use vstd::prelude::*;
use vstd::string::StringExecFns;

use crate::text::{quote, quoted};

verus! {

/// The token IDs go in under this name.
pub const INPUT_IDS: &'static str = "input_ids";

/// The attention mask goes in under this name.
pub const ATTENTION_MASK: &'static str = "attention_mask";

/// That one of the names is `name`.
pub open spec fn offers(names: Seq<String>, name: Seq<char>) -> bool {
    exists|i: int| 0 <= i < names.len() && (#[trigger] names[i])@ == name
}

/// The names, quoted and separated by commas.
pub open spec fn listed(names: Seq<String>) -> Seq<char>
    decreases names.len(),
{
    if names.len() == 0 {
        ""@
    } else if names.len() == 1 {
        quoted(names[0]@)
    } else {
        listed(names.drop_last()) + ", "@ + quoted(names.last()@)
    }
}

/// Why a graph cannot be served. `found` lists the names it offers.
#[derive(Debug)]
pub enum GraphContractViolation {
    MissingInput { required_name: String, found: String },
    MissingOutput { required_name: String, found: String },
}

impl GraphContractViolation {
    pub open spec fn spec_message(self) -> Seq<char> {
        match self {
            GraphContractViolation::MissingInput { required_name, found } =>
                "SigLIP 2 text ONNX graph is missing required input "@ + quoted(required_name@)
                    + "; found "@ + found@,
            GraphContractViolation::MissingOutput { required_name, found } =>
                "SigLIP 2 text ONNX graph is missing configured output "@ + quoted(required_name@)
                    + "; found "@ + found@,
        }
    }

    /// The violation in words.
    pub fn message(&self) -> (text: String)
        ensures
            text@ == self.spec_message(),
    {
        match self {
            GraphContractViolation::MissingInput { required_name, found } => {
                let mut text = "SigLIP 2 text ONNX graph is missing required input ".to_owned();
                text.append(quote(required_name.as_str()).as_str());
                text.append("; found ");
                text.append(found.as_str());
                text
            },
            GraphContractViolation::MissingOutput { required_name, found } => {
                let mut text = "SigLIP 2 text ONNX graph is missing configured output ".to_owned();
                text.append(quote(required_name.as_str()).as_str());
                text.append("; found ");
                text.append(found.as_str());
                text
            },
        }
    }
}

fn contains_name(names: &Vec<String>, name: &str) -> (found: bool)
    ensures
        found == offers(names@, name@),
{
    let wanted = name.to_owned();
    let mut index: usize = 0;
    while index < names.len()
        invariant
            wanted@ == name@,
            index <= names@.len(),
            forall|i: int| 0 <= i < index ==> (#[trigger] names@[i])@ != name@,
        decreases names@.len() - index,
    {
        if names[index] == wanted {
            assert(names@[index as int]@ == name@);
            return true;
        }
        index += 1;
    }
    false
}

fn list_names(names: &Vec<String>) -> (text: String)
    ensures
        text@ == "["@ + listed(names@) + "]"@,
{
    let mut text = "[".to_owned();
    let mut index: usize = 0;
    assert(names@.take(0) =~= seq![]);
    proof {
        reveal_strlit("");
        assert("["@ + ""@ =~= "["@);
    }
    while index < names.len()
        invariant
            index <= names@.len(),
            text@ == "["@ + listed(names@.take(index as int)),
        decreases names@.len() - index,
    {
        let ghost before = text@;
        if index > 0 {
            text.append(", ");
        }
        text.append(quote(names[index].as_str()).as_str());
        proof {
            let longer = names@.take(index + 1);
            assert(longer.drop_last() =~= names@.take(index as int));
            assert(longer.last() == names@[index as int]);
            if index == 0 {
                reveal_strlit("");
                assert(text@ =~= "["@ + listed(longer));
            } else {
                assert(text@ =~= "["@ + listed(longer));
            }
        }
        index += 1;
    }
    assert(names@.take(index as int) =~= names@);
    text.append("]");
    text
}

/// Holds a graph to the contract: it takes token IDs and an attention mask and
/// returns the configured output.
pub fn validate_graph_contract(
    input_names: &Vec<String>,
    output_names: &Vec<String>,
    output_name: &str,
) -> (result: Result<(), GraphContractViolation>)
    ensures
        match result {
            Ok(()) => {
                &&& offers(input_names@, INPUT_IDS@)
                &&& offers(input_names@, ATTENTION_MASK@)
                &&& offers(output_names@, output_name@)
            },
            Err(GraphContractViolation::MissingInput { required_name, found }) => {
                &&& found@ == "["@ + listed(input_names@) + "]"@
                &&& if offers(input_names@, INPUT_IDS@) {
                    &&& required_name@ == ATTENTION_MASK@
                    &&& !offers(input_names@, ATTENTION_MASK@)
                } else {
                    required_name@ == INPUT_IDS@
                }
            },
            Err(GraphContractViolation::MissingOutput { required_name, found }) => {
                &&& offers(input_names@, INPUT_IDS@)
                &&& offers(input_names@, ATTENTION_MASK@)
                &&& !offers(output_names@, output_name@)
                &&& required_name@ == output_name@
                &&& found@ == "["@ + listed(output_names@) + "]"@
            },
        },
{
    if !contains_name(input_names, INPUT_IDS) {
        return Err(
            GraphContractViolation::MissingInput {
                required_name: INPUT_IDS.to_owned(),
                found: list_names(input_names),
            },
        );
    }
    if !contains_name(input_names, ATTENTION_MASK) {
        return Err(
            GraphContractViolation::MissingInput {
                required_name: ATTENTION_MASK.to_owned(),
                found: list_names(input_names),
            },
        );
    }
    if !contains_name(output_names, output_name) {
        return Err(
            GraphContractViolation::MissingOutput {
                required_name: output_name.to_owned(),
                found: list_names(output_names),
            },
        );
    }
    Ok(())
}

/// A graph is accepted exactly where it takes token IDs and an attention mask and
/// returns the configured output. What is missing first is named, with all that
/// is offered instead.
pub proof fn graphs_are_held_to_the_contract(
    input_names: &Vec<String>,
    output_names: &Vec<String>,
    output_name: &str,
    result: Result<(), GraphContractViolation>,
)
    requires
        call_ensures(validate_graph_contract, (input_names, output_names, output_name), result),
    ensures
        result is Ok <==> {
            &&& exists|i: int|
                0 <= i < input_names@.len() && (#[trigger] input_names@[i])@ == "input_ids"@
            &&& exists|i: int|
                0 <= i < input_names@.len() && (#[trigger] input_names@[i])@ == "attention_mask"@
            &&& exists|i: int|
                0 <= i < output_names@.len() && (#[trigger] output_names@[i])@ == output_name@
        },
        result matches Err(violation) ==> match violation {
            GraphContractViolation::MissingInput { required_name, found } => {
                &&& required_name@ == "input_ids"@ || required_name@ == "attention_mask"@
                &&& forall|i: int|
                    0 <= i < input_names@.len() ==> (#[trigger] input_names@[i])@ != required_name@
                &&& required_name@ == "attention_mask"@ ==> exists|i: int|
                    0 <= i < input_names@.len() && (#[trigger] input_names@[i])@ == "input_ids"@
                &&& found@ == "["@ + listed(input_names@) + "]"@
            },
            GraphContractViolation::MissingOutput { required_name, found } => {
                &&& required_name@ == output_name@
                &&& forall|i: int|
                    0 <= i < output_names@.len() ==> (#[trigger] output_names@[i])@ != output_name@
                &&& exists|i: int|
                    0 <= i < input_names@.len() && (#[trigger] input_names@[i])@ == "input_ids"@
                &&& exists|i: int|
                    0 <= i < input_names@.len() && (#[trigger] input_names@[i])@
                        == "attention_mask"@
                &&& found@ == "["@ + listed(output_names@) + "]"@
            },
        },
{
    reveal_strlit("input_ids");
    reveal_strlit("attention_mask");
    if result is Ok {
        assert(offers(input_names@, "input_ids"@));
        assert(offers(input_names@, "attention_mask"@));
        assert(offers(output_names@, output_name@));
    }
    if let Err(GraphContractViolation::MissingInput { required_name, found }) = result {
        assert(!offers(input_names@, required_name@));
    }
}

/// A list of names names each, in their order and with commas between them.
pub proof fn lists_name_every_name(names: Seq<String>, name: String)
    ensures
        listed(seq![]) == ""@,
        listed(seq![name]) == quoted(name@),
        names.len() > 0 ==> listed(names.push(name)) == listed(names) + ", "@ + quoted(name@),
{
    assert(names.push(name).drop_last() =~= names);
}

/// The words for a violation name what is missing and what is offered.
pub proof fn violations_name_what_is_missing(violation: &GraphContractViolation, text: String)
    requires
        call_ensures(GraphContractViolation::message, (violation,), text),
    ensures
        match *violation {
            GraphContractViolation::MissingInput { required_name, found } => text@
                == "SigLIP 2 text ONNX graph is missing required input "@ + quoted(required_name@)
                + "; found "@ + found@,
            GraphContractViolation::MissingOutput { required_name, found } => text@
                == "SigLIP 2 text ONNX graph is missing configured output "@ + quoted(
                required_name@,
            ) + "; found "@ + found@,
        },
{
}

} // verus!
