use crate::v1::text::str_eq;
use vstd::prelude::*;

verus! {

// -----------------------------------------------------------------------------
// Definitions

/// A call of a tool that the model asks for.
#[derive(Clone, Debug, PartialEq, Eq)]
pub struct ToolCall {
    pub id: Option<String>,
    pub function: ToolCallFunction,
}

/// The function that a tool call names, with its arguments as JSON text.
#[derive(Clone, Debug, PartialEq, Eq)]
pub struct ToolCallFunction {
    pub name: String,
    pub arguments: String,
}

/// A tool that the model may call: one function with its parameters.
#[derive(Clone, Debug)]
pub struct Tool {
    pub tool_type: ToolType,
    pub function: ToolFunction,
}

// -----------------------------------------------------------------------------
// Request

/// The property that a parameter becomes in a function's parameters.
pub open spec fn property_of(p: ToolFunctionParameter) -> ToolFunctionParameterProperty {
    ToolFunctionParameterProperty { property_type: p.param_type, description: p.description }
}

/// `k` is the last position in `params` of a parameter named `name`.
pub open spec fn last_named(params: Seq<ToolFunctionParameter>, k: int, name: Seq<char>) -> bool {
    &&& 0 <= k < params.len()
    &&& params[k].name@ == name
    &&& forall|k2: int| k < k2 < params.len() ==> params[k2].name@ != name
}

/// No two entries of `props` share a name.
pub open spec fn names_distinct(props: Seq<(String, ToolFunctionParameterProperty)>) -> bool {
    forall|a: int, b: int|
        0 <= a < b < props.len() ==> (#[trigger] props[a]).0@ != (#[trigger] props[b]).0@
}

/// Entry `j` of `props` holds the property of the last parameter in
/// `params` that has the entry's name.
pub open spec fn entry_from_last(
    params: Seq<ToolFunctionParameter>,
    props: Seq<(String, ToolFunctionParameterProperty)>,
    j: int,
) -> bool {
    exists|k: int| #[trigger] last_named(params, k, props[j].0@) && props[j].1 == property_of(params[k])
}

/// Some entry of `props` has the name `name`.
pub open spec fn has_entry_named(props: Seq<(String, ToolFunctionParameterProperty)>, name: Seq<char>) -> bool {
    exists|j: int| 0 <= j < props.len() && (#[trigger] props[j]).0@ == name
}

/// `k` is the first position in `params` of a parameter named `name`.
pub open spec fn first_named(params: Seq<ToolFunctionParameter>, k: int, name: Seq<char>) -> bool {
    &&& 0 <= k < params.len()
    &&& params[k].name@ == name
    &&& forall|k2: int| 0 <= k2 < k ==> params[k2].name@ != name
}

/// The name `x` occurs in `params` before the name `y` first does.
pub open spec fn first_before(params: Seq<ToolFunctionParameter>, x: Seq<char>, y: Seq<char>) -> bool {
    forall|kx: int, ky: int|
        #[trigger] first_named(params, kx, x) && #[trigger] first_named(params, ky, y) ==> kx < ky
}

/// `props` holds one entry for each parameter name that occurs in `params`,
/// and nothing else, in the order in which the names first occur; an entry
/// holds the property of the last parameter of its name, as when each
/// parameter in turn is put into a map by its name.
pub open spec fn properties_from(
    params: Seq<ToolFunctionParameter>,
    props: Seq<(String, ToolFunctionParameterProperty)>,
) -> bool {
    &&& names_distinct(props)
    &&& forall|j: int| 0 <= j < props.len() ==> #[trigger] entry_from_last(params, props, j)
    &&& forall|k: int| 0 <= k < params.len() ==> has_entry_named(props, (#[trigger] params[k]).name@)
    &&& forall|a: int, b: int|
        0 <= a < b < props.len() ==> first_before(params, (#[trigger] props[a]).0@, (#[trigger] props[b]).0@)
}

/// `t` is the tool that `Tool::new` builds from a name, a description and a
/// list of parameters: a function tool whose parameters form an object with
/// one property per parameter name, every one of them required.
pub open spec fn tool_built_from(
    name: String,
    description: String,
    params: Seq<ToolFunctionParameter>,
    t: Tool,
) -> bool {
    &&& t.tool_type == ToolType::Function
    &&& t.function.name == name
    &&& t.function.description == description
    &&& t.function.parameters.params_type == ToolFunctionParametersType::Object
    &&& properties_from(params, t.function.parameters.properties@)
    &&& t.function.parameters.required@.len() == t.function.parameters.properties@.len()
    &&& forall|j: int|
        0 <= j < t.function.parameters.required@.len() ==> t.function.parameters.required@[j]
            == t.function.parameters.properties@[j].0
}

/// The position of the entry named `name` in `props`, if there is one.
fn find_property(props: &Vec<(String, ToolFunctionParameterProperty)>, name: &String) -> (r:
    Option<usize>)
    ensures
        match r {
            Some(j) => j < props@.len() && props@[j as int].0@ == name@,
            None => forall|j: int| 0 <= j < props@.len() ==> props@[j].0@ != name@,
        },
{
    let mut j: usize = 0;
    while j < props.len()
        invariant
            j <= props@.len(),
            forall|jj: int| 0 <= jj < j ==> props@[jj].0@ != name@,
        decreases props@.len() - j,
    {
        if props[j].0 == *name {
            return Some(j);
        }
        j = j + 1;
    }
    None
}

/// From positions that witness each entry and each parameter, the entries
/// are the properties that the parameters give.
proof fn lemma_properties_from_witnesses(
    params: Seq<ToolFunctionParameter>,
    props: Seq<(String, ToolFunctionParameterProperty)>,
    src: Seq<int>,
    pos: Seq<int>,
    fst: Seq<int>,
)
    requires
        src.len() == props.len(),
        pos.len() == params.len(),
        fst.len() == props.len(),
        forall|j: int|
            0 <= j < props.len() ==> first_named(params, #[trigger] fst[j], props[j].0@),
        forall|a: int, b: int| 0 <= a < b < props.len() ==> #[trigger] fst[a] < #[trigger] fst[b],
        names_distinct(props),
        forall|j: int|
            0 <= j < props.len() ==> {
                &&& 0 <= #[trigger] src[j] < params.len()
                &&& params[src[j]].name@ == props[j].0@
                &&& props[j].1 == property_of(params[src[j]])
                &&& forall|k2: int| src[j] < k2 < params.len() ==> params[k2].name@ != props[j].0@
            },
        forall|k: int|
            0 <= k < params.len() ==> 0 <= #[trigger] pos[k] < props.len() && props[pos[k]].0@
                == params[k].name@,
    ensures
        properties_from(params, props),
{
    assert forall|j: int| 0 <= j < props.len() implies #[trigger] entry_from_last(params, props, j) by {
        assert(last_named(params, src[j], props[j].0@));
    }
    assert forall|k: int| 0 <= k < params.len() implies has_entry_named(props, (#[trigger] params[k]).name@) by {
        let j = pos[k];
        assert(0 <= j < props.len() && props[j].0@ == params[k].name@);
    }
    assert forall|a: int, b: int| 0 <= a < b < props.len() implies first_before(
        params,
        (#[trigger] props[a]).0@,
        (#[trigger] props[b]).0@,
    ) by {
        assert forall|kx: int, ky: int|
            #[trigger] first_named(params, kx, props[a].0@) && #[trigger] first_named(
                params,
                ky,
                props[b].0@,
            ) implies kx < ky by {
            assert(first_named(params, fst[a], props[a].0@));
            assert(first_named(params, fst[b], props[b].0@));
            assert(fst[a] < fst[b]);
            if kx < fst[a] {
                assert(params[kx].name@ != props[a].0@);
            }
            if kx > fst[a] {
                assert(params[fst[a]].name@ != props[a].0@);
            }
            if ky < fst[b] {
                assert(params[ky].name@ != props[b].0@);
            }
            if ky > fst[b] {
                assert(params[fst[b]].name@ != props[b].0@);
            }
        }
    }
}

impl Tool {
    /// Describes a function tool. Each parameter becomes a property of the
    /// function's parameters under its name (of two parameters with one name,
    /// the later one stands, in the place where the name first occurs), and
    /// every property is required.
    pub fn new(
        function_name: String,
        function_description: String,
        function_parameters: Vec<ToolFunctionParameter>,
    ) -> (r: Self)
        ensures
            tool_built_from(function_name, function_description, function_parameters@, r),
    {
        let ghost params = function_parameters@;
        let mut properties: Vec<(String, ToolFunctionParameterProperty)> = Vec::new();
        // src[j]: where the parameter that entry j stands for sits in `params`;
        // pos[k]: the entry that holds the name of parameter k.
        let ghost mut src: Seq<int> = Seq::empty();
        let ghost mut pos: Seq<int> = Seq::empty();
        // fst[j]: where the name of entry j first occurs in `params`.
        let ghost mut fst: Seq<int> = Seq::empty();
        let n = function_parameters.len();
        let mut i: usize = 0;
        while i < n
            invariant
                n == params.len(),
                params == function_parameters@,
                i <= n,
                src.len() == properties@.len(),
                pos.len() == i,
                fst.len() == properties@.len(),
                forall|j: int|
                    0 <= j < properties@.len() ==> {
                        &&& 0 <= #[trigger] fst[j] < i
                        &&& first_named(params, fst[j], properties@[j].0@)
                    },
                forall|a: int, b: int|
                    0 <= a < b < properties@.len() ==> #[trigger] fst[a] < #[trigger] fst[b],
                names_distinct(properties@),
                forall|j: int|
                    0 <= j < properties@.len() ==> {
                        &&& 0 <= #[trigger] src[j] < i
                        &&& params[src[j]].name@ == properties@[j].0@
                        &&& properties@[j].1 == property_of(params[src[j]])
                        &&& forall|k2: int| src[j] < k2 < i ==> params[k2].name@ != properties@[j].0@
                    },
                forall|k: int|
                    0 <= k < i ==> 0 <= #[trigger] pos[k] < properties@.len() && properties@[pos[k]].0@
                        == params[k].name@,
            decreases n - i,
        {
            let p = &function_parameters[i];
            let prop = ToolFunctionParameterProperty {
                property_type: p.param_type,
                description: p.description.clone(),
            };
            match find_property(&properties, &p.name) {
                Some(j) => {
                    properties.set(j, (p.name.clone(), prop));
                    proof {
                        src = src.update(j as int, i as int);
                        pos = pos.push(j as int);
                    }
                },
                None => {
                    properties.push((p.name.clone(), prop));
                    proof {
                        src = src.push(i as int);
                        pos = pos.push(properties@.len() - 1);
                        assert forall|k2: int| 0 <= k2 < i implies params[k2].name@ != p.name@ by {
                            assert(properties@[pos[k2]].0@ == params[k2].name@);
                        }
                        fst = fst.push(i as int);
                    }
                },
            }
            i = i + 1;
        }
        proof {
            lemma_properties_from_witnesses(params, properties@, src, pos, fst);
        }
        let mut required: Vec<String> = Vec::new();
        let m = properties.len();
        let mut j: usize = 0;
        while j < m
            invariant
                m == properties@.len(),
                j <= m,
                required@.len() == j,
                forall|jj: int| 0 <= jj < j ==> required@[jj] == properties@[jj].0,
            decreases m - j,
        {
            required.push(properties[j].0.clone());
            j = j + 1;
        }
        let parameters = ToolFunctionParameters {
            params_type: ToolFunctionParametersType::Object,
            properties,
            required,
        };
        Self {
            tool_type: ToolType::Function,
            function: ToolFunction {
                name: function_name,
                description: function_description,
                parameters,
            },
        }
    }
}

/// Every parameter's name is required, and only parameter names are: a
/// name stands among the required names of a tool if and only if some
/// parameter it was built from has that name, and no name is required twice.
pub proof fn law_required_are_parameter_names(
    name: String,
    description: String,
    params: Seq<ToolFunctionParameter>,
    t: Tool,
    s: Seq<char>,
)
    requires
        tool_built_from(name, description, params, t),
    ensures
        (exists|k: int| 0 <= k < params.len() && params[k].name@ == s) <==> (exists|j: int|
            0 <= j < t.function.parameters.required@.len() && t.function.parameters.required@[j]@
                == s),
        forall|a: int, b: int|
            0 <= a < b < t.function.parameters.required@.len() ==> t.function.parameters.required@[a]@
                != t.function.parameters.required@[b]@,
{
    let props = t.function.parameters.properties@;
    let req = t.function.parameters.required@;
    if exists|k: int| 0 <= k < params.len() && params[k].name@ == s {
        let k = choose|k: int| 0 <= k < params.len() && params[k].name@ == s;
        assert(has_entry_named(props, params[k].name@));
        let j = choose|j: int| 0 <= j < props.len() && (#[trigger] props[j]).0@ == params[k].name@;
        assert(req[j] == props[j].0);
        assert(req[j]@ == s);
    }
    if exists|j: int| 0 <= j < req.len() && req[j]@ == s {
        let j = choose|j: int| 0 <= j < req.len() && req[j]@ == s;
        assert(req[j] == props[j].0);
        assert(entry_from_last(params, props, j));
        let k = choose|k: int|
            #[trigger] last_named(params, k, props[j].0@) && props[j].1 == property_of(params[k]);
        assert(params[k].name@ == s);
    }
    assert forall|a: int, b: int| 0 <= a < b < req.len() implies req[a]@ != req[b]@ by {
        assert(req[a] == props[a].0);
        assert(req[b] == props[b].0);
        assert(props[a].0@ != props[b].0@);
    }
}


/// The description of a function offered to the model.
#[derive(Clone, Debug)]
pub struct ToolFunction {
    pub name: String,
    pub description: String,
    pub parameters: ToolFunctionParameters,
}

/// One parameter of a function offered to the model.
#[derive(Clone, Debug)]
pub struct ToolFunctionParameter {
    pub name: String,
    pub description: String,
    pub param_type: ToolFunctionParameterType,
}

impl ToolFunctionParameter {
    /// Describes a parameter by its name, its description and its type.
    pub fn new(name: String, description: String, param_type: ToolFunctionParameterType) -> (r:
        Self)
        ensures
            r.name == name,
            r.description == description,
            r.param_type == param_type,
    {
        Self { name, param_type, description }
    }
}

/// The parameters of a function: an object whose properties are named, each
/// with its type and description, and the names that the model must fill in.
#[derive(Clone, Debug)]
pub struct ToolFunctionParameters {
    pub params_type: ToolFunctionParametersType,
    pub properties: Vec<(String, ToolFunctionParameterProperty)>,
    pub required: Vec<String>,
}

/// The type and description of one property of a function's parameters.
#[derive(Clone, Debug)]
pub struct ToolFunctionParameterProperty {
    pub property_type: ToolFunctionParameterType,
    pub description: String,
}

/// The kind of a function's parameters.
#[derive(Clone, Copy, Debug, PartialEq, Eq, Structural)]
pub enum ToolFunctionParametersType {
    Object,
}

/// The type of one parameter of a function.
#[derive(Clone, Copy, Debug, PartialEq, Eq, Structural)]
pub enum ToolFunctionParameterType {
    String,
}

/// The kind of a tool.
#[derive(Clone, Copy, Debug, PartialEq, Eq, Structural)]
pub enum ToolType {
    Function,
}

/// An enum representing how functions should be called.
#[derive(Clone, Copy, Debug, PartialEq, Eq, Structural)]
pub enum ToolChoice {
    /// The model is forced to call a function.
    Any,
    /// The model can choose to either generate a message or call a function.
    Auto,
    /// The model won't call a function and will generate a message instead.
    Disabled,
}

/// The result of one tool call that the client ran, as handed back by
/// `get_last_function_call_result` and `get_last_function_calls_results`.
#[derive(Debug)]
pub struct ToolResult {
    pub id: Option<String>,
    pub name: String,
    pub result: Result<String, CallError>,
}

/// Why a tool call could not be run.
#[derive(Clone, Copy, Debug, PartialEq, Eq, Structural)]
pub enum CallError {
    NotFound,
}

impl CallError {
    /// The text that describes this error.
    pub fn message(&self) -> (r: &'static str)
        ensures
            r@ == "Tool does not exist"@,
    {
        match self {
            CallError::NotFound => "Tool does not exist",
        }
    }
}

// -----------------------------------------------------------------------------
// Wire identifiers

impl ToolType {
    /// The identifier under which this kind is sent to the API.
    pub fn id(&self) -> (r: &'static str)
        ensures
            r@ == "function"@,
    {
        "function"
    }

    /// Reads a tool kind as the API writes it.
    pub fn from_id(s: &str) -> (r: Option<ToolType>)
        ensures
            r == (if s@ == "function"@ {
                Some(ToolType::Function)
            } else {
                None
            }),
    {
        if str_eq(s, "function") {
            Some(ToolType::Function)
        } else {
            None
        }
    }
}

impl ToolFunctionParametersType {
    /// The identifier under which this kind is sent to the API.
    pub fn id(&self) -> (r: &'static str)
        ensures
            r@ == "object"@,
    {
        "object"
    }

    /// Reads a parameters kind as the API writes it.
    pub fn from_id(s: &str) -> (r: Option<ToolFunctionParametersType>)
        ensures
            r == (if s@ == "object"@ {
                Some(ToolFunctionParametersType::Object)
            } else {
                None
            }),
    {
        if str_eq(s, "object") {
            Some(ToolFunctionParametersType::Object)
        } else {
            None
        }
    }
}

impl ToolFunctionParameterType {
    /// The identifier under which this type is sent to the API.
    pub fn id(&self) -> (r: &'static str)
        ensures
            r@ == "string"@,
    {
        "string"
    }

    /// Reads a parameter type as the API writes it.
    pub fn from_id(s: &str) -> (r: Option<ToolFunctionParameterType>)
        ensures
            r == (if s@ == "string"@ {
                Some(ToolFunctionParameterType::String)
            } else {
                None
            }),
    {
        if str_eq(s, "string") {
            Some(ToolFunctionParameterType::String)
        } else {
            None
        }
    }
}

/// The identifier under which a tool choice is sent to the API.
pub open spec fn tool_choice_id(c: ToolChoice) -> Seq<char> {
    match c {
        ToolChoice::Any => "any"@,
        ToolChoice::Auto => "auto"@,
        ToolChoice::Disabled => "none"@,
    }
}

/// The tool choice that an identifier received from the API names.
pub open spec fn tool_choice_from_id(s: Seq<char>) -> Option<ToolChoice> {
    if s == "any"@ {
        Some(ToolChoice::Any)
    } else if s == "auto"@ {
        Some(ToolChoice::Auto)
    } else if s == "none"@ {
        Some(ToolChoice::Disabled)
    } else {
        None
    }
}

impl ToolChoice {
    /// The identifier under which this choice is sent to the API.
    pub fn id(&self) -> (r: &'static str)
        ensures
            r@ == tool_choice_id(*self),
    {
        match self {
            ToolChoice::Any => "any",
            ToolChoice::Auto => "auto",
            ToolChoice::Disabled => "none",
        }
    }

    /// Reads a tool choice as the API writes it.
    pub fn from_id(s: &str) -> (r: Option<ToolChoice>)
        ensures
            r == tool_choice_from_id(s@),
    {
        if str_eq(s, "any") {
            Some(ToolChoice::Any)
        } else if str_eq(s, "auto") {
            Some(ToolChoice::Auto)
        } else if str_eq(s, "none") {
            Some(ToolChoice::Disabled)
        } else {
            None
        }
    }
}

/// A text is read as a tool choice only when it is that choice's own identifier.
pub proof fn law_tool_choice_from_id_only_own(s: Seq<char>, c: ToolChoice)
    ensures
        tool_choice_from_id(s) == Some(c) ==> s == tool_choice_id(c),
{
}

/// Reading the identifier that a tool choice is written under gives back that choice.
pub proof fn law_tool_choice_id_round_trip(c: ToolChoice)
    ensures
        tool_choice_from_id(tool_choice_id(c)) == Some(c),
{
    reveal_strlit("any");
    reveal_strlit("auto");
    reveal_strlit("none");
    match c {
        ToolChoice::Any => {},
        ToolChoice::Auto => {
            assert(tool_choice_id(c).len() != "any"@.len());
        },
        ToolChoice::Disabled => {
            assert(tool_choice_id(c).len() != "any"@.len());
            assert(tool_choice_id(c)[0] != "auto"@[0]);
        },
    }
}

} // verus!
