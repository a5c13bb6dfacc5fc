//! The tool registry: the catalog of declared tools, and the routing of a
//! call request to the tool it names.

use crate::json::{new_object, object_entries, JsonEntries, JsonObject};
use crate::tool::{CustomTool, ToolError};
use serde_json::Value;
use vstd::prelude::*;

verus! {

/// What a tool says about its own behaviour. Each hint may be left out.
#[derive(Debug)]
pub struct ToolHints {
    /// A title that the tool gives itself among its hints.
    pub title: Option<String>,
    pub idempotent: Option<bool>,
    pub read_only: Option<bool>,
    pub destructive: Option<bool>,
    pub open_world: Option<bool>,
}

impl Clone for ToolHints {
    fn clone(&self) -> (copy: Self)
        ensures
            copy == *self,
    {
        ToolHints {
            title: self.title.clone(),
            idempotent: self.idempotent,
            read_only: self.read_only,
            destructive: self.destructive,
            open_world: self.open_world,
        }
    }
}

/// How a tool presents itself to callers.
#[derive(Debug)]
pub struct ToolDescriptor {
    /// The identifier by which calls name the tool.
    pub name: String,
    pub title: Option<String>,
    pub description: Option<String>,
    /// The JSON schema of the arguments that the tool takes.
    pub input_schema: Value,
    /// The JSON schema of what the tool returns, where it declares one. It
    /// is handed to callers as it is.
    pub output_schema: Option<Value>,
    /// The hints, where the tool gives any.
    pub hints: Option<ToolHints>,
    /// Metadata, handed to callers as it is.
    pub meta: Option<JsonObject>,
}

impl Clone for ToolDescriptor {
    fn clone(&self) -> (copy: Self)
        ensures
            copy == *self,
    {
        ToolDescriptor {
            name: self.name.clone(),
            title: self.title.clone(),
            description: self.description.clone(),
            input_schema: self.input_schema.clone(),
            output_schema: self.output_schema.clone(),
            hints: self.hints.clone(),
            meta: self.meta.clone(),
        }
    }
}

/// A request to call a tool.
#[derive(Debug)]
pub struct CallRequest {
    pub name: String,
    /// The arguments; a request may leave them out.
    pub arguments: Option<JsonObject>,
}

/// Why a call request reached no tool.
#[derive(Debug)]
pub enum RouteError {
    /// No declared tool has the name.
    UnknownTool { name: String },
    /// The tool exists, and the arguments do not fit it.
    InvalidParameters { error: ToolError },
}

/// A declared set of tools: what it declares, and how one of its tools is
/// made from the arguments of a call.
pub trait ToolSet: Sized {
    /// The descriptors of the declared tools.
    fn get_tools() -> Vec<ToolDescriptor>;

    /// Makes the declared tool of the given name from the arguments of a
    /// call, or says why the arguments do not fit.
    fn from_arguments(name: &str, arguments: JsonObject) -> Result<Self, ToolError>;
}

/// A set of tools that can be called on the spot.
pub trait ToolBox: ToolSet {
    /// The tool that this value stands for, ready to be called.
    fn get_tool(&self) -> CustomTool<'_>;
}

/// The names of a sequence of descriptors, in the same order.
pub open spec fn names(tools: Seq<ToolDescriptor>) -> Seq<Seq<char>> {
    tools.map_values(|tool: ToolDescriptor| tool.name@)
}

/// Of each name among `declared`, the first descriptor that bears it, in the
/// order of the declarations.
pub open spec fn first_of_each_name(declared: Seq<ToolDescriptor>) -> Seq<ToolDescriptor>
    decreases declared.len(),
{
    if declared.len() == 0 {
        Seq::empty()
    } else {
        let earlier = first_of_each_name(declared.drop_last());
        if names(earlier).contains(declared.last().name@) {
            earlier
        } else {
            earlier.push(declared.last())
        }
    }
}

/// The arguments that a request carries: its own, or none where it leaves
/// them out.
pub open spec fn request_entries(request: CallRequest) -> JsonEntries {
    match request.arguments {
        Some(arguments) => object_entries(arguments),
        None => JsonEntries::empty(),
    }
}

/// What routing answers once the tool box has tried to make the tool.
pub open spec fn routed<T>(built: Result<T, ToolError>) -> Result<T, RouteError> {
    match built {
        Ok(tool) => Ok(tool),
        Err(error) => Err(RouteError::InvalidParameters { error }),
    }
}

/// `result` is an answer to routing `request` over `catalog`: the
/// unknown-tool error where no descriptor has the name, else what the tool
/// box made of the name and the request's arguments (see [`routed`]).
pub open spec fn is_routed<T: ToolSet>(
    catalog: Seq<ToolDescriptor>,
    request: CallRequest,
    result: Result<T, RouteError>,
) -> bool {
    if names(catalog).contains(request.name@) {
        exists|name: &str, arguments: JsonObject, built: Result<T, ToolError>|
            {
                &&& name@ == request.name@
                &&& object_entries(arguments) == request_entries(request)
                &&& #[trigger] call_ensures(T::from_arguments, (name, arguments), built)
                &&& result == routed(built)
            }
    } else {
        result == Err::<T, RouteError>(RouteError::UnknownTool { name: request.name })
    }
}

/// The first position in `tools` whose name is `name`.
fn find_name(tools: &Vec<ToolDescriptor>, name: &String) -> (found: Option<usize>)
    ensures
        match found {
            Some(position) => {
                &&& position < tools.len()
                &&& tools[position as int].name@ == name@
                &&& forall|earlier: int| 0 <= earlier < position ==> tools[earlier].name@ != name@
            },
            None => !names(tools@).contains(name@),
        },
{
    let mut position: usize = 0;
    while position < tools.len()
        invariant
            position <= tools.len(),
            forall|earlier: int| 0 <= earlier < position ==> tools[earlier].name@ != name@,
        decreases tools.len() - position,
    {
        if tools[position].name == *name {
            return Some(position);
        }
        position += 1;
    }
    assert forall|index: int| 0 <= index < names(tools@).len() implies names(tools@)[index]
        != name@ by {
        assert(names(tools@)[index] == tools[index].name@);
    }
    None
}

/// The declared tools, each name once.
pub struct ToolRegistry {
    tools: Vec<ToolDescriptor>,
}

impl View for ToolRegistry {
    type V = Seq<ToolDescriptor>;

    /// The catalog.
    closed spec fn view(&self) -> Seq<ToolDescriptor> {
        self.tools@
    }
}

impl ToolRegistry {
    #[verifier::type_invariant]
    spec fn names_are_unique(self) -> bool {
        names(self.tools@).no_duplicates()
    }

    /// The registry of the declared tools. A tool is known by its name:
    /// where a name is declared more than once, its first declaration
    /// stands.
    pub fn new(declared: Vec<ToolDescriptor>) -> (registry: Self)
        ensures
            registry@ == first_of_each_name(declared@),
    {
        let mut tools: Vec<ToolDescriptor> = Vec::new();
        let mut next: usize = 0;
        while next < declared.len()
            invariant
                next <= declared.len(),
                tools@ == first_of_each_name(declared@.take(next as int)),
            decreases declared.len() - next,
        {
            let ghost upto = declared@.take(next + 1);
            proof {
                assert(upto.drop_last() == declared@.take(next as int));
                assert(upto.last() == declared@[next as int]);
            }
            let found = find_name(&tools, &declared[next].name);
            proof {
                if let Some(position) = found {
                    assert(names(tools@)[position as int] == tools@[position as int].name@);
                }
            }
            if found.is_none() {
                tools.push(declared[next].clone());
            }
            next += 1;
        }
        proof {
            assert(declared@.take(next as int) == declared@);
            catalog_holds_each_declared_name_once(declared@);
        }
        ToolRegistry { tools }
    }

    /// The catalog: one descriptor for each declared name, in the order of
    /// the declarations.
    pub fn catalog(&self) -> (catalog: &Vec<ToolDescriptor>)
        ensures
            catalog@ == self@,
            names(self@).no_duplicates(),
    {
        proof {
            use_type_invariant(self);
        }
        &self.tools
    }

    /// Whether no tool is declared.
    pub fn is_empty(&self) -> (empty: bool)
        ensures
            empty == (self@.len() == 0),
    {
        self.tools.len() == 0
    }

    /// Where in the catalog the tool of the given name stands.
    pub fn position(&self, name: &str) -> (found: Option<usize>)
        ensures
            match found {
                Some(position) => position < self@.len() && self@[position as int].name@ == name@,
                None => !names(self@).contains(name@),
            },
    {
        find_name(&self.tools, &name.to_owned())
    }

    /// Routes a call request: resolves the tool by its name, then has the
    /// tool box make the tool from the request's arguments, an empty object
    /// where the request has none.
    pub fn route<T: ToolSet>(&self, request: CallRequest) -> (result: Result<T, RouteError>)
        ensures
            is_routed(self@, request, result),
    {
        let ghost asked = request;
        let CallRequest { name, arguments } = request;
        match find_name(&self.tools, &name) {
            None => Err(RouteError::UnknownTool { name }),
            Some(position) => {
                proof {
                    assert(names(self@)[position as int] == self@[position as int].name@);
                }
                let arguments = match arguments {
                    Some(arguments) => arguments,
                    None => new_object(),
                };
                let ghost handed = arguments;
                let tool_name = name.as_str();
                let built = T::from_arguments(tool_name, arguments);
                proof {
                    assert(object_entries(handed) == request_entries(asked));
                    assert(call_ensures(T::from_arguments, (tool_name, handed), built));
                }
                match built {
                    Ok(tool) => Ok(tool),
                    Err(error) => Err(RouteError::InvalidParameters { error }),
                }
            },
        }
    }
}

/// The catalog that a registry makes of `declared` holds exactly one
/// descriptor for each declared name and no name twice; each of its
/// descriptors is the first declared one of its name; and where no name is
/// declared twice, the catalog is the declared sequence itself.
pub proof fn catalog_holds_each_declared_name_once(declared: Seq<ToolDescriptor>)
    ensures
        names(first_of_each_name(declared)).no_duplicates(),
        forall|name: Seq<char>|
            names(first_of_each_name(declared)).contains(name) <==> names(declared).contains(name),
        forall|index: int|
            0 <= index < first_of_each_name(declared).len() ==> is_first_of_its_name(
                declared,
                #[trigger] first_of_each_name(declared)[index],
            ),
        names(declared).no_duplicates() ==> first_of_each_name(declared) == declared,
        declared.len() > 0 ==> first_of_each_name(declared).len() > 0,
    decreases declared.len(),
{
    let catalog = first_of_each_name(declared);
    if declared.len() > 0 {
        let before = declared.drop_last();
        let last = declared.last();
        let earlier = first_of_each_name(before);
        catalog_holds_each_declared_name_once(before);
        assert(names(before) == names(declared).drop_last());
        assert(names(declared).last() == last.name@);
        assert forall|name: Seq<char>| names(catalog).contains(name) <==> names(declared).contains(
            name,
        ) by {
            if names(declared).contains(name) {
                let at = choose|at: int| 0 <= at < names(declared).len() && names(declared)[at] == name;
                if at < before.len() {
                    assert(names(before)[at] == name);
                    assert(names(before).contains(name));
                    let kept = choose|kept: int| 0 <= kept < names(earlier).len() && names(earlier)[kept] == name;
                    assert(names(catalog)[kept] == name);
                } else if !names(earlier).contains(last.name@) {
                    assert(names(catalog)[earlier.len() as int] == name);
                }
            }
            if names(catalog).contains(name) {
                let at = choose|at: int| 0 <= at < names(catalog).len() && names(catalog)[at] == name;
                if at < earlier.len() {
                    assert(names(earlier)[at] == name);
                    assert(names(earlier).contains(name));
                    assert(names(before).contains(name));
                    let from = choose|from: int| 0 <= from < names(before).len() && names(before)[from] == name;
                    assert(names(declared)[from] == name);
                } else {
                    assert(names(declared)[declared.len() - 1] == name);
                }
            }
        }
        assert forall|index: int| 0 <= index < catalog.len() implies is_first_of_its_name(
            declared,
            #[trigger] catalog[index],
        ) by {
            if index < earlier.len() {
                assert(catalog[index] == earlier[index]);
                assert(is_first_of_its_name(before, earlier[index]));
                let at = choose|at: int| is_first_at(before, earlier[index], at);
                assert(before[at] == declared[at]);
                assert forall|sooner: int| 0 <= sooner < at implies declared[sooner].name@
                    != catalog[index].name@ by {
                    assert(before[sooner] == declared[sooner]);
                }
                assert(is_first_at(declared, catalog[index], at));
            } else {
                assert(catalog[index] == last);
                assert forall|sooner: int| 0 <= sooner < declared.len() - 1 implies declared[sooner].name@
                    != last.name@ by {
                    assert(names(before)[sooner] == declared[sooner].name@);
                    assert(names(before).contains(declared[sooner].name@));
                }
                assert(is_first_at(declared, catalog[index], declared.len() - 1));
            }
        }
        if names(earlier).contains(last.name@) {
            assert(names(before).contains(last.name@));
            let twin = choose|twin: int| 0 <= twin < names(before).len() && names(before)[twin] == last.name@;
            assert(names(declared)[twin] == names(declared)[declared.len() - 1]);
        } else {
            assert(names(catalog) == names(earlier).push(last.name@));
            assert forall|i: int, j: int|
                0 <= i < names(catalog).len() && 0 <= j < names(catalog).len() && i
                    != j implies names(catalog)[i] != names(catalog)[j] by {
                if i < earlier.len() && j < earlier.len() {
                    assert(names(earlier)[i] != names(earlier)[j]);
                } else if i < earlier.len() {
                    assert(names(earlier).contains(names(earlier)[i]));
                } else {
                    assert(names(earlier).contains(names(earlier)[j]));
                }
            }
        }
        if names(declared).no_duplicates() {
            assert forall|i: int, j: int|
                0 <= i < names(before).len() && 0 <= j < names(before).len() && i
                    != j implies names(before)[i] != names(before)[j] by {
                assert(names(declared)[i] != names(declared)[j]);
            }
            assert(earlier == before);
            assert(catalog == declared);
        }
    }
}

/// `tool` stands at `position` in `declared`, and no descriptor before it
/// has its name.
pub open spec fn is_first_at(declared: Seq<ToolDescriptor>, tool: ToolDescriptor, position: int) -> bool {
    &&& 0 <= position < declared.len()
    &&& declared[position] == tool
    &&& forall|sooner: int| 0 <= sooner < position ==> declared[sooner].name@ != tool.name@
}

/// `tool` is the first descriptor of its name in `declared`.
pub open spec fn is_first_of_its_name(declared: Seq<ToolDescriptor>, tool: ToolDescriptor) -> bool {
    exists|position: int| is_first_at(declared, tool, position)
}

/// Two requests for the same tool whose arguments hold the same entries are
/// routed alike; in particular a request that leaves its arguments out is
/// routed as one that carries an empty object.
pub proof fn same_arguments_route_alike<T: ToolSet>(
    catalog: Seq<ToolDescriptor>,
    one: CallRequest,
    other: CallRequest,
    result: Result<T, RouteError>,
)
    requires
        one.name == other.name,
        request_entries(one) == request_entries(other),
    ensures
        is_routed(catalog, one, result) <==> is_routed(catalog, other, result),
{
}

} // verus!
