//! The service: its two handlers and the dispatch of calls to them.

use crate::decimal::{decimal_text, integer_to_string};
use crate::envelope::{DispatchError, Envelope, ToolResult};
use crate::names::{first_of, first_of_finds_contained, first_of_in_distinct, first_of_is_least};
use crate::payload::{
    field_names, integer_at, lookup_ignores_other_names, text_at, Fields, Payload, ValueView,
};
use crate::router::{tool_names, tool_of, well_formed, Handler, ToolRouter, ToolView};
use crate::schema::{
    conforms, holds, missing_field_does_not_conform, validate, ParamKind, ToolDescriptor,
};
use vstd::prelude::*;
use vstd::utf8::encode_utf8;

verus! {

/// The parameters of the increment tool.
#[derive(Debug, Clone, PartialEq)]
pub struct GreetRequest {
    pub number: i32,
}

/// The parameters of the greeting tool.
#[derive(Debug, Clone, PartialEq)]
pub struct MeetRequest {
    pub name: String,
}

/// What the service says of itself on request.
#[derive(Debug, Clone, PartialEq)]
pub struct ServerInfo {
    pub instructions: String,
    pub tools: Vec<ToolDescriptor>,
}

/// The service: a registry with the increment tool and the greeting tool.
#[derive(Debug, Clone, PartialEq)]
pub struct GreetService {
    pub tool_router: ToolRouter,
}

impl View for GreetService {
    type V = Seq<ToolView>;

    open spec fn view(&self) -> Seq<ToolView> {
        self.tool_router@
    }
}

/// The number after `n` in 32-bit arithmetic: past the largest value it wraps
/// round to the smallest.
pub open spec fn successor(n: int) -> int {
    if n == i32::MAX {
        i32::MIN as int
    } else {
        n + 1
    }
}

/// The length of `s` in bytes of UTF-8.
pub open spec fn byte_length(s: Seq<char>) -> nat {
    encode_utf8(s).len()
}

/// The greeting for `name`.
pub open spec fn greeting(name: Seq<char>) -> Seq<char> {
    "Hello, "@ + name + "! Nice to meet you!"@
}

/// What the greeting tool answers for `name`: a failure for a name of fewer
/// than ten bytes, else the greeting.
pub open spec fn greeting_envelope(name: Seq<char>) -> Envelope {
    if byte_length(name) < 10 {
        Envelope::Failure(seq!["name too short"@])
    } else {
        Envelope::Success(seq![greeting(name)])
    }
}

/// What the increment tool answers for `n`.
pub open spec fn increment_envelope(n: int) -> Envelope {
    Envelope::Success(seq![decimal_text(successor(n))])
}

/// What a handler comes to on the fields of a payload: its answer where they
/// hold the parameter that the handler reads, else a refusal.
pub open spec fn handler_outcome(handler: Handler, fields: Fields) -> Result<
    Envelope,
    DispatchError,
> {
    match handler {
        Handler::Increment => match integer_at(fields, "number"@) {
            Some(n) => Ok(increment_envelope(n)),
            None => Err(DispatchError::InvalidParameters),
        },
        Handler::Greet => match text_at(fields, "name"@) {
            Some(name) => Ok(greeting_envelope(name)),
            None => Err(DispatchError::InvalidParameters),
        },
    }
}

/// What a call of the tool `name` with the given fields comes to: a refusal
/// where no tool has the name or the fields do not conform to the tool's
/// schema, else what the tool's handler comes to.
pub open spec fn outcome(tools: Seq<ToolView>, name: Seq<char>, fields: Fields) -> Result<
    Envelope,
    DispatchError,
> {
    match first_of(tool_names(tools), name, 0) {
        None => Err(DispatchError::UnknownTool),
        Some(i) => if conforms(fields, tools[i].descriptor.shape) {
            handler_outcome(tools[i].handler, fields)
        } else {
            Err(DispatchError::InvalidParameters)
        },
    }
}

/// The two tools of the service, the increment tool first.
pub open spec fn standard_tools() -> Seq<ToolView> {
    seq![
        tool_of("increment"@, "Return input number plus one"@, Handler::Increment),
        tool_of(
            "greet"@,
            "Generate a personalized greeting for the given name"@,
            Handler::Greet,
        ),
    ]
}

/// The instructions that the service gives to its callers.
pub open spec fn instructions_text() -> Seq<char> {
    "A simple MCP service that provides greeting and number manipulation tools. Includes 'increment' for incrementing numbers and 'greet' for generating personalized greetings."@
}

impl GreetRequest {
    /// Reads the parameters of the increment tool from a payload.
    pub fn decode(payload: &Payload) -> (r: Option<GreetRequest>)
        ensures
            match r {
                Some(req) => integer_at(payload@, "number"@) == Some(req.number as int),
                None => integer_at(payload@, "number"@) is None,
            },
    {
        match payload.get_integer("number") {
            Some(number) => Some(GreetRequest { number }),
            None => None,
        }
    }
}

impl MeetRequest {
    /// Reads the parameters of the greeting tool from a payload.
    pub fn decode(payload: &Payload) -> (r: Option<MeetRequest>)
        ensures
            match r {
                Some(req) => text_at(payload@, "name"@) == Some(req.name@),
                None => text_at(payload@, "name"@) is None,
            },
    {
        match payload.get_text("name") {
            Some(name) => Some(MeetRequest { name: name.clone() }),
            None => None,
        }
    }
}

impl GreetService {
    /// The service with its two tools registered.
    pub fn new() -> (service: GreetService)
        ensures
            service@ == standard_tools(),
            service.tool_router.wf(),
    {
        let mut tool_router = ToolRouter::new();
        let first = tool_router.register(
            "increment",
            "Return input number plus one",
            Handler::Increment,
        );
        proof {
            reveal_strlit("increment");
            reveal_strlit("greet");
            assert("increment"@.len() != "greet"@.len());
            assert(!tool_names(tool_router@).contains("greet"@));
        }
        let second = tool_router.register(
            "greet",
            "Generate a personalized greeting for the given name",
            Handler::Greet,
        );
        assert(first is Ok && second is Ok);
        assert(tool_router@ =~= standard_tools());
        GreetService { tool_router }
    }

    /// The increment handler: the successor of the number, in decimal.
    pub fn greet(&self, req: GreetRequest) -> (text: String)
        ensures
            text@ == decimal_text(successor(req.number as int)),
    {
        let next: i32 = if req.number == i32::MAX {
            i32::MIN
        } else {
            req.number + 1
        };
        integer_to_string(next)
    }

    /// The greeting handler. It never fails at the protocol level: a name that
    /// is too short is answered with a failure envelope.
    pub fn meet(&self, req: MeetRequest) -> (r: Result<ToolResult, DispatchError>)
        ensures
            r matches Ok(t) && t@ == greeting_envelope(req.name@),
    {
        if req.name.as_str().as_bytes().len() < 10 {
            Ok(ToolResult::failure_text(String::from_str("name too short")))
        } else {
            let mut text = String::from_str("Hello, ");
            text.append(req.name.as_str());
            text.append("! Nice to meet you!");
            Ok(ToolResult::from_text(text))
        }
    }

    /// Routes a call: finds the tool, validates the payload against its
    /// schema, reads the handler's parameters, runs the handler and wraps what
    /// it hands back.
    pub fn dispatch(&self, name: &str, payload: &Payload) -> (r: Result<ToolResult, DispatchError>)
        ensures
            match r {
                Ok(t) => outcome(self@, name@, payload@) == Ok::<Envelope, DispatchError>(t@),
                Err(e) => outcome(self@, name@, payload@) == Err::<Envelope, DispatchError>(e),
            },
    {
        let index = match self.tool_router.find(name) {
            Some(index) => index,
            None => {
                return Err(DispatchError::UnknownTool);
            },
        };
        let tool = &self.tool_router.tools[index];
        assert(self@[index as int] == tool@);
        if !validate(payload, &tool.descriptor.schema) {
            return Err(DispatchError::InvalidParameters);
        }
        match tool.handler {
            Handler::Increment => match GreetRequest::decode(payload) {
                Some(req) => Ok(ToolResult::from_text(self.greet(req))),
                None => Err(DispatchError::InvalidParameters),
            },
            Handler::Greet => match MeetRequest::decode(payload) {
                Some(req) => self.meet(req),
                None => Err(DispatchError::InvalidParameters),
            },
        }
    }

    /// The service's metadata: its instructions and the tools it offers.
    pub fn get_info(&self) -> (info: ServerInfo)
        ensures
            info.instructions@ == instructions_text(),
            info.tools@.len() == self@.len(),
            forall|i: int|
                0 <= i < info.tools@.len() ==> (#[trigger] info.tools@[i])@ == self@[i].descriptor,
    {
        ServerInfo {
            instructions: String::from_str(
                "A simple MCP service that provides greeting and number manipulation tools. Includes 'increment' for incrementing numbers and 'greet' for generating personalized greetings.",
            ),
            tools: self.tool_router.descriptors(),
        }
    }
}

/// Fields conform to the shape that a handler declares exactly when they hold
/// the one parameter that the handler reads.
pub proof fn conforms_to_handler(fields: Fields)
    ensures
        conforms(fields, Handler::Increment.shape()) <==> integer_at(fields, "number"@) is Some,
        conforms(fields, Handler::Greet.shape()) <==> text_at(fields, "name"@) is Some,
{
    let inc = Handler::Increment.shape();
    let gre = Handler::Greet.shape();
    assert(inc.len() == 1 && inc[0] == ("number"@, ParamKind::Integer));
    assert(gre.len() == 1 && gre[0] == ("name"@, ParamKind::Text));
    assert(conforms(fields, inc) <==> holds(fields, inc[0])) by {
        if holds(fields, inc[0]) {
            assert forall|i: int| 0 <= i < inc.len() implies holds(fields, #[trigger] inc[i]) by {
                assert(i == 0);
            }
        }
    }
    assert(conforms(fields, gre) <==> holds(fields, gre[0])) by {
        if holds(fields, gre[0]) {
            assert forall|i: int| 0 <= i < gre.len() implies holds(fields, #[trigger] gre[i]) by {
                assert(i == 0);
            }
        }
    }
}

/// The two tools of the service are well formed, and exactly the names
/// `increment` and `greet` are registered.
pub proof fn standard_tools_are_well_formed(name: Seq<char>)
    ensures
        well_formed(standard_tools()),
        tool_names(standard_tools()) == seq!["increment"@, "greet"@],
        tool_names(standard_tools()).contains(name) <==> (name == "increment"@ || name
            == "greet"@),
{
    let names = tool_names(standard_tools());
    reveal_strlit("increment");
    reveal_strlit("greet");
    assert("increment"@.len() != "greet"@.len());
    assert(names =~= seq!["increment"@, "greet"@]);
    assert(names[0] == "increment"@ && names[1] == "greet"@);
    if name == "increment"@ || name == "greet"@ {
        assert(names.contains(name));
    }
}

/// A call of `increment` with a 32-bit `number` is answered with a success
/// that holds the number's successor in decimal; the successor of the largest
/// value is the smallest. Without such a `number` the call is refused.
pub proof fn increment_answers_successor(fields: Fields)
    ensures
        match integer_at(fields, "number"@) {
            Some(n) => {
                &&& outcome(standard_tools(), "increment"@, fields) == Ok::<
                    Envelope,
                    DispatchError,
                >(Envelope::Success(seq![decimal_text(successor(n))]))
                &&& n < i32::MAX ==> successor(n) == n + 1
                &&& n == i32::MAX ==> successor(n) == i32::MIN
            },
            None => outcome(standard_tools(), "increment"@, fields) == Err::<
                Envelope,
                DispatchError,
            >(DispatchError::InvalidParameters),
        },
{
    standard_tools_are_well_formed("increment"@);
    first_of_in_distinct(tool_names(standard_tools()), "increment"@, 0);
    conforms_to_handler(fields);
}

/// A call of `greet` with a string `name` is answered with a failure where the
/// name has fewer than ten bytes, and else with a success whose one text is
/// the greeting, which holds the name unchanged after its first seven
/// characters. Without such a `name` the call is refused.
pub proof fn greet_answers_by_length(fields: Fields)
    ensures
        match text_at(fields, "name"@) {
            Some(name) => {
                &&& outcome(standard_tools(), "greet"@, fields) == Ok::<Envelope, DispatchError>(
                    greeting_envelope(name),
                )
                &&& byte_length(name) < 10 ==> greeting_envelope(name) == Envelope::Failure(
                    seq!["name too short"@],
                )
                &&& byte_length(name) >= 10 ==> greeting_envelope(name) == Envelope::Success(
                    seq![greeting(name)],
                )
                &&& greeting(name).subrange(7, 7 + name.len() as int) == name
            },
            None => outcome(standard_tools(), "greet"@, fields) == Err::<Envelope, DispatchError>(
                DispatchError::InvalidParameters,
            ),
        },
{
    standard_tools_are_well_formed("greet"@);
    first_of_in_distinct(tool_names(standard_tools()), "greet"@, 1);
    conforms_to_handler(fields);
    if let Some(name) = text_at(fields, "name"@) {
        reveal_strlit("Hello, ");
        assert(greeting(name).subrange(7, 7 + name.len() as int) =~= name);
    }
}

/// A call of a name that is not registered is refused as an unknown tool,
/// whatever the payload; and only such a call is.
pub proof fn unknown_tool_is_refused(tools: Seq<ToolView>, name: Seq<char>, fields: Fields)
    ensures
        !tool_names(tools).contains(name) <==> outcome(tools, name, fields) == Err::<
            Envelope,
            DispatchError,
        >(DispatchError::UnknownTool),
{
    first_of_finds_contained(tool_names(tools), name);
}

/// A call of a registered tool whose payload has no field of one of the
/// tool's parameters is refused for its parameters.
pub proof fn missing_parameter_is_refused(
    tools: Seq<ToolView>,
    fields: Fields,
    i: int,
    k: int,
)
    requires
        well_formed(tools),
        0 <= i < tools.len(),
        0 <= k < tools[i].handler.shape().len(),
        !field_names(fields).contains(tools[i].handler.shape()[k].0),
    ensures
        outcome(tools, tools[i].descriptor.name, fields) == Err::<Envelope, DispatchError>(
            DispatchError::InvalidParameters,
        ),
{
    let name = tools[i].descriptor.name;
    assert(tool_names(tools)[i] == name);
    first_of_in_distinct(tool_names(tools), name, i);
    missing_field_does_not_conform(fields, tools[i].descriptor.shape, k);
}

/// On a well-formed registry a call never reaches a handler with fields that
/// its schema did not accept: the outcome is a success or a failure envelope
/// exactly when the tool is registered and the fields conform to its schema.
pub proof fn answered_iff_valid(tools: Seq<ToolView>, name: Seq<char>, fields: Fields)
    requires
        well_formed(tools),
    ensures
        outcome(tools, name, fields) is Ok <==> (exists|i: int|
            0 <= i < tools.len() && (#[trigger] tools[i]).descriptor.name == name && conforms(
                fields,
                tools[i].descriptor.shape,
            )),
{
    let names = tool_names(tools);
    first_of_is_least(names, name, 0);
    conforms_to_handler(fields);
    if outcome(tools, name, fields) is Ok {
        let i = first_of(names, name, 0).unwrap();
        assert(names[i] == name);
        assert(tools[i].descriptor.name == name && conforms(fields, tools[i].descriptor.shape));
    }
    if exists|i: int|
        0 <= i < tools.len() && (#[trigger] tools[i]).descriptor.name == name && conforms(
            fields,
            tools[i].descriptor.shape,
        ) {
        let i = choose|i: int|
            0 <= i < tools.len() && (#[trigger] tools[i]).descriptor.name == name && conforms(
                fields,
                tools[i].descriptor.shape,
            );
        assert(names[i] == name);
        first_of_in_distinct(names, name, i);
    }
}

/// The order of registration decides nothing: two well-formed registries
/// that hold the same tools come to the same outcome on every call.
pub proof fn outcome_ignores_order(
    a: Seq<ToolView>,
    b: Seq<ToolView>,
    name: Seq<char>,
    fields: Fields,
)
    requires
        well_formed(a),
        well_formed(b),
        forall|i: int| 0 <= i < a.len() ==> b.contains(#[trigger] a[i]),
        forall|j: int| 0 <= j < b.len() ==> a.contains(#[trigger] b[j]),
    ensures
        outcome(a, name, fields) == outcome(b, name, fields),
{
    first_of_is_least(tool_names(a), name, 0);
    first_of_is_least(tool_names(b), name, 0);
    match first_of(tool_names(a), name, 0) {
        Some(i) => {
            assert(tool_names(a)[i] == name);
            assert(b.contains(a[i]));
            let j = choose|j: int| 0 <= j < b.len() && b[j] == a[i];
            assert(tool_names(b)[j] == name);
            first_of_in_distinct(tool_names(b), name, j);
        },
        None => {
            if first_of(tool_names(b), name, 0) is Some {
                let j = first_of(tool_names(b), name, 0).unwrap();
                assert(tool_names(b)[j] == name);
                assert(a.contains(b[j]));
                let i = choose|i: int| 0 <= i < a.len() && a[i] == b[j];
                assert(tool_names(a)[i] == name);
            }
        },
    }
}

/// Fields that no handler reads are ignored: on a well-formed registry a
/// field of another name than `number` and `name`, added after the others,
/// changes the outcome of no call.
pub proof fn outcome_ignores_unread_field(
    tools: Seq<ToolView>,
    name: Seq<char>,
    fields: Fields,
    extra: (Seq<char>, ValueView),
)
    requires
        well_formed(tools),
        extra.0 != "number"@,
        extra.0 != "name"@,
    ensures
        outcome(tools, name, fields.push(extra)) == outcome(tools, name, fields),
{
    lookup_ignores_other_names(fields, extra, "number"@);
    lookup_ignores_other_names(fields, extra, "name"@);
    conforms_to_handler(fields);
    conforms_to_handler(fields.push(extra));
    first_of_is_least(tool_names(tools), name, 0);
}

} // verus!
