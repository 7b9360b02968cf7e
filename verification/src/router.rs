//! The registry of tools: names bound to descriptors and handlers.

use crate::envelope::ConstructionError;
use crate::names::{distinct, first_of, first_of_finds_contained, first_of_is_least};
use crate::schema::{shape, DescriptorView, ParamKind, ParamSpec, Shape, ToolDescriptor};
use vstd::prelude::*;

verus! {

/// The handlers that a tool can be bound to.
#[derive(Debug, Clone, Copy, PartialEq, Eq, Structural)]
pub enum Handler {
    /// Takes the integer `number` and answers with its successor.
    Increment,
    /// Takes the string `name` and answers with a greeting.
    Greet,
}

impl Handler {
    /// The parameters that the handler declares.
    pub open spec fn shape(&self) -> Shape {
        match self {
            Handler::Increment => seq![("number"@, ParamKind::Integer)],
            Handler::Greet => seq![("name"@, ParamKind::Text)],
        }
    }

    /// The schema of the handler's parameters.
    pub fn schema(&self) -> (s: Vec<ParamSpec>)
        ensures
            shape(s@) == self.shape(),
    {
        let s = match self {
            Handler::Increment => vec![
                ParamSpec { name: String::from_str("number"), kind: ParamKind::Integer },
            ],
            Handler::Greet => vec![
                ParamSpec { name: String::from_str("name"), kind: ParamKind::Text },
            ],
        };
        assert(shape(s@) =~= self.shape());
        s
    }
}

/// A registered tool.
#[derive(Debug, Clone, PartialEq)]
pub struct Tool {
    pub descriptor: ToolDescriptor,
    pub handler: Handler,
}

/// The registry. It is filled before serving and only read afterwards.
#[derive(Debug, Clone, PartialEq)]
pub struct ToolRouter {
    pub tools: Vec<Tool>,
}

/// The mathematical value of a registered tool.
pub struct ToolView {
    pub descriptor: DescriptorView,
    pub handler: Handler,
}

impl View for Tool {
    type V = ToolView;

    open spec fn view(&self) -> ToolView {
        ToolView { descriptor: self.descriptor@, handler: self.handler }
    }
}

impl View for ToolRouter {
    type V = Seq<ToolView>;

    open spec fn view(&self) -> Seq<ToolView> {
        Seq::new(self.tools@.len(), |i: int| self.tools@[i]@)
    }
}

/// The tool that binds `handler` to `name`, with the schema that the handler
/// declares.
pub open spec fn tool_of(name: Seq<char>, description: Seq<char>, handler: Handler) -> ToolView {
    ToolView { descriptor: DescriptorView { name, description, shape: handler.shape() }, handler }
}

/// The names of the tools, in the order of registration.
pub open spec fn tool_names(tools: Seq<ToolView>) -> Seq<Seq<char>> {
    Seq::new(tools.len(), |i: int| tools[i].descriptor.name)
}

/// No two tools share a name, and each tool's schema is the one that its
/// handler declares.
pub open spec fn well_formed(tools: Seq<ToolView>) -> bool {
    &&& distinct(tool_names(tools))
    &&& forall|i: int|
        0 <= i < tools.len() ==> (#[trigger] tools[i]).descriptor.shape == tools[i].handler.shape()
}

/// A registry stays well formed when a tool of a new name is added.
pub proof fn registration_keeps_well_formed(
    tools: Seq<ToolView>,
    name: Seq<char>,
    description: Seq<char>,
    handler: Handler,
)
    requires
        well_formed(tools),
        !tool_names(tools).contains(name),
    ensures
        well_formed(tools.push(tool_of(name, description, handler))),
{
    let more = tools.push(tool_of(name, description, handler));
    assert forall|i: int, j: int| 0 <= i < j < more.len() implies tool_names(more)[i] != tool_names(
        more,
    )[j] by {
        if j < tools.len() {
            assert(tool_names(tools)[i] != tool_names(tools)[j]);
        } else {
            assert(tool_names(tools)[i] == more[i].descriptor.name);
        }
    }
    assert forall|i: int| 0 <= i < more.len() implies (#[trigger] more[i]).descriptor.shape
        == more[i].handler.shape() by {
        if i < tools.len() {
            assert(more[i] == tools[i]);
        }
    }
}

impl ToolRouter {
    /// Whether the registry is well formed.
    pub open spec fn wf(&self) -> bool {
        well_formed(self@)
    }

    /// A registry without tools.
    pub fn new() -> (r: ToolRouter)
        ensures
            r@ == Seq::<ToolView>::empty(),
            r.wf(),
    {
        let r = ToolRouter { tools: Vec::new() };
        assert(r@ =~= Seq::<ToolView>::empty());
        r
    }

    /// Looks a tool up by name.
    pub fn find(&self, name: &str) -> (r: Option<usize>)
        ensures
            match r {
                Some(i) => first_of(tool_names(self@), name@, 0) == Some(i as int) && i
                    < self.tools@.len(),
                None => first_of(tool_names(self@), name@, 0) is None,
            },
    {
        let wanted = String::from_str(name);
        let ghost names = tool_names(self@);
        let mut i: usize = 0;
        while i < self.tools.len()
            invariant
                i <= self.tools@.len(),
                wanted@ == name@,
                names == tool_names(self@),
                names.len() == self.tools@.len(),
                first_of(names, name@, 0) == first_of(names, name@, i as int),
            decreases self.tools.len() - i,
        {
            assert(names[i as int] == self.tools@[i as int].descriptor.name@);
            if self.tools[i].descriptor.name == wanted {
                return Some(i);
            }
            i += 1;
        }
        None
    }

    /// Registers a tool under `name`, with the schema that `handler` declares.
    /// A name that is taken is refused, and the registry stays as it was.
    pub fn register(&mut self, name: &str, description: &str, handler: Handler) -> (r: Result<
        (),
        ConstructionError,
    >)
        ensures
            r is Err <==> tool_names(old(self)@).contains(name@),
            r is Err ==> r == Err::<(), ConstructionError>(ConstructionError::DuplicateName)
                && *final(self) == *old(self),
            r is Ok ==> final(self)@ == old(self)@.push(tool_of(name@, description@, handler)),
            old(self).wf() ==> final(self).wf(),
    {
        proof {
            first_of_finds_contained(tool_names(self@), name@);
        }
        match self.find(name) {
            Some(_) => Err(ConstructionError::DuplicateName),
            None => {
                let tool = Tool {
                    descriptor: ToolDescriptor {
                        name: String::from_str(name),
                        description: String::from_str(description),
                        schema: handler.schema(),
                    },
                    handler,
                };
                self.tools.push(tool);
                proof {
                    assert(self@ =~= old(self)@.push(tool_of(name@, description@, handler)));
                    if old(self).wf() {
                        registration_keeps_well_formed(old(self)@, name@, description@, handler);
                    }
                }
                Ok(())
            },
        }
    }

    /// The descriptors of the registered tools, in the order of registration.
    pub fn descriptors(&self) -> (list: Vec<ToolDescriptor>)
        ensures
            list@.len() == self@.len(),
            forall|i: int| 0 <= i < list@.len() ==> (#[trigger] list@[i])@ == self@[i].descriptor,
    {
        let mut list: Vec<ToolDescriptor> = Vec::new();
        let mut i: usize = 0;
        while i < self.tools.len()
            invariant
                i <= self.tools@.len(),
                list@.len() == i,
                forall|j: int| 0 <= j < i ==> (#[trigger] list@[j])@ == self@[j].descriptor,
            decreases self.tools.len() - i,
        {
            let tool = &self.tools[i];
            let copy = ToolDescriptor {
                name: tool.descriptor.name.clone(),
                description: tool.descriptor.description.clone(),
                schema: copy_schema(&tool.descriptor.schema),
            };
            assert(copy@ == self@[i as int].descriptor);
            list.push(copy);
            i += 1;
        }
        list
    }
}

/// A copy of a schema.
fn copy_schema(schema: &Vec<ParamSpec>) -> (copy: Vec<ParamSpec>)
    ensures
        shape(copy@) == shape(schema@),
{
    let mut copy: Vec<ParamSpec> = Vec::new();
    let mut i: usize = 0;
    while i < schema.len()
        invariant
            i <= schema@.len(),
            copy@.len() == i,
            forall|j: int|
                0 <= j < i ==> (#[trigger] copy@[j]).name@ == schema@[j].name@ && copy@[j].kind
                    == schema@[j].kind,
        decreases schema.len() - i,
    {
        copy.push(ParamSpec { name: schema[i].name.clone(), kind: schema[i].kind });
        i += 1;
    }
    assert(shape(copy@) =~= shape(schema@));
    copy
}

} // verus!
