//! Commands of the engine, their text, and the builder that assembles a
//! command from the parameters a user enters one by one.
use vstd::prelude::*;

use crate::attr::Attribute;
use crate::object::{ObjectKind, ObjectReference, PoolId};
use crate::patch::{AttributeValue, FixtureId};
use crate::text::{dec32, dec_i32, push_i32, push_u32};

verus! {

/// A command keyword.
#[derive(Debug, Clone, Copy, PartialEq, Eq, Structural)]
pub enum Keyword {
    Select,
    Clear,
    Store,
    Update,
    Delete,
    Rename,
    Go,
    SetValue,
    At,
    Attribute,
    Save,
}

impl Keyword {
    /// The keyword as it is written.
    pub open spec fn name(self) -> Seq<char> {
        match self {
            Keyword::Select => "select"@,
            Keyword::Clear => "clear"@,
            Keyword::Store => "store"@,
            Keyword::Update => "update"@,
            Keyword::Delete => "delete"@,
            Keyword::Rename => "rename"@,
            Keyword::Go => "go"@,
            Keyword::SetValue => "set"@,
            Keyword::At => "at"@,
            Keyword::Attribute => "attribute"@,
            Keyword::Save => "save"@,
        }
    }

    /// The keyword as it is written.
    pub fn to_text(&self) -> (r: String)
        ensures
            r@ == self.name(),
    {
        match self {
            Keyword::Select => String::from_str("select"),
            Keyword::Clear => String::from_str("clear"),
            Keyword::Store => String::from_str("store"),
            Keyword::Update => String::from_str("update"),
            Keyword::Delete => String::from_str("delete"),
            Keyword::Rename => String::from_str("rename"),
            Keyword::Go => String::from_str("go"),
            Keyword::SetValue => String::from_str("set"),
            Keyword::At => String::from_str("at"),
            Keyword::Attribute => String::from_str("attribute"),
            Keyword::Save => String::from_str("save"),
        }
    }
}

/// What a command selects.
#[derive(Debug, Clone, Copy, PartialEq, Eq, Structural)]
pub enum Selection {
    FixtureId(FixtureId),
    Object(ObjectReference),
    All,
    Nothing,
}

/// The text of an object reference: its kind and its pool id.
pub open spec fn obj_ref_text(r: ObjectReference) -> Seq<char> {
    r.kind.name() + seq![' '] + dec32(r.pool_id.value())
}

/// The text of a selection.
pub open spec fn selection_text(s: Selection) -> Seq<char> {
    match s {
        Selection::FixtureId(f) => dec32(f.0),
        Selection::Object(r) => obj_ref_text(r),
        Selection::All => "all"@,
        Selection::Nothing => "none"@,
    }
}

/// Appends the text of an object reference.
fn push_obj_ref(s: &mut String, r: &ObjectReference)
    ensures
        final(s)@ == old(s)@ + obj_ref_text(*r),
{
    let k = r.kind.to_text();
    s.append(k.as_str());
    s.append(" ");
    push_u32(s, r.pool_id.get());
    proof {
        reveal_strlit(" ");
    }
    assert(s@ =~= old(s)@ + obj_ref_text(*r));
}

/// Appends the text of a selection.
fn push_selection(s: &mut String, sel: &Selection)
    ensures
        final(s)@ == old(s)@ + selection_text(*sel),
{
    match sel {
        Selection::FixtureId(f) => push_u32(s, f.0),
        Selection::Object(r) => push_obj_ref(s, r),
        Selection::All => {
            s.append("all");
        },
        Selection::Nothing => {
            s.append("none");
        },
    }
}

/// One parameter of a command, as the user enters it.
#[derive(Debug, Clone)]
pub enum Parameter {
    Keyword(Keyword),
    Selection(Selection),
    ObjectKind(ObjectKind),
    Integer(i32),
    String(String),
    PoolId(PoolId),
}

/// The text of a parameter.
pub open spec fn parameter_text(p: Parameter) -> Seq<char> {
    match p {
        Parameter::Keyword(k) => k.name(),
        Parameter::Selection(s) => selection_text(s),
        Parameter::ObjectKind(k) => k.name(),
        Parameter::Integer(i) => dec_i32(i),
        Parameter::String(s) => s@,
        Parameter::PoolId(p) => dec32(p.value()),
    }
}

impl Parameter {
    /// A copy of this parameter.
    pub fn duplicate(&self) -> (r: Parameter)
        ensures
            r == *self,
    {
        match self {
            Parameter::Keyword(k) => Parameter::Keyword(*k),
            Parameter::Selection(s) => Parameter::Selection(*s),
            Parameter::ObjectKind(k) => Parameter::ObjectKind(*k),
            Parameter::Integer(i) => Parameter::Integer(*i),
            Parameter::String(s) => Parameter::String(s.clone()),
            Parameter::PoolId(p) => Parameter::PoolId(*p),
        }
    }

    /// The pool id the parameter stands for: a positive integer or a pool id.
    pub fn try_into_pool_id(self) -> (r: Result<PoolId, CommandError>)
        ensures
            match self {
                Parameter::Integer(i) => if i > 0 {
                    r matches Ok(p) && p.value() == i
                } else {
                    r == Err::<PoolId, CommandError>(CommandError::ExpectedPoolId)
                },
                Parameter::PoolId(p) => r == Ok::<PoolId, CommandError>(p),
                _ => r == Err::<PoolId, CommandError>(CommandError::ExpectedPoolId),
            },
    {
        match self {
            Parameter::Integer(i) => {
                if i > 0 {
                    Ok(PoolId::new(i as u32))
                } else {
                    Err(CommandError::ExpectedPoolId)
                }
            },
            Parameter::PoolId(p) => Ok(p),
            _ => Err(CommandError::ExpectedPoolId),
        }
    }
}

/// Appends the text of a parameter.
fn push_parameter(s: &mut String, p: &Parameter)
    ensures
        final(s)@ == old(s)@ + parameter_text(*p),
{
    match p {
        Parameter::Keyword(k) => {
            let t = k.to_text();
            s.append(t.as_str());
        },
        Parameter::Selection(sel) => push_selection(s, sel),
        Parameter::ObjectKind(k) => {
            let t = k.to_text();
            s.append(t.as_str());
        },
        Parameter::Integer(i) => push_i32(s, *i),
        Parameter::String(x) => {
            s.append(x.as_str());
        },
        Parameter::PoolId(pid) => push_u32(s, pid.get()),
    }
}

/// A command of the engine.
#[derive(Debug, Clone)]
pub enum Command {
    Select { selection: Selection },
    Clear,
    Store { destination: ObjectReference },
    Update { object: ObjectReference },
    Delete { object: ObjectReference },
    Rename { object: ObjectReference, name: String },
    Recall { object: ObjectReference },
    Go { executor: ObjectReference },
    SetAttribute { fid: FixtureId, attribute: Attribute, value: AttributeValue },
    Save,
}

/// The text of a command; a command that sets an attribute has none.
pub open spec fn command_text(c: Command) -> Seq<char> {
    match c {
        Command::Select { selection } => "select "@ + selection_text(selection),
        Command::Clear => "clear"@,
        Command::Store { destination } => "store "@ + obj_ref_text(destination),
        Command::Update { object } => "update "@ + obj_ref_text(object),
        Command::Delete { object } => "delete "@ + obj_ref_text(object),
        Command::Rename { object, name } => "label "@ + obj_ref_text(object) + " \""@ + name@
            + "\""@,
        Command::Recall { object } => "recall "@ + obj_ref_text(object),
        Command::Go { executor } => "go "@ + obj_ref_text(executor),
        Command::SetAttribute { .. } => Seq::empty(),
        Command::Save => "save"@,
    }
}

impl Command {
    /// The command as it is written. A command that sets an attribute has no
    /// written form.
    pub fn to_text(&self) -> (r: String)
        requires
            !(*self is SetAttribute),
        ensures
            r@ == command_text(*self),
    {
        let mut s = String::new();
        match self {
            Command::Select { selection } => {
                s.append("select ");
                push_selection(&mut s, selection);
            },
            Command::Clear => {
                s.append("clear");
            },
            Command::Store { destination } => {
                s.append("store ");
                push_obj_ref(&mut s, destination);
            },
            Command::Update { object } => {
                s.append("update ");
                push_obj_ref(&mut s, object);
            },
            Command::Delete { object } => {
                s.append("delete ");
                push_obj_ref(&mut s, object);
            },
            Command::Rename { object, name } => {
                s.append("label ");
                push_obj_ref(&mut s, object);
                s.append(" \"");
                s.append(name.as_str());
                s.append("\"");
            },
            Command::Recall { object } => {
                s.append("recall ");
                push_obj_ref(&mut s, object);
            },
            Command::Go { executor } => {
                s.append("go ");
                push_obj_ref(&mut s, executor);
            },
            Command::SetAttribute { .. } => {},
            Command::Save => {
                s.append("save");
            },
        }
        assert(s@ =~= command_text(*self));
        s
    }

    /// A copy of this command.
    pub fn duplicate(&self) -> (r: Command)
        ensures
            r == *self,
    {
        match self {
            Command::Select { selection } => Command::Select { selection: *selection },
            Command::Clear => Command::Clear,
            Command::Store { destination } => Command::Store { destination: *destination },
            Command::Update { object } => Command::Update { object: *object },
            Command::Delete { object } => Command::Delete { object: *object },
            Command::Rename { object, name } => Command::Rename {
                object: *object,
                name: name.clone(),
            },
            Command::Recall { object } => Command::Recall { object: *object },
            Command::Go { executor } => Command::Go { executor: *executor },
            Command::SetAttribute { fid, attribute, value } => Command::SetAttribute {
                fid: *fid,
                attribute: attribute.duplicate(),
                value: *value,
            },
            Command::Save => Command::Save,
        }
    }
}

/// Why parameters do not make a command.
#[derive(Debug, Clone, Copy, PartialEq, Eq, Structural)]
pub enum CommandError {
    MissingObjectKind,
    ExpectedObjectKind,
    MissingPoolId,
    ExpectedPoolId,
    MissingSelection,
    ExpectedSelection,
    MissingString,
    ExpectedString,
    /// The first parameter starts no command.
    UnexpectedStart,
}

/// The object reference read from the parameters at `i` and `i + 1`: `r` is
/// what reading it gives.
pub open spec fn reads_obj_ref(ps: Seq<Parameter>, i: int, r: Result<ObjectReference, CommandError>) -> bool {
    if i >= ps.len() {
        r == Err::<ObjectReference, CommandError>(CommandError::MissingObjectKind)
    } else {
        match ps[i] {
            Parameter::ObjectKind(k) => if i + 1 >= ps.len() {
                r == Err::<ObjectReference, CommandError>(CommandError::MissingPoolId)
            } else {
                match ps[i + 1] {
                    Parameter::Integer(n) => if n > 0 {
                        r matches Ok(o) && o.kind == k && o.pool_id.value() == n
                    } else {
                        r == Err::<ObjectReference, CommandError>(CommandError::ExpectedPoolId)
                    },
                    Parameter::PoolId(p) => r == Ok::<ObjectReference, CommandError>(
                        ObjectReference { kind: k, pool_id: p },
                    ),
                    _ => r == Err::<ObjectReference, CommandError>(CommandError::ExpectedPoolId),
                }
            },
            _ => r == Err::<ObjectReference, CommandError>(CommandError::ExpectedObjectKind),
        }
    }
}

/// `r` is what resolving the parameters `ps` gives.
pub open spec fn resolves_to(ps: Seq<Parameter>, r: Result<Option<Command>, CommandError>) -> bool {
    if ps.len() == 0 {
        r == Ok::<Option<Command>, CommandError>(None)
    } else {
        match ps[0] {
            Parameter::Keyword(Keyword::Select) => if ps.len() < 2 {
                r == Err::<Option<Command>, CommandError>(CommandError::MissingSelection)
            } else {
                match ps[1] {
                    Parameter::Selection(s) => r == Ok::<Option<Command>, CommandError>(
                        Some(Command::Select { selection: s }),
                    ),
                    _ => r == Err::<Option<Command>, CommandError>(CommandError::ExpectedSelection),
                }
            },
            Parameter::Keyword(Keyword::Clear) => r == Ok::<Option<Command>, CommandError>(
                Some(Command::Clear),
            ),
            Parameter::Keyword(Keyword::Save) => r == Ok::<Option<Command>, CommandError>(
                Some(Command::Save),
            ),
            Parameter::Keyword(Keyword::Store) => reads_command(ps, r, |o: ObjectReference| Command::Store { destination: o }),
            Parameter::Keyword(Keyword::Update) => reads_command(ps, r, |o: ObjectReference| Command::Update { object: o }),
            Parameter::Keyword(Keyword::Delete) => reads_command(ps, r, |o: ObjectReference| Command::Delete { object: o }),
            Parameter::Keyword(Keyword::Go) => reads_command(ps, r, |o: ObjectReference| Command::Go { executor: o }),
            Parameter::Keyword(Keyword::Rename) => exists|o: Result<ObjectReference, CommandError>|
                reads_obj_ref(ps, 1, o) && match o {
                    Err(e) => r == Err::<Option<Command>, CommandError>(e),
                    Ok(obj) => if ps.len() < 4 {
                        r == Err::<Option<Command>, CommandError>(CommandError::MissingString)
                    } else {
                        match ps[3] {
                            Parameter::String(name) => r == Ok::<Option<Command>, CommandError>(
                                Some(Command::Rename { object: obj, name }),
                            ),
                            _ => r == Err::<Option<Command>, CommandError>(CommandError::ExpectedString),
                        }
                    },
                },
            _ => r == Err::<Option<Command>, CommandError>(CommandError::UnexpectedStart),
        }
    }
}

/// `r` is the command `make` builds from the object reference at 1, or the
/// error of reading it.
pub open spec fn reads_command(
    ps: Seq<Parameter>,
    r: Result<Option<Command>, CommandError>,
    make: spec_fn(ObjectReference) -> Command,
) -> bool {
    exists|o: Result<ObjectReference, CommandError>|
        reads_obj_ref(ps, 1, o) && match o {
            Err(e) => r == Err::<Option<Command>, CommandError>(e),
            Ok(obj) => r == Ok::<Option<Command>, CommandError>(Some(make(obj))),
        }
}

/// Assembles a command from parameters entered one by one.
#[derive(Debug)]
pub struct CommandBuilder {
    parameters: Vec<Parameter>,
}

impl CommandBuilder {
    /// The parameters entered so far.
    pub closed spec fn params(self) -> Seq<Parameter> {
        self.parameters@
    }

    /// A builder with no parameters.
    pub fn new() -> (r: CommandBuilder)
        ensures
            r.params().len() == 0,
    {
        CommandBuilder { parameters: Vec::new() }
    }

    /// Adds a parameter.
    pub fn process_param(&mut self, parameter: Parameter)
        ensures
            final(self).params() == old(self).params().push(parameter),
    {
        self.parameters.push(parameter);
    }

    /// Whether the parameters make a complete command that needs nothing
    /// more: `clear` or `save` alone.
    pub fn is_complete(&self) -> (r: bool)
        ensures
            r == (self.params().len() == 1 && (self.params()[0] == Parameter::Keyword(Keyword::Clear)
                || self.params()[0] == Parameter::Keyword(Keyword::Save))),
    {
        if self.parameters.len() != 1 {
            return false;
        }
        match &self.parameters[0] {
            Parameter::Keyword(Keyword::Clear) => true,
            Parameter::Keyword(Keyword::Save) => true,
            _ => false,
        }
    }

    /// The first parameter, where it is a keyword.
    pub fn first_keyword(&self) -> (r: Option<Keyword>)
        ensures
            match r {
                Some(k) => self.params().len() > 0 && self.params()[0] == Parameter::Keyword(k),
                None => self.params().len() == 0 || !(self.params()[0] is Keyword),
            },
    {
        if self.parameters.len() == 0 {
            return None;
        }
        match &self.parameters[0] {
            Parameter::Keyword(k) => Some(*k),
            _ => None,
        }
    }

    /// The object reference at `i` and `i + 1`.
    fn read_obj_ref(&self, i: usize) -> (r: Result<ObjectReference, CommandError>)
        requires
            i == 1,
        ensures
            reads_obj_ref(self.params(), i as int, r),
    {
        let n = self.parameters.len();
        if i >= n {
            return Err(CommandError::MissingObjectKind);
        }
        let kind = match &self.parameters[i] {
            Parameter::ObjectKind(k) => *k,
            _ => {
                return Err(CommandError::ExpectedObjectKind);
            },
        };
        if i + 1 >= n {
            return Err(CommandError::MissingPoolId);
        }
        let pool_id = match self.parameters[i + 1].duplicate().try_into_pool_id() {
            Ok(p) => p,
            Err(e) => {
                return Err(e);
            },
        };
        Ok(ObjectReference { kind, pool_id })
    }

    /// The command the parameters make: none for no parameters, or why they
    /// make none. Parameters after a complete command are not read.
    pub fn resolve(&mut self) -> (r: Result<Option<Command>, CommandError>)
        ensures
            final(self).params() == old(self).params(),
            resolves_to(old(self).params(), r),
    {
        let n = self.parameters.len();
        if n == 0 {
            return Ok(None);
        }
        let first = match &self.parameters[0] {
            Parameter::Keyword(k) => *k,
            _ => {
                return Err(CommandError::UnexpectedStart);
            },
        };
        match first {
            Keyword::Select => {
                if n < 2 {
                    return Err(CommandError::MissingSelection);
                }
                match &self.parameters[1] {
                    Parameter::Selection(s) => Ok(Some(Command::Select { selection: *s })),
                    _ => Err(CommandError::ExpectedSelection),
                }
            },
            Keyword::Clear => Ok(Some(Command::Clear)),
            Keyword::Save => Ok(Some(Command::Save)),
            Keyword::Store => {
                let o = self.read_obj_ref(1);
                match o {
                    Ok(obj) => Ok(Some(Command::Store { destination: obj })),
                    Err(e) => Err(e),
                }
            },
            Keyword::Update => {
                let o = self.read_obj_ref(1);
                match o {
                    Ok(obj) => Ok(Some(Command::Update { object: obj })),
                    Err(e) => Err(e),
                }
            },
            Keyword::Delete => {
                let o = self.read_obj_ref(1);
                match o {
                    Ok(obj) => Ok(Some(Command::Delete { object: obj })),
                    Err(e) => Err(e),
                }
            },
            Keyword::Go => {
                let o = self.read_obj_ref(1);
                match o {
                    Ok(obj) => Ok(Some(Command::Go { executor: obj })),
                    Err(e) => Err(e),
                }
            },
            Keyword::Rename => {
                let o = self.read_obj_ref(1);
                match o {
                    Err(e) => Err(e),
                    Ok(obj) => {
                        if n < 4 {
                            return Err(CommandError::MissingString);
                        }
                        match &self.parameters[3] {
                            Parameter::String(name) => Ok(
                                Some(Command::Rename { object: obj, name: name.clone() }),
                            ),
                            _ => Err(CommandError::ExpectedString),
                        }
                    },
                }
            },
            _ => Err(CommandError::UnexpectedStart),
        }
    }

    /// Removes all parameters.
    pub fn clear(&mut self)
        ensures
            final(self).params().len() == 0,
    {
        self.parameters = Vec::new();
    }

    /// The parameters' texts, joined by single spaces.
    pub fn to_text(&self) -> (r: String)
        ensures
            r@ == params_text(self.params()),
    {
        let mut s = String::new();
        let n = self.parameters.len();
        for i in 0..n
            invariant
                n == self.parameters@.len(),
                s@ == params_text(self.parameters@.subrange(0, i as int)),
        {
            if i > 0 {
                s.append(" ");
            }
            push_parameter(&mut s, &self.parameters[i]);
            proof {
                reveal_strlit(" ");
                assert(self.parameters@.subrange(0, i + 1).drop_last() =~= self.parameters@.subrange(
                    0,
                    i as int,
                ));
            }
        }
        assert(self.parameters@.subrange(0, n as int) =~= self.parameters@);
        s
    }
}

/// The parameters' texts, joined by single spaces.
pub open spec fn params_text(ps: Seq<Parameter>) -> Seq<char>
    decreases ps.len(),
{
    if ps.len() == 0 {
        Seq::empty()
    } else if ps.len() == 1 {
        parameter_text(ps[0])
    } else {
        params_text(ps.drop_last()) + seq![' '] + parameter_text(ps.last())
    }
}

} // verus!
