//! The arguments of a call, and the contracts that operations publish for
//! the outer schema: which arguments they take and what their field yields.

use vstd::prelude::*;

verus! {

/// The value of one argument.
#[derive(Debug, PartialEq)]
pub enum ArgumentValue {
    String(String),
    Int(i32),
}

/// What an `ArgumentValue` holds.
pub enum ArgumentValueView {
    String(Seq<char>),
    Int(i32),
}

impl View for ArgumentValue {
    type V = ArgumentValueView;

    open spec fn view(&self) -> ArgumentValueView {
        match self {
            ArgumentValue::String(s) => ArgumentValueView::String(s@),
            ArgumentValue::Int(n) => ArgumentValueView::Int(*n),
        }
    }
}

/// The arguments that a caller supplied, by name.
#[derive(Debug, PartialEq)]
pub struct Arguments {
    pub values: Vec<(String, ArgumentValue)>,
}

impl View for Arguments {
    type V = Seq<(Seq<char>, ArgumentValueView)>;

    open spec fn view(&self) -> Seq<(Seq<char>, ArgumentValueView)> {
        Seq::new(self.values@.len(), |i: int| (self.values@[i].0@, self.values@[i].1@))
    }
}

/// The value supplied first under `name`, if there is one.
pub open spec fn argument_value(
    arguments: Seq<(Seq<char>, ArgumentValueView)>,
    name: Seq<char>,
) -> Option<ArgumentValueView>
    decreases arguments.len(),
{
    if arguments.len() == 0 {
        None
    } else if arguments[0].0 == name {
        Some(arguments[0].1)
    } else {
        argument_value(arguments.subrange(1, arguments.len() as int), name)
    }
}

/// The argument `name` read as a string: absent where nothing was supplied
/// under that name, or something that is no string.
pub open spec fn string_argument(
    arguments: Seq<(Seq<char>, ArgumentValueView)>,
    name: Seq<char>,
) -> Option<Seq<char>> {
    match argument_value(arguments, name) {
        Some(ArgumentValueView::String(s)) => Some(s),
        _ => None,
    }
}

/// The argument `name` read as an integer: absent where nothing was
/// supplied under that name, or something that is no integer.
pub open spec fn int_argument(
    arguments: Seq<(Seq<char>, ArgumentValueView)>,
    name: Seq<char>,
) -> Option<i32> {
    match argument_value(arguments, name) {
        Some(ArgumentValueView::Int(n)) => Some(n),
        _ => None,
    }
}

impl Arguments {
    /// No arguments.
    pub fn new() -> (arguments: Arguments)
        ensures
            arguments@ == Seq::<(Seq<char>, ArgumentValueView)>::empty(),
    {
        let arguments = Arguments { values: Vec::new() };
        assert(arguments@ =~= Seq::<(Seq<char>, ArgumentValueView)>::empty());
        arguments
    }

    /// Supplies `value` under `name`, behind what was supplied already.
    pub fn insert(&mut self, name: String, value: ArgumentValue)
        ensures
            final(self)@ == old(self)@.push((name@, value@)),
    {
        self.values.push((name, value));
        assert(self@ =~= old(self)@.push((name@, value@)));
    }

    /// Looks an argument up by its name.
    fn find(&self, name: &str) -> (found: Option<&ArgumentValue>)
        ensures
            match found {
                Some(v) => argument_value(self@, name@) == Some(v@),
                None => argument_value(self@, name@).is_none(),
            },
    {
        let wanted = String::from_str(name);
        let mut i: usize = 0;
        assert(self@.subrange(0, self@.len() as int) =~= self@);
        while i < self.values.len()
            invariant
                i <= self.values.len(),
                wanted@ == name@,
                argument_value(self@, name@) == argument_value(
                    self@.subrange(i as int, self@.len() as int),
                    name@,
                ),
            decreases self.values.len() - i,
        {
            let ghost rest = self@.subrange(i as int, self@.len() as int);
            assert(rest[0] == self@[i as int]);
            assert(rest.subrange(1, rest.len() as int) =~= self@.subrange(
                i as int + 1,
                self@.len() as int,
            ));
            if self.values[i].0 == wanted {
                return Some(&self.values[i].1);
            }
            i += 1;
        }
        None
    }

    /// The argument `name`, where it is a string.
    pub fn get_string(&self, name: &str) -> (found: Option<String>)
        ensures
            match found {
                Some(s) => string_argument(self@, name@) == Some(s@),
                None => string_argument(self@, name@).is_none(),
            },
    {
        match self.find(name) {
            Some(ArgumentValue::String(s)) => Some(s.clone()),
            _ => None,
        }
    }

    /// The argument `name`, where it is an integer.
    pub fn get_int(&self, name: &str) -> (found: Option<i32>)
        ensures
            found == int_argument(self@, name@),
    {
        match self.find(name) {
            Some(ArgumentValue::Int(n)) => Some(*n),
            _ => None,
        }
    }
}

/// The types an argument can have.
#[derive(Clone, Copy, Debug, PartialEq, Eq)]
pub enum ArgumentType {
    /// An opaque identifier.
    Id,
    /// A 32-bit signed integer.
    Int,
}

/// One argument that an operation takes.
#[derive(Debug, PartialEq)]
pub struct Argument {
    pub name: String,
    pub arg_type: ArgumentType,
    pub required: bool,
}

/// What an operation's field yields.
#[derive(Clone, Copy, Debug, PartialEq, Eq)]
pub enum FieldType {
    /// One entity, or null.
    NullableEntity,
    /// A list of entities, never null.
    EntityList,
}

/// The field under which an operation is exposed.
#[derive(Debug, PartialEq)]
pub struct Field {
    pub name: String,
    pub field_type: FieldType,
    /// The name of the entity that the field yields.
    pub entity: String,
}

} // verus!
