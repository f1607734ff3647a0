//! The values of the language and their mathematical form.

use crate::ast::expression::{clone_names, names_view, Identifier};
use crate::ast::statement::{BlockStatement, StmtView};
use crate::evaluate::build_in::BuildIn;
use crate::evaluate::environment::Environment;
use crate::evaluate::integer::{decimal_text, integer_to_string};
use vstd::prelude::*;
use vstd::string::StringExecFns;

verus! {

/// The mathematical form of a runtime value.
pub enum ValueView {
    Int(int),
    String(Seq<char>),
    Bool(bool),
    Null,
    Return(Box<ValueView>),
    Function { parameters: Seq<Seq<char>>, body: Seq<StmtView>, env: Map<Seq<char>, ValueView> },
    Error(Box<ValueView>),
    BuildIn(BuildIn),
    Array(Seq<ValueView>),
}

/// The tag of a runtime value, without what the value holds.
#[derive(Clone, Copy, Debug, PartialEq, Eq, Structural)]
pub enum ObjectKind {
    Int,
    String,
    Bool,
    Null,
    Return,
    Function,
    Error,
    BuildIn,
    Array,
}

impl ValueView {
    /// The tag of this value.
    pub open spec fn kind(self) -> ObjectKind {
        match self {
            ValueView::Int(_) => ObjectKind::Int,
            ValueView::String(_) => ObjectKind::String,
            ValueView::Bool(_) => ObjectKind::Bool,
            ValueView::Null => ObjectKind::Null,
            ValueView::Return(_) => ObjectKind::Return,
            ValueView::Function { .. } => ObjectKind::Function,
            ValueView::Error(_) => ObjectKind::Error,
            ValueView::BuildIn(_) => ObjectKind::BuildIn,
            ValueView::Array(_) => ObjectKind::Array,
        }
    }

    /// The value inside every return signal wrapped around it.
    pub open spec fn unwrapped(self) -> ValueView
        decreases self,
    {
        match self {
            ValueView::Return(inner) => inner.unwrapped(),
            _ => self,
        }
    }

    /// The value as it is shown to a reader: strings between quotes, return
    /// signals and error values with a prefix.
    pub open spec fn shown(self) -> Seq<char>
        decreases self,
    {
        match self {
            ValueView::Int(val) => decimal_text(val),
            ValueView::Bool(val) => if val {
                "true"@
            } else {
                "false"@
            },
            ValueView::Null => "null"@,
            ValueView::Return(val) => "ret "@ + val.shown(),
            ValueView::Function { .. } => "fn"@,
            ValueView::String(val) => "\""@ + val + "\""@,
            ValueView::BuildIn(_) => "build_in"@,
            ValueView::Error(val) => "err: "@ + val.shown(),
            ValueView::Array(val) => "["@ + shown_list(val, val.len()) + "]"@,
        }
    }

    /// The bare text of the value: as `shown`, but a string stands without
    /// quotes and a return signal or error value without its prefix.
    pub open spec fn raw(self) -> Seq<char> {
        match self {
            ValueView::String(val) => val,
            ValueView::Return(val) => val.shown(),
            ValueView::Error(val) => val.shown(),
            _ => self.shown(),
        }
    }
}

/// The first `count` values of `list` as they are shown, separated by `, `.
pub open spec fn shown_list(list: Seq<ValueView>, count: nat) -> Seq<char>
    decreases list, count,
{
    if count == 0 || count > list.len() {
        Seq::empty()
    } else if count == 1 {
        list[0].shown()
    } else {
        shown_list(list, (count - 1) as nat) + ", "@ + list[count - 1].shown()
    }
}

/// A runtime value.
#[derive(Debug)]
pub enum Object {
    Int(isize),
    String(String),
    Bool(bool),
    Null,
    /// The signal of an early return, around the value returned.
    Return(Box<Object>),
    /// A closure: parameters, body, and the scope captured when it was made.
    Function { parameters: Vec<Identifier>, body: BlockStatement, env: Environment },
    /// A failure held as a value.
    Error(Box<Object>),
    BuildIn(BuildIn),
    Array(Vec<Box<Object>>),
}

/// The views of the elements of an array value, in order.
pub open spec fn elements_view(list: &Vec<Box<Object>>) -> Seq<ValueView>
    decreases list,
{
    Seq::new(
        list.len() as nat,
        |i: int|
            if 0 <= i < list.len() {
                list[i]@
            } else {
                arbitrary()
            },
    )
}

impl Object {
    pub open spec fn view(&self) -> ValueView
        decreases self,
    {
        match self {
            Object::Int(val) => ValueView::Int(*val as int),
            Object::String(val) => ValueView::String(val@),
            Object::Bool(val) => ValueView::Bool(*val),
            Object::Null => ValueView::Null,
            Object::Return(val) => ValueView::Return(Box::new(val@)),
            Object::Function { parameters, body, env } => ValueView::Function {
                parameters: names_view(parameters@),
                body: body@,
                env: env@,
            },
            Object::Error(val) => ValueView::Error(Box::new(val@)),
            Object::BuildIn(val) => ValueView::BuildIn(*val),
            Object::Array(val) => ValueView::Array(elements_view(val)),
        }
    }
}

} // verus!

verus! {

/// A copy of the elements of an array value.
pub fn clone_elements(list: &Vec<Box<Object>>) -> (copy: Vec<Box<Object>>)
    ensures
        elements_view(&copy) == elements_view(list),
    decreases list,
{
    let mut copy: Vec<Box<Object>> = Vec::new();
    let mut index: usize = 0;
    while index < list.len()
        invariant
            index <= list.len(),
            copy.len() == index,
            forall|i: int| 0 <= i < index ==> (#[trigger] copy[i])@ == list[i]@,
        decreases list.len() - index,
    {
        let element: &Object = &list[index];
        copy.push(Box::new(element.clone()));
        index = index + 1;
    }
    assert(elements_view(&copy) =~= elements_view(list));
    copy
}

impl Object {
    pub open spec fn spec_kind(&self) -> ObjectKind {
        self@.kind()
    }

    /// The tag of this value.
    #[verifier::when_used_as_spec(spec_kind)]
    pub fn kind(&self) -> (k: ObjectKind)
        ensures
            k == self@.kind(),
    {
        match self {
            Object::Int(_) => ObjectKind::Int,
            Object::String(_) => ObjectKind::String,
            Object::Bool(_) => ObjectKind::Bool,
            Object::Null => ObjectKind::Null,
            Object::Return(_) => ObjectKind::Return,
            Object::Function { .. } => ObjectKind::Function,
            Object::Error(_) => ObjectKind::Error,
            Object::BuildIn(_) => ObjectKind::BuildIn,
            Object::Array(_) => ObjectKind::Array,
        }
    }

    /// Whether two values have the same tag, whatever they hold.
    pub fn variant_is_equal(a: &Object, b: &Object) -> (same: bool)
        ensures
            same == (a@.kind() == b@.kind()),
    {
        a.kind() == b.kind()
    }

    /// The value inside every return signal wrapped around this one.
    pub fn unwrap_return(self) -> (inner: Object)
        ensures
            inner@ == self@.unwrapped(),
        decreases self,
    {
        match self {
            Object::Return(inner) => (*inner).unwrap_return(),
            other => other,
        }
    }
}

impl Clone for Object {
    fn clone(&self) -> (copy: Self)
        ensures
            copy@ == self@,
        decreases self,
    {
        match self {
            Object::Int(val) => Object::Int(*val),
            Object::Bool(val) => Object::Bool(*val),
            Object::Null => Object::Null,
            Object::Return(val) => Object::Return(Box::new((**val).clone())),
            Object::Function { parameters, body, env } => Object::Function {
                parameters: clone_names(parameters),
                body: body.clone_as_block_statement(),
                env: env.clone(),
            },
            Object::String(val) => Object::String(val.clone()),
            Object::BuildIn(val) => Object::BuildIn(*val),
            Object::Error(val) => Object::Error(Box::new((**val).clone())),
            Object::Array(val) => Object::Array(clone_elements(val)),
        }
    }
}

} // verus!

verus! {

/// The elements of an array value as they are shown, separated by `, `.
fn elements_to_string(list: &Vec<Box<Object>>) -> (text: String)
    ensures
        text@ == shown_list(elements_view(list), list.len() as nat),
    decreases list,
{
    let mut text = String::new();
    let mut index: usize = 0;
    while index < list.len()
        invariant
            index <= list.len(),
            text@ == shown_list(elements_view(list), index as nat),
        decreases list.len() - index,
    {
        let element: &Object = &list[index];
        let shown = element.to_string();
        if index > 0 {
            text.append(", ");
        }
        text.append(shown.as_str());
        index = index + 1;
        assert(text@ =~= shown_list(elements_view(list), index as nat));
    }
    text
}

impl Object {
    /// The value as it is shown to a reader.
    pub fn to_string(&self) -> (text: String)
        ensures
            text@ == self@.shown(),
        decreases self,
    {
        match self {
            Object::Int(val) => integer_to_string(*val),
            Object::Bool(val) => if *val {
                String::from_str("true")
            } else {
                String::from_str("false")
            },
            Object::Null => String::from_str("null"),
            Object::Return(val) => String::from_str("ret ").concat(val.to_string().as_str()),
            Object::Function { .. } => String::from_str("fn"),
            Object::String(val) => {
                let text = String::from_str("\"").concat(val.as_str()).concat("\"");
                text
            },
            Object::BuildIn(_) => String::from_str("build_in"),
            Object::Error(val) => String::from_str("err: ").concat(val.to_string().as_str()),
            Object::Array(val) => {
                let text = String::from_str("[").concat(elements_to_string(val).as_str()).concat(
                    "]",
                );
                text
            },
        }
    }

    /// The bare text of the value.
    pub fn value(&self) -> (text: String)
        ensures
            text@ == self@.raw(),
    {
        match self {
            Object::String(val) => val.clone(),
            Object::Return(val) => val.to_string(),
            Object::Error(val) => val.to_string(),
            _ => self.to_string(),
        }
    }
}

} // verus!
