use vstd::prelude::*;
use vstd::string::*;
use crate::ast::{Type, TypeView};
use crate::interp::model::{lemma_tags_distinct, tag_chararray, Native, Op, ValueView};
use crate::interp::{Exception, Fn, Item, ValItem, Value};

verus! {

/// A character array: the language's string.
#[derive(Debug)]
pub struct CharArray(pub String);

impl CharArray {
    pub fn new(str: String) -> (r: CharArray)
        ensures
            r.0@ == str@,
    {
        CharArray(str)
    }

    pub fn as_str(&self) -> (s: &str)
        ensures
            s@ == self.0@,
    {
        self.0.as_str()
    }
}

impl Clone for CharArray {
    fn clone(&self) -> (r: Self)
        ensures
            r.0@ == self.0@,
    {
        CharArray(self.0.clone())
    }
}

impl<'ip> ValItem<'ip> for CharArray {
    open spec fn wrap(self) -> ValueView {
        ValueView::CharArray(self.0@)
    }

    open spec fn casts_from(ty: TypeView) -> bool {
        ty == tag_chararray()
    }

    open spec fn expected() -> TypeView {
        tag_chararray()
    }

    fn allow_cast(ty: Type) -> (r: Result<(), Exception>) {
        let want = Type::named("chararray");
        if ty.same(&want) {
            Ok(())
        } else {
            Err(Exception::InvalidType(want, ty))
        }
    }

    fn ty(&self) -> (t: Type) {
        Type::named("chararray")
    }

    fn write(&self, out: &mut String) {
        out.append(self.0.as_str());
    }

    fn get_field(&self, _name: &str) -> (r: Option<Value<'ip>>) {
        None
    }

    fn get_op(&self, op: Op) -> (r: Option<Fn<'ip>>) {
        match op {
            Op::Eq => Some(Fn::Builtin(Native::CharArrayEq.make())),
            Op::Neq => Some(Fn::Builtin(Native::CharArrayNeq.make())),
            _ => None,
        }
    }

    fn lift(self) -> (v: Value<'ip>) {
        Value { data: Item::CharArray(self) }
    }

    fn pick<'a>(v: &'a Value<'ip>) -> (r: Option<&'a Self>) {
        proof {
            lemma_tags_distinct();
        }
        match &v.data {
            Item::CharArray(item) => Some(item),
            _ => None,
        }
    }
}

} // verus!
