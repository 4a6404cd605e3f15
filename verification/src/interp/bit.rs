use vstd::prelude::*;
use vstd::string::*;
use crate::ast::{Type, TypeView};
use crate::interp::model::{lemma_tags_distinct, tag_bit, Native, Op, ValueView};
use crate::interp::{Exception, Fn, Item, ValItem, Value};

verus! {

/// A bit: the language's boolean.
#[derive(Clone, Copy, Debug)]
pub struct Bit(pub bool);

impl Bit {
    pub fn new(b: bool) -> (r: Bit)
        ensures
            r.0 == b,
    {
        Bit(b)
    }

    pub fn val(&self) -> (r: bool)
        ensures
            r == self.0,
    {
        self.0
    }
}

impl<'ip> ValItem<'ip> for Bit {
    open spec fn wrap(self) -> ValueView {
        ValueView::Bit(self.0)
    }

    open spec fn casts_from(ty: TypeView) -> bool {
        ty == tag_bit()
    }

    open spec fn expected() -> TypeView {
        tag_bit()
    }

    fn allow_cast(ty: Type) -> (r: Result<(), Exception>) {
        let want = Type::named("bit");
        if ty.same(&want) {
            Ok(())
        } else {
            Err(Exception::InvalidType(want, ty))
        }
    }

    fn ty(&self) -> (t: Type) {
        Type::named("bit")
    }

    fn write(&self, out: &mut String) {
        if self.0 {
            out.append("1b");
        } else {
            out.append("0b");
        }
    }

    fn get_field(&self, _name: &str) -> (r: Option<Value<'ip>>) {
        None
    }

    fn get_op(&self, op: Op) -> (r: Option<Fn<'ip>>) {
        match op {
            Op::Eq => Some(Fn::Builtin(Native::BitEq.make())),
            Op::Neq => Some(Fn::Builtin(Native::BitNeq.make())),
            Op::Not => Some(Fn::Builtin(Native::BitNot.make())),
            _ => None,
        }
    }

    fn lift(self) -> (v: Value<'ip>) {
        Value { data: Item::Bit(self) }
    }

    fn pick<'a>(v: &'a Value<'ip>) -> (r: Option<&'a Self>) {
        proof {
            lemma_tags_distinct();
        }
        match &v.data {
            Item::Bit(item) => Some(item),
            _ => None,
        }
    }
}

} // verus!
