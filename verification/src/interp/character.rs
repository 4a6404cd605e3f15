use vstd::prelude::*;
use crate::text::push_char;
use crate::ast::{Type, TypeView};
use crate::interp::model::{lemma_tags_distinct, tag_char, Native, Op, ValueView};
use crate::interp::{Exception, Fn, Item, ValItem, Value};

verus! {

/// A character value.
#[derive(Clone, Copy, Debug)]
pub struct Char(pub char);

impl Char {
    pub fn new(c: char) -> (r: Char)
        ensures
            r.0 == c,
    {
        Char(c)
    }

    pub fn val(&self) -> (r: char)
        ensures
            r == self.0,
    {
        self.0
    }
}

impl<'ip> ValItem<'ip> for Char {
    open spec fn wrap(self) -> ValueView {
        ValueView::Char(self.0)
    }

    open spec fn casts_from(ty: TypeView) -> bool {
        ty == tag_char()
    }

    open spec fn expected() -> TypeView {
        tag_char()
    }

    fn allow_cast(ty: Type) -> (r: Result<(), Exception>) {
        let want = Type::named("char");
        if ty.same(&want) {
            Ok(())
        } else {
            Err(Exception::InvalidType(want, ty))
        }
    }

    fn ty(&self) -> (t: Type) {
        Type::named("char")
    }

    fn write(&self, out: &mut String) {
        push_char(out, self.0);
        assert(out@ =~= old(out)@ + seq![self.0]);
    }

    fn get_field(&self, _name: &str) -> (r: Option<Value<'ip>>) {
        None
    }

    fn get_op(&self, op: Op) -> (r: Option<Fn<'ip>>) {
        match op {
            Op::Eq => Some(Fn::Builtin(Native::CharEq.make())),
            Op::Neq => Some(Fn::Builtin(Native::CharNeq.make())),
            _ => None,
        }
    }

    fn lift(self) -> (v: Value<'ip>) {
        Value { data: Item::Char(self) }
    }

    fn pick<'a>(v: &'a Value<'ip>) -> (r: Option<&'a Self>) {
        proof {
            lemma_tags_distinct();
        }
        match &v.data {
            Item::Char(item) => Some(item),
            _ => None,
        }
    }
}

} // verus!
