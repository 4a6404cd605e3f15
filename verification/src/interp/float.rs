use vstd::prelude::*;
use crate::ast::{Type, TypeView};
use crate::interp::model::{lemma_tags_distinct, tag_float, Native, Op, ValueView};
use crate::interp::{Exception, Fn, Item, ValItem, Value};

verus! {

/// A floating-point value, held by its IEEE-754 bit pattern. The engine
/// carries such a value, knows its tag and compares it; it does no
/// arithmetic on it.
#[derive(Clone, Copy, Debug)]
pub struct Float(pub u64);

impl Float {
    /// The float with the given bit pattern.
    pub fn new(bits: u64) -> (r: Float)
        ensures
            r.0 == bits,
    {
        Float(bits)
    }

    /// The bit pattern of the float.
    pub fn val(&self) -> (r: u64)
        ensures
            r == self.0,
    {
        self.0
    }
}

impl<'ip> ValItem<'ip> for Float {
    open spec fn wrap(self) -> ValueView {
        ValueView::Float(self.0)
    }

    open spec fn casts_from(ty: TypeView) -> bool {
        ty == tag_float()
    }

    open spec fn expected() -> TypeView {
        tag_float()
    }

    fn allow_cast(ty: Type) -> (r: Result<(), Exception>) {
        let want = Type::named("float");
        if ty.same(&want) {
            Ok(())
        } else {
            Err(Exception::InvalidType(want, ty))
        }
    }

    fn ty(&self) -> (t: Type) {
        Type::named("float")
    }

    fn write(&self, out: &mut String) {
        assert(out@ + Seq::<char>::empty() =~= out@);
    }

    fn get_field(&self, _name: &str) -> (r: Option<Value<'ip>>) {
        None
    }

    fn get_op(&self, op: Op) -> (r: Option<Fn<'ip>>) {
        match op {
            Op::Eq => Some(Fn::Builtin(Native::FloatEq.make())),
            Op::Neq => Some(Fn::Builtin(Native::FloatNeq.make())),
            _ => None,
        }
    }

    fn lift(self) -> (v: Value<'ip>) {
        Value { data: Item::Float(self) }
    }

    fn pick<'a>(v: &'a Value<'ip>) -> (r: Option<&'a Self>) {
        proof {
            lemma_tags_distinct();
        }
        match &v.data {
            Item::Float(item) => Some(item),
            _ => None,
        }
    }
}

} // verus!
