use vstd::prelude::*;
use crate::ast::{Type, TypeView};
use crate::interp::model::{lemma_tags_distinct, tag_null, Op, ValueView};
use crate::interp::{Exception, Fn, Item, ValItem, Value};

verus! {

/// The null value.
#[derive(Clone, Copy, Debug)]
pub struct Null;

impl<'ip> ValItem<'ip> for Null {
    open spec fn wrap(self) -> ValueView {
        ValueView::Null
    }

    open spec fn casts_from(ty: TypeView) -> bool {
        ty == tag_null()
    }

    open spec fn expected() -> TypeView {
        tag_null()
    }

    fn allow_cast(ty: Type) -> (r: Result<(), Exception>) {
        let want = Type::named("null");
        if ty.same(&want) {
            Ok(())
        } else {
            Err(Exception::InvalidType(want, ty))
        }
    }

    fn ty(&self) -> (t: Type) {
        Type::named("null")
    }

    fn write(&self, out: &mut String) {
        assert(out@ + Seq::<char>::empty() =~= out@);
    }

    fn get_field(&self, _name: &str) -> (r: Option<Value<'ip>>) {
        None
    }

    fn get_op(&self, op: Op) -> (r: Option<Fn<'ip>>) {
        None
    }

    fn lift(self) -> (v: Value<'ip>) {
        Value { data: Item::Null(self) }
    }

    fn pick<'a>(v: &'a Value<'ip>) -> (r: Option<&'a Self>) {
        proof {
            lemma_tags_distinct();
        }
        match &v.data {
            Item::Null(item) => Some(item),
            _ => None,
        }
    }
}

} // verus!
