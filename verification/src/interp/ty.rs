use vstd::prelude::*;
use crate::ast::TypeView;
use crate::interp::model::{lemma_tags_distinct, tag_type, Op, ValueView};
use crate::interp::{Env, Exception, Fn, Item, ValItem, Value};

verus! {

/// A type tag held as a value, as the name `int` is bound to one.
#[derive(Debug)]
pub struct Type(pub crate::ast::Type);

impl Type {
    pub fn new(tag: crate::ast::Type) -> (r: Type)
        ensures
            r.0@ == tag@,
    {
        Type(tag)
    }

    /// A type value for the tag with the given name. The environment is
    /// not changed: a tag is known by its name alone.
    pub fn new_type<'ip>(env: &mut Env<'ip>, name: &str) -> (r: Type)
        ensures
            r.0@ == TypeView::Named(name@),
            final(env)@ == old(env)@,
    {
        Type(crate::ast::Type::named(name))
    }

    pub fn tag(&self) -> (t: &crate::ast::Type)
        ensures
            t@ == self.0@,
    {
        &self.0
    }
}

impl Clone for Type {
    fn clone(&self) -> (r: Self)
        ensures
            r.0@ == self.0@,
    {
        Type(self.0.clone())
    }
}

impl<'ip> ValItem<'ip> for Type {
    open spec fn wrap(self) -> ValueView {
        ValueView::Type(self.0@)
    }

    open spec fn casts_from(ty: TypeView) -> bool {
        ty == tag_type()
    }

    open spec fn expected() -> TypeView {
        tag_type()
    }

    fn allow_cast(ty: crate::ast::Type) -> (r: Result<(), Exception>) {
        let want = crate::ast::Type::named("type");
        if ty.same(&want) {
            Ok(())
        } else {
            Err(Exception::InvalidType(want, ty))
        }
    }

    fn ty(&self) -> (t: crate::ast::Type) {
        crate::ast::Type::named("type")
    }

    fn write(&self, out: &mut String) {
        assert(out@ + Seq::<char>::empty() =~= out@);
    }

    fn get_field(&self, _name: &str) -> (r: Option<Value<'ip>>) {
        None
    }

    fn get_op(&self, op: Op) -> (r: Option<Fn<'ip>>) {
        None
    }

    fn lift(self) -> (v: Value<'ip>) {
        Value { data: Item::Type(self) }
    }

    fn pick<'a>(v: &'a Value<'ip>) -> (r: Option<&'a Self>) {
        proof {
            lemma_tags_distinct();
        }
        match &v.data {
            Item::Type(item) => Some(item),
            _ => None,
        }
    }
}

} // verus!
