use vstd::prelude::*;
use vstd::string::*;
use crate::ast::{Type, TypeView};
use crate::interp::model::{
    array_of, first_mismatch, tag_any_array, texts, ExceptionView, Op, ValueView,
};
use crate::interp::{value_views, Exception, Fn, Item, ValItem, Value};

verus! {

/// An array value: its elements in order. Every way to make one checks that
/// the elements have one tag.
#[derive(Debug)]
pub struct Array<'ip>(pub(crate) Vec<Value<'ip>>);

impl<'ip> Array<'ip> {
    /// The models of the elements, in order.
    pub closed spec fn items(self) -> Seq<ValueView> {
        value_views(self.0@)
    }

    /// Makes an array of the given elements, or refuses them at the first
    /// element whose tag differs from the tag of the first element.
    pub fn new(vals: Vec<Value<'ip>>) -> (r: Result<Array<'ip>, Exception>)
        ensures
            match r {
                Ok(a) => array_of(value_views(vals@)) == Ok::<ValueView, ExceptionView>(a.wrap())
                    && a.items() == value_views(vals@),
                Err(e) => array_of(value_views(vals@)) == Err::<ValueView, ExceptionView>(e@),
            },
    {
        let ghost items = value_views(vals@);
        if vals.len() > 0 {
            let first_ty = vals[0].ty();
            let mut i: usize = 1;
            while i < vals.len()
                invariant
                    1 <= i <= vals.len(),
                    items == value_views(vals@),
                    first_ty@ == items[0].ty(),
                    first_mismatch(items, 1) == first_mismatch(items, i as int),
                decreases vals.len() - i,
            {
                let ty = vals[i].ty();
                if !ty.same(&first_ty) {
                    return Err(Exception::InvalidType(first_ty, ty));
                }
                i += 1;
            }
        }
        Ok(Array(vals))
    }

    pub fn len(&self) -> (n: usize)
        ensures
            n == self.items().len(),
    {
        self.0.len()
    }

    pub fn get(&self, i: usize) -> (v: &Value<'ip>)
        requires
            i < self.items().len(),
        ensures
            v@ == self.items()[i as int],
    {
        &self.0[i]
    }

    /// The tag of the array.
    pub fn tag(&self) -> (t: Type)
        ensures
            t@ == self.wrap().ty(),
        decreases self,
    {
        let inner = if self.0.len() > 0 {
            self.0[0].ty()
        } else {
            Type::named("null")
        };
        Type::Array(Box::new(inner))
    }

    /// Appends the text of the array: `[`, the elements' texts with `, `
    /// between them, and `]`.
    #[verifier::loop_isolation(false)]
    pub fn write_items(&self, out: &mut String)
        ensures
            final(out)@ == old(out)@ + self.wrap().text(),
        decreases self,
    {
        let ghost items = self.items();
        let ghost goal = old(out)@ + "["@ + texts(items, 0);
        out.append("[");
        let mut i: usize = 0;
        while i < self.0.len()
            invariant
                0 <= i <= self.0.len(),
                goal == out@ + (if 0 < i < items.len() {
                    ", "@
                } else {
                    Seq::<char>::empty()
                }) + texts(items, i as int),
            decreases self.0.len() - i,
        {
            let ghost before = out@;
            if i > 0 {
                out.append(", ");
            }
            let ghost mid = out@;
            self.0[i].write(out);
            proof {
                let sep = if 0 < i < items.len() {
                    ", "@
                } else {
                    Seq::<char>::empty()
                };
                let next = if 0 < i + 1 < items.len() {
                    ", "@
                } else {
                    Seq::<char>::empty()
                };
                assert(mid =~= before + sep);
                assert(out@ == mid + items[i as int].text());
                assert(goal =~= out@ + next + texts(items, i + 1));
            }
            i += 1;
        }
        out.append("]");
        assert(out@ =~= old(out)@ + ("["@ + texts(items, 0) + "]"@));
    }

    /// A copy of the array.
    #[verifier::loop_isolation(false)]
    pub fn duplicate(&self) -> (r: Array<'ip>)
        ensures
            r.items() == self.items(),
        decreases self,
    {
        let mut out: Vec<Value<'ip>> = Vec::new();
        let mut i: usize = 0;
        while i < self.0.len()
            invariant
                0 <= i <= self.0.len(),
                out.len() == i,
                forall|j: int| 0 <= j < i ==> out[j]@ == self.0[j]@,
            decreases self.0.len() - i,
        {
            out.push(self.0[i].duplicate());
            i += 1;
        }
        assert(value_views(out@) =~= value_views(self.0@));
        Array(out)
    }
}

impl<'ip> ValItem<'ip> for Array<'ip> {
    closed spec fn wrap(self) -> ValueView {
        ValueView::Array(self.items())
    }

    open spec fn casts_from(ty: TypeView) -> bool {
        ty is Array
    }

    open spec fn expected() -> TypeView {
        tag_any_array()
    }

    fn allow_cast(ty: Type) -> (r: Result<(), Exception>) {
        match ty {
            Type::Array(_) => Ok(()),
            _ => Err(Exception::InvalidType(Type::Array(Box::new(Type::named("any"))), ty)),
        }
    }

    fn ty(&self) -> (t: Type) {
        self.tag()
    }

    fn write(&self, out: &mut String) {
        self.write_items(out)
    }

    fn get_field(&self, _name: &str) -> (r: Option<Value<'ip>>) {
        None
    }

    fn get_op(&self, op: Op) -> (r: Option<Fn<'ip>>) {
        None
    }

    fn lift(self) -> (v: Value<'ip>) {
        proof {
            crate::interp::lemma_array_view(self);
        }
        Value { data: Item::Array(self) }
    }

    fn pick<'a>(v: &'a Value<'ip>) -> (r: Option<&'a Self>) {
        match &v.data {
            Item::Array(item) => {
                proof {
                    crate::interp::lemma_array_view(*item);
                }
                Some(item)
            },
            _ => None,
        }
    }
}

/// An array's model is the array of the models of the elements it stores.
pub(crate) proof fn lemma_array_wrap<'ip>(a: Array<'ip>)
    ensures
        a.items() == value_views(a.0@),
        a.wrap() == ValueView::Array(value_views(a.0@)),
{
}

} // verus!
