use vstd::prelude::*;
use vstd::string::*;
use crate::ast::{FnDef, Ident, Type, TypeView, type_views};
use crate::interp::model::{
    concat_texts, float_equal, refuse, tag_any_fn, tag_bit, tag_char, tag_chararray, tag_float,
    tag_int, AbortView, BuiltinView, Fatal, FnView, Native, Op, ValueView,
};
use crate::interp::{
    result_view, validate_args, value_views, Abort, Bit, Char, CharArray, Env, Exception, Float,
    Int, Item, Output, Sink, ValItem, Value,
};

verus! {

/// A callable that the engine itself implements.
#[derive(Debug)]
pub struct BuiltinFn {
    pub name: Ident,
    pub ret: Type,
    pub args: Vec<Type>,
    pub handler: Native,
}

impl View for BuiltinFn {
    type V = BuiltinView;

    open spec fn view(&self) -> BuiltinView {
        BuiltinView {
            name: self.name@,
            ret: self.ret@,
            args: type_views(self.args@),
            handler: self.handler,
        }
    }
}

/// A copy of a list of tags.
pub fn clone_types(tys: &Vec<Type>) -> (r: Vec<Type>)
    ensures
        type_views(r@) == type_views(tys@),
{
    let mut out: Vec<Type> = Vec::new();
    let mut i: usize = 0;
    while i < tys.len()
        invariant
            0 <= i <= tys.len(),
            out.len() == i,
            forall|j: int| 0 <= j < i ==> out[j]@ == tys[j]@,
        decreases tys.len() - i,
    {
        out.push(tys[i].clone());
        i += 1;
    }
    assert(type_views(out@) =~= type_views(tys@));
    out
}

impl Native {
    /// The name under which the handler's builtin is known.
    pub fn name_text(self) -> (s: &'static str)
        ensures
            s@ == self.name(),
    {
        match self {
            Native::WriteConsole => "write_console",
            Native::WriteError => "write_error",
            Native::WriteRawFile => "write_raw_file",
            Native::WriteIo => "write_io",
            Native::IntEq => "int_eq",
            Native::IntNeq => "int_neq",
            Native::IntAdd => "int_add",
            Native::IntSub => "int_sub",
            Native::IntMul => "int_mul",
            Native::IntDiv => "int_div",
            Native::IntNeg => "int_neg",
            Native::BitEq => "bit_eq",
            Native::BitNeq => "bit_neq",
            Native::BitNot => "bit_not",
            Native::CharEq => "char_eq",
            Native::CharNeq => "char_neq",
            Native::CharArrayEq => "chararray_eq",
            Native::CharArrayNeq => "chararray_neq",
            Native::FnEq => "fn_eq",
            Native::FnNeq => "fn_neq",
            Native::FloatEq => "float_eq",
            Native::FloatNeq => "float_neq",
        }
    }

    /// Whether the handler takes any number of arguments of any type.
    pub fn is_variadic(self) -> (r: bool)
        ensures
            r == self.variadic(),
    {
        match self {
            Native::WriteConsole | Native::WriteError | Native::WriteRawFile | Native::WriteIo =>
                true,
            _ => false,
        }
    }

    /// The tag of the operands that an operator handler works on.
    pub fn operand_type(self) -> (t: Type)
        ensures
            t@ == self.operand(),
    {
        match self {
            Native::FnEq | Native::FnNeq => {
                let ret = Box::new(Type::named("any"));
                let args: Vec<Type> = Vec::new();
                proof {
                    crate::ast::lemma_fn_type_view(ret, args);
                    assert(type_views(args@) =~= Seq::empty());
                }
                Type::Fn(ret, args)
            },
            Native::IntEq | Native::IntNeq | Native::IntAdd | Native::IntSub | Native::IntMul
            | Native::IntDiv | Native::IntNeg => Type::named("int"),
            Native::BitEq | Native::BitNeq | Native::BitNot => Type::named("bit"),
            Native::FloatEq | Native::FloatNeq => Type::named("float"),
            Native::CharEq | Native::CharNeq => Type::named("char"),
            Native::CharArrayEq | Native::CharArrayNeq => Type::named("chararray"),
            _ => Type::named("null"),
        }
    }

    /// The declared return type of the handler's builtin.
    pub fn ret_type(self) -> (t: Type)
        ensures
            t@ == self.ret(),
    {
        match self {
            Native::IntAdd | Native::IntSub | Native::IntMul | Native::IntDiv | Native::IntNeg =>
                Type::named("int"),
            Native::WriteConsole | Native::WriteError | Native::WriteRawFile | Native::WriteIo =>
                Type::named("null"),
            _ => Type::named("bit"),
        }
    }

    /// The builtin callable that carries this handler.
    pub fn make(self) -> (b: BuiltinFn)
        ensures
            b@ == self.builtin(),
    {
        let mut args: Vec<Type> = Vec::new();
        if !self.is_variadic() {
            args.push(self.operand_type());
            match self {
                Native::IntNeg | Native::BitNot => {},
                _ => {
                    args.push(self.operand_type());
                },
            }
        }
        assert(type_views(args@) =~= self.params());
        BuiltinFn::new(self.name_text(), self.ret_type(), args, self)
    }
}

impl Native {
    /// The builtin callable that carries this handler for operands of the
    /// given tag.
    pub fn make_for(self, operand: &Type) -> (b: BuiltinFn)
        ensures
            b@ == self.builtin_for(operand@),
    {
        let mut args: Vec<Type> = Vec::new();
        if !self.is_variadic() {
            args.push(operand.clone());
            match self {
                Native::IntNeg | Native::BitNot => {},
                _ => {
                    args.push(operand.clone());
                },
            }
        }
        assert(type_views(args@) =~= self.builtin_for(operand@).args);
        BuiltinFn::new(self.name_text(), self.ret_type(), args, self)
    }
}

/// Whether two callables are one definition.
pub fn same_definition<'ip>(a: &Fn<'ip>, b: &Fn<'ip>) -> (r: bool)
    ensures
        r == a@.same_definition(b@),
{
    match (a, b) {
        (Fn::User(x), Fn::User(y)) => x.id == y.id,
        (Fn::Builtin(x), Fn::Builtin(y)) => x.handler == y.handler && x.name.same(&y.name),
        _ => false,
    }
}

/// The callable that an operand holds, or the refusal of the operand.
fn fn_operand<'a, 'ip>(v: &'a Value<'ip>) -> (r: Result<&'a Fn<'ip>, Abort>)
    ensures
        match r {
            Ok(f) => v@ == ValueView::Fn(f@),
            Err(a) => !(v@ is Fn) && a@ == refuse(tag_any_fn(), v@),
        },
{
    match v.downcast::<Fn<'ip>>() {
        Ok(item) => Ok(item),
        Err(e) => Err(Abort::Raised(e)),
    }
}

impl BuiltinFn {
    pub fn new(name: &str, ret: Type, args: Vec<Type>, handler: Native) -> (b: BuiltinFn)
        ensures
            b@ == (BuiltinView {
                name: name@,
                ret: ret@,
                args: type_views(args@),
                handler: handler,
            }),
    {
        BuiltinFn { name: Ident::new(name), ret, args, handler }
    }
}

impl Clone for BuiltinFn {
    fn clone(&self) -> (r: Self)
        ensures
            r@ == self@,
    {
        BuiltinFn {
            name: self.name.clone(),
            ret: self.ret.clone(),
            args: clone_types(&self.args),
            handler: self.handler,
        }
    }
}

/// A callable: a definition borrowed from the program, or a builtin.
#[derive(Debug)]
pub enum Fn<'ip> {
    User(&'ip FnDef),
    Builtin(BuiltinFn),
}

impl<'ip> View for Fn<'ip> {
    type V = FnView;

    open spec fn view(&self) -> FnView {
        match self {
            Fn::User(def) => FnView::User(**def),
            Fn::Builtin(b) => FnView::Builtin(b@),
        }
    }
}

impl<'ip> Clone for Fn<'ip> {
    fn clone(&self) -> (r: Self)
        ensures
            r@ == self@,
    {
        match self {
            Fn::User(def) => Fn::User(*def),
            Fn::Builtin(b) => Fn::Builtin(b.clone()),
        }
    }
}

impl<'ip> Fn<'ip> {
    pub fn name(&self) -> (s: &str)
        ensures
            s@ == self@.name(),
    {
        match self {
            Fn::User(def) => def.name(),
            Fn::Builtin(b) => b.name.as_str(),
        }
    }

    pub fn ret_ty(&self) -> (t: &Type)
        ensures
            t@ == self@.ret(),
    {
        match self {
            Fn::User(def) => def.ret_ty(),
            Fn::Builtin(b) => &b.ret,
        }
    }

    pub fn arg_tys(&self) -> (tys: Vec<Type>)
        ensures
            type_views(tys@) == self@.arg_tys(),
    {
        match self {
            Fn::User(def) => def.arg_tys(),
            Fn::Builtin(b) => clone_types(&b.args),
        }
    }

    /// The tag of the callable.
    pub fn fn_type(&self) -> (t: Type)
        ensures
            t@ == self@.ty(),
    {
        let ret = Box::new(self.ret_ty().clone());
        let args = self.arg_tys();
        proof {
            crate::ast::lemma_fn_type_view(ret, args);
        }
        Type::Fn(ret, args)
    }
}

impl<'ip> ValItem<'ip> for Fn<'ip> {
    open spec fn wrap(self) -> ValueView {
        ValueView::Fn(self@)
    }

    open spec fn casts_from(ty: TypeView) -> bool {
        ty is Fn
    }

    open spec fn expected() -> TypeView {
        tag_any_fn()
    }

    fn allow_cast(ty: Type) -> (r: Result<(), Exception>) {
        match ty {
            Type::Fn(_, _) => Ok(()),
            _ => {
                let ret = Box::new(Type::named("any"));
                let args: Vec<Type> = Vec::new();
                proof {
                    crate::ast::lemma_fn_type_view(ret, args);
                    assert(type_views(args@) =~= Seq::empty());
                }
                Err(Exception::InvalidType(Type::Fn(ret, args), ty))
            },
        }
    }

    fn ty(&self) -> (t: Type) {
        self.fn_type()
    }

    fn write(&self, out: &mut String) {
        match self {
            Fn::User(def) => {
                out.append("<fn ");
                out.append(def.name());
                out.append(">");
                assert(out@ =~= old(out)@ + ("<fn "@ + def.name@ + ">"@));
            },
            Fn::Builtin(b) => {
                out.append("<builtin ");
                out.append(b.name.as_str());
                out.append(">");
                assert(out@ =~= old(out)@ + ("<builtin "@ + b.name@ + ">"@));
            },
        }
    }

    fn get_field(&self, _name: &str) -> (r: Option<Value<'ip>>) {
        None
    }

    fn get_op(&self, op: Op) -> (r: Option<Fn<'ip>>) {
        match op {
            Op::Eq => Some(Fn::Builtin(Native::FnEq.make_for(&self.fn_type()))),
            Op::Neq => Some(Fn::Builtin(Native::FnNeq.make_for(&self.fn_type()))),
            _ => None,
        }
    }

    fn lift(self) -> (v: Value<'ip>) {
        Value { data: Item::Fn(self) }
    }

    fn pick<'a>(v: &'a Value<'ip>) -> (r: Option<&'a Self>) {
        match &v.data {
            Item::Fn(item) => Some(item),
            _ => None,
        }
    }
}

/// The texts of `args[from..]`, one after the other with nothing between.
pub fn concat_args<'ip>(args: &[Value<'ip>], from: usize) -> (s: String)
    requires
        from <= args.len(),
    ensures
        s@ == concat_texts(value_views(args@), from as int),
{
    let ghost views = value_views(args@);
    let mut out = String::new();
    let mut i: usize = from;
    assert(Seq::<char>::empty() + concat_texts(views, i as int) =~= concat_texts(views, i as int));
    while i < args.len()
        invariant
            from <= i <= args.len(),
            views == value_views(args@),
            concat_texts(views, from as int) == out@ + concat_texts(views, i as int),
        decreases args.len() - i,
    {
        let ghost before = out@;
        args[i].write(&mut out);
        assert(before + concat_texts(views, i as int) =~= out@ + concat_texts(views, i + 1));
        i += 1;
    }
    assert(out@ + concat_texts(views, i as int) =~= out@);
    out
}

/// The integer that an operand holds, or the refusal of the operand.
fn int_operand<'ip>(v: &Value<'ip>) -> (r: Result<i128, Abort>)
    ensures
        match r {
            Ok(i) => v@ == ValueView::Int(i as int),
            Err(a) => !(v@ is Int) && a@ == refuse(tag_int(), v@),
        },
{
    match v.downcast::<Int>() {
        Ok(item) => Ok(item.val()),
        Err(e) => Err(Abort::Raised(e)),
    }
}

/// The bit that an operand holds, or the refusal of the operand.
fn bit_operand<'ip>(v: &Value<'ip>) -> (r: Result<bool, Abort>)
    ensures
        match r {
            Ok(b) => v@ == ValueView::Bit(b),
            Err(a) => !(v@ is Bit) && a@ == refuse(tag_bit(), v@),
        },
{
    match v.downcast::<Bit>() {
        Ok(item) => Ok(item.val()),
        Err(e) => Err(Abort::Raised(e)),
    }
}

/// The float that an operand holds, by its bit pattern, or the refusal of
/// the operand.
fn float_operand<'ip>(v: &Value<'ip>) -> (r: Result<u64, Abort>)
    ensures
        match r {
            Ok(bits) => v@ == ValueView::Float(bits),
            Err(a) => !(v@ is Float) && a@ == refuse(tag_float(), v@),
        },
{
    match v.downcast::<Float>() {
        Ok(item) => Ok(item.val()),
        Err(e) => Err(Abort::Raised(e)),
    }
}

/// Whether two floats, given by their bit patterns, are equal.
pub fn float_eq(a: u64, b: u64) -> (r: bool)
    ensures
        r == float_equal(a, b),
{
    let a_nan = (a & 0x7ff0_0000_0000_0000) == 0x7ff0_0000_0000_0000 && (a & 0x000f_ffff_ffff_ffff)
        != 0;
    let b_nan = (b & 0x7ff0_0000_0000_0000) == 0x7ff0_0000_0000_0000 && (b & 0x000f_ffff_ffff_ffff)
        != 0;
    let zeros = (a & 0x7fff_ffff_ffff_ffff) == 0 && (b & 0x7fff_ffff_ffff_ffff) == 0;
    !a_nan && !b_nan && (a == b || zeros)
}

/// The character that an operand holds, or the refusal of the operand.
fn char_operand<'ip>(v: &Value<'ip>) -> (r: Result<char, Abort>)
    ensures
        match r {
            Ok(c) => v@ == ValueView::Char(c),
            Err(a) => !(v@ is Char) && a@ == refuse(tag_char(), v@),
        },
{
    match v.downcast::<Char>() {
        Ok(item) => Ok(item.val()),
        Err(e) => Err(Abort::Raised(e)),
    }
}

/// The character array that an operand holds, or the refusal of the operand.
fn chararray_operand<'a, 'ip>(v: &'a Value<'ip>) -> (r: Result<&'a CharArray, Abort>)
    ensures
        match r {
            Ok(s) => v@ == ValueView::CharArray(s.0@),
            Err(a) => !(v@ is CharArray) && a@ == refuse(tag_chararray(), v@),
        },
{
    match v.downcast::<CharArray>() {
        Ok(item) => Ok(item),
        Err(e) => Err(Abort::Raised(e)),
    }
}

/// An integer result that may have overflowed.
fn int_value<'ip>(r: Option<i128>) -> (v: Result<Value<'ip>, Abort>)
    ensures
        match r {
            Some(i) => result_view(v) == Ok::<ValueView, AbortView>(ValueView::Int(i as int)),
            None => result_view(v) == Err::<ValueView, AbortView>(
                AbortView::Fatal(Fatal::Overflow),
            ),
        },
{
    match r {
        Some(i) => Ok(Value::new(Int::new(i))),
        None => Err(Abort::Fatal(Fatal::Overflow)),
    }
}

impl Native {
    /// Runs a handler of two operands.
    fn run_binary<'ip>(self, left: &Value<'ip>, right: &Value<'ip>) -> (r: Result<
        Value<'ip>,
        Abort,
    >)
        requires
            !self.variadic(),
            self.operands() == 2,
        ensures
            result_view(r) == self.apply_binary(left@, right@),
    {
        match self {
            Native::IntEq | Native::IntNeq | Native::IntAdd | Native::IntSub | Native::IntMul
            | Native::IntDiv => {
                let a = int_operand(left)?;
                let b = int_operand(right)?;
                match self {
                    Native::IntEq => Ok(Value::new(Bit::new(a == b))),
                    Native::IntNeq => Ok(Value::new(Bit::new(a != b))),
                    Native::IntAdd => int_value(a.checked_add(b)),
                    Native::IntSub => int_value(a.checked_sub(b)),
                    Native::IntMul => int_value(a.checked_mul(b)),
                    _ => {
                        if b == 0 {
                            Err(Abort::Fatal(Fatal::DivideByZero))
                        } else {
                            int_value(a.checked_div(b))
                        }
                    },
                }
            },
            Native::BitEq | Native::BitNeq => {
                let a = bit_operand(left)?;
                let b = bit_operand(right)?;
                match self {
                    Native::BitEq => Ok(Value::new(Bit::new(a == b))),
                    _ => Ok(Value::new(Bit::new(a != b))),
                }
            },
            Native::FloatEq | Native::FloatNeq => {
                let a = float_operand(left)?;
                let b = float_operand(right)?;
                let same = float_eq(a, b);
                match self {
                    Native::FloatEq => Ok(Value::new(Bit::new(same))),
                    _ => Ok(Value::new(Bit::new(!same))),
                }
            },
            Native::CharEq | Native::CharNeq => {
                let a = char_operand(left)?;
                let b = char_operand(right)?;
                match self {
                    Native::CharEq => Ok(Value::new(Bit::new(a == b))),
                    _ => Ok(Value::new(Bit::new(a != b))),
                }
            },
            Native::CharArrayEq | Native::CharArrayNeq => {
                let a = chararray_operand(left)?;
                let b = chararray_operand(right)?;
                let same = a.0 == b.0;
                match self {
                    Native::CharArrayEq => Ok(Value::new(Bit::new(same))),
                    _ => Ok(Value::new(Bit::new(!same))),
                }
            },
            _ => {
                let a = fn_operand(left)?;
                let b = fn_operand(right)?;
                let same = same_definition(a, b);
                match self {
                    Native::FnEq => Ok(Value::new(Bit::new(same))),
                    _ => Ok(Value::new(Bit::new(!same))),
                }
            },
        }
    }

    /// Whether the handler can be run on `n` arguments.
    pub fn can_take(self, n: usize) -> (r: bool)
        ensures
            r == self.takes(n as nat),
    {
        match self {
            Native::WriteConsole | Native::WriteError | Native::WriteRawFile => true,
            Native::WriteIo => n >= 1,
            Native::IntNeg | Native::BitNot => n == 1,
            _ => n == 2,
        }
    }

    /// Runs the handler on the given arguments, which are as many as it
    /// takes. A write handler records its write in the environment; no
    /// handler changes anything else.
    pub fn run<'ip>(self, env: &mut Env<'ip>, args: &[Value<'ip>]) -> (r: Result<Value<'ip>, Abort>)
        requires
            self.takes(args.len() as nat),
        ensures
            result_view(r) == self.apply(value_views(args@)),
            final(env)@ == if r is Ok {
                match self.output(value_views(args@)) {
                    Some(output) => old(env)@.emit(output),
                    None => old(env)@,
                }
            } else {
                old(env)@
            },
    {
        match self {
            Native::WriteConsole => {
                env.emit(Output { sink: Sink::Console, text: concat_args(args, 0) });
                Ok(Value::null())
            },
            Native::WriteError => {
                env.emit(Output { sink: Sink::Error, text: concat_args(args, 0) });
                Ok(Value::null())
            },
            Native::WriteRawFile => {
                env.emit(Output { sink: Sink::RawFile, text: concat_args(args, 0) });
                Ok(Value::null())
            },
            Native::WriteIo => {
                let sink = match args[0].downcast::<Int>() {
                    Ok(fd) => Sink::Descriptor(fd.val()),
                    Err(_) => match args[0].downcast::<CharArray>() {
                        Ok(path) => Sink::Named(path.0.clone()),
                        Err(e) => {
                            return Err(Abort::Raised(e));
                        },
                    },
                };
                env.emit(Output { sink, text: concat_args(args, 1) });
                Ok(Value::null())
            },
            Native::IntNeg => {
                let a = int_operand(&args[0])?;
                int_value(0i128.checked_sub(a))
            },
            Native::BitNot => {
                let a = bit_operand(&args[0])?;
                Ok(Value::new(Bit::new(!a)))
            },
            _ => self.run_binary(&args[0], &args[1]),
        }
    }
}

impl BuiltinFn {
    /// Whether the builtin can be called with `n` arguments.
    pub fn fits(&self, n: usize) -> (r: bool)
        ensures
            r == self@.fits(n as nat),
    {
        if self.handler.is_variadic() {
            self.handler.can_take(n)
        } else {
            n == self.args.len() && self.handler.can_take(n)
        }
    }

    /// Calls the builtin with as many arguments as it takes: checks the
    /// arguments against the declared parameters, unless the handler takes
    /// arguments of any type, and runs the handler once.
    pub fn invoke<'ip>(&self, env: &mut Env<'ip>, args: &[Value<'ip>]) -> (r: Result<
        Value<'ip>,
        Abort,
    >)
        requires
            self@.fits(args.len() as nat),
        ensures
            result_view(r) == self@.result(value_views(args@)),
            final(env)@ == self@.effect(old(env)@, value_views(args@)),
    {
        if !self.handler.is_variadic() {
            validate_args(&self.args, args)?;
        }
        self.handler.run(env, args)
    }
}

} // verus!
