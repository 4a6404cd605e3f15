//! The mathematical model of runtime data: what a value, a callable, an
//! exception and an environment are, apart from how they are stored.

use vstd::prelude::*;
use crate::ast::{arg_type_views, BinOp, FnDef, TypeView, UnOp};

verus! {

/// An operator that a value may be asked for.
#[derive(Copy, Clone, Debug, PartialEq, Eq, Structural)]
pub enum Op {
    Eq,
    Neq,
    Add,
    Sub,
    Mul,
    Div,
    Neg,
    Not,
}

impl Op {
    /// The operator that a binary operator of the source text asks for.
    pub open spec fn of_bin(op: BinOp) -> Op {
        match op {
            BinOp::Eq => Op::Eq,
            BinOp::Neq => Op::Neq,
            BinOp::Add => Op::Add,
            BinOp::Sub => Op::Sub,
            BinOp::Mul => Op::Mul,
            BinOp::Div => Op::Div,
        }
    }

    /// The operator that a unary operator of the source text asks for.
    pub open spec fn of_un(op: UnOp) -> Op {
        match op {
            UnOp::Neg => Op::Neg,
            UnOp::Not => Op::Not,
        }
    }

    /// The source text of the operator.
    pub open spec fn text(self) -> Seq<char> {
        match self {
            Op::Eq => "=="@,
            Op::Neq => "!="@,
            Op::Add => "+"@,
            Op::Sub => "-"@,
            Op::Mul => "*"@,
            Op::Div => "/"@,
            Op::Neg => "-"@,
            Op::Not => "!"@,
        }
    }

    pub fn from_bin(op: BinOp) -> (r: Op)
        ensures
            r == Op::of_bin(op),
    {
        match op {
            BinOp::Eq => Op::Eq,
            BinOp::Neq => Op::Neq,
            BinOp::Add => Op::Add,
            BinOp::Sub => Op::Sub,
            BinOp::Mul => Op::Mul,
            BinOp::Div => Op::Div,
        }
    }

    pub fn from_un(op: UnOp) -> (r: Op)
        ensures
            r == Op::of_un(op),
    {
        match op {
            UnOp::Neg => Op::Neg,
            UnOp::Not => Op::Not,
        }
    }

    pub fn pretty(&self) -> (s: &'static str)
        ensures
            s@ == self.text(),
    {
        match self {
            Op::Eq => "==",
            Op::Neq => "!=",
            Op::Add => "+",
            Op::Sub => "-",
            Op::Mul => "*",
            Op::Div => "/",
            Op::Neg => "-",
            Op::Not => "!",
        }
    }
}

/// The native handlers that a builtin callable can carry.
#[derive(Copy, Clone, Debug, PartialEq, Eq, Structural)]
pub enum Native {
    WriteConsole,
    WriteError,
    WriteRawFile,
    WriteIo,
    IntEq,
    IntNeq,
    IntAdd,
    IntSub,
    IntMul,
    IntDiv,
    IntNeg,
    BitEq,
    BitNeq,
    BitNot,
    CharEq,
    CharNeq,
    CharArrayEq,
    CharArrayNeq,
    FnEq,
    FnNeq,
    FloatEq,
    FloatNeq,
}

/// A condition that ends a run and that no program can handle: it shows a
/// fault in the program's use of the native layer, not a typed exception.
#[derive(Copy, Clone, Debug, PartialEq, Eq, Structural)]
pub enum Fatal {
    /// A callable was handed a number of arguments other than it declares.
    Arity,
    /// An integer was divided by zero.
    DivideByZero,
    /// An integer result does not fit the native integer.
    Overflow,
    /// A character-array literal lacks its two quote marks.
    Literal,
}

pub open spec fn tag_null() -> TypeView {
    TypeView::Named("null"@)
}

pub open spec fn tag_int() -> TypeView {
    TypeView::Named("int"@)
}

pub open spec fn tag_float() -> TypeView {
    TypeView::Named("float"@)
}

pub open spec fn tag_char() -> TypeView {
    TypeView::Named("char"@)
}

pub open spec fn tag_chararray() -> TypeView {
    TypeView::Named("chararray"@)
}

pub open spec fn tag_bit() -> TypeView {
    TypeView::Named("bit"@)
}

pub open spec fn tag_type() -> TypeView {
    TypeView::Named("type"@)
}

/// The tag named when a value was expected to be an array of anything.
pub open spec fn tag_any_array() -> TypeView {
    TypeView::Array(Box::new(TypeView::Named("any"@)))
}

/// The tag named when a value was expected to be a callable of any type.
pub open spec fn tag_any_fn() -> TypeView {
    TypeView::Fn(Box::new(TypeView::Named("any"@)), Seq::empty())
}

/// The seven tags of the builtin kinds are seven different names.
pub proof fn lemma_tags_distinct()
    ensures
        tag_null() != tag_int(),
        tag_null() != tag_float(),
        tag_null() != tag_char(),
        tag_null() != tag_chararray(),
        tag_null() != tag_bit(),
        tag_null() != tag_type(),
        tag_int() != tag_float(),
        tag_int() != tag_char(),
        tag_int() != tag_chararray(),
        tag_int() != tag_bit(),
        tag_int() != tag_type(),
        tag_float() != tag_char(),
        tag_float() != tag_chararray(),
        tag_float() != tag_bit(),
        tag_float() != tag_type(),
        tag_char() != tag_chararray(),
        tag_char() != tag_bit(),
        tag_char() != tag_type(),
        tag_chararray() != tag_bit(),
        tag_chararray() != tag_type(),
        tag_bit() != tag_type(),
{
    reveal_strlit("null");
    reveal_strlit("int");
    reveal_strlit("float");
    reveal_strlit("char");
    reveal_strlit("chararray");
    reveal_strlit("bit");
    reveal_strlit("type");
    assert("null"@.len() == 4 && "int"@.len() == 3 && "float"@.len() == 5);
    assert("char"@.len() == 4 && "chararray"@.len() == 9 && "bit"@.len() == 3);
    assert("type"@.len() == 4);
    assert("int"@[0] != "bit"@[0]);
    assert("null"@[0] != "type"@[0]);
    assert("char"@[0] != "type"@[0]);
    assert("char"@[0] != "null"@[0]);
}

/// The model of a builtin callable.
pub struct BuiltinView {
    pub name: Seq<char>,
    pub ret: TypeView,
    pub args: Seq<TypeView>,
    pub handler: Native,
}

/// The model of a callable: a definition in the program, or a builtin.
pub enum FnView {
    User(FnDef),
    Builtin(BuiltinView),
}

impl FnView {
    pub open spec fn name(self) -> Seq<char> {
        match self {
            FnView::User(def) => def.name@,
            FnView::Builtin(b) => b.name,
        }
    }

    pub open spec fn ret(self) -> TypeView {
        match self {
            FnView::User(def) => def.ret@,
            FnView::Builtin(b) => b.ret,
        }
    }

    pub open spec fn arg_tys(self) -> Seq<TypeView> {
        match self {
            FnView::User(def) => arg_type_views(def.args@),
            FnView::Builtin(b) => b.args,
        }
    }

    /// The tag of the callable: a function from its declared parameter
    /// types to its declared return type.
    pub open spec fn ty(self) -> TypeView {
        TypeView::Fn(Box::new(self.ret()), self.arg_tys())
    }

    /// Whether two callables are one definition. Definitions of the program
    /// are told apart by their identity, not by what they contain; builtins
    /// by their handler and name.
    pub open spec fn same_definition(self, other: FnView) -> bool {
        match (self, other) {
            (FnView::User(a), FnView::User(b)) => a.id == b.id,
            (FnView::Builtin(a), FnView::Builtin(b)) => a.handler == b.handler && a.name == b.name,
            _ => false,
        }
    }

    /// The text written for a callable.
    pub open spec fn text(self) -> Seq<char> {
        match self {
            FnView::User(def) => "<fn "@ + def.name@ + ">"@,
            FnView::Builtin(b) => "<builtin "@ + b.name + ">"@,
        }
    }
}

/// The model of a runtime value.
pub enum ValueView {
    Null,
    Int(int),
    /// A float, by its IEEE-754 bit pattern.
    Float(u64),
    Char(char),
    CharArray(Seq<char>),
    Bit(bool),
    Array(Seq<ValueView>),
    Fn(FnView),
    Type(TypeView),
}

/// The decimal digits of `n`, most significant first.
pub open spec fn digits(n: nat) -> Seq<char>
    decreases n,
{
    if n < 10 {
        seq![digit_char(n)]
    } else {
        digits(n / 10).push(digit_char(n % 10))
    }
}

/// The character of one decimal digit.
pub open spec fn digit_char(d: nat) -> char {
    if d == 0 {
        '0'
    } else if d == 1 {
        '1'
    } else if d == 2 {
        '2'
    } else if d == 3 {
        '3'
    } else if d == 4 {
        '4'
    } else if d == 5 {
        '5'
    } else if d == 6 {
        '6'
    } else if d == 7 {
        '7'
    } else if d == 8 {
        '8'
    } else {
        '9'
    }
}

/// An integer in decimal, with a leading `-` when it is negative.
pub open spec fn decimal(i: int) -> Seq<char> {
    if i < 0 {
        seq!['-'] + digits((-i) as nat)
    } else {
        digits(i as nat)
    }
}

/// The texts of `items[i..]`, joined by a comma and a space.
pub open spec fn texts(items: Seq<ValueView>, i: int) -> Seq<char>
    decreases items, items.len() - i,
{
    if 0 <= i < items.len() {
        if i + 1 < items.len() {
            items[i].text() + ", "@ + texts(items, i + 1)
        } else {
            items[i].text()
        }
    } else {
        Seq::empty()
    }
}

/// The texts of `items[i..]`, one after the other with nothing between.
pub open spec fn concat_texts(items: Seq<ValueView>, i: int) -> Seq<char>
    decreases items.len() - i,
{
    if 0 <= i < items.len() {
        items[i].text() + concat_texts(items, i + 1)
    } else {
        Seq::empty()
    }
}

impl ValueView {
    /// The tag of a value. An array has the tag of its first element inside
    /// it, and `null` inside it when it is empty.
    pub open spec fn ty(self) -> TypeView
        decreases self,
    {
        match self {
            ValueView::Null => tag_null(),
            ValueView::Int(_) => tag_int(),
            ValueView::Float(_) => tag_float(),
            ValueView::Char(_) => tag_char(),
            ValueView::CharArray(_) => tag_chararray(),
            ValueView::Bit(_) => tag_bit(),
            ValueView::Array(items) => TypeView::Array(
                Box::new(
                    if items.len() > 0 {
                        items[0].ty()
                    } else {
                        tag_null()
                    },
                ),
            ),
            ValueView::Fn(f) => f.ty(),
            ValueView::Type(_) => tag_type(),
        }
    }

    /// The text written for a value: an integer in decimal, a bit as `1b` or
    /// `0b`, a character or character array as it is, an array as
    /// `[v1, v2, ..]`, a callable as `<fn name>` or `<builtin name>`, and
    /// nothing for null, a float or a type.
    pub open spec fn text(self) -> Seq<char>
        decreases self,
    {
        match self {
            ValueView::Null => Seq::empty(),
            ValueView::Int(i) => decimal(i),
            ValueView::Float(_) => Seq::empty(),
            ValueView::Char(c) => seq![c],
            ValueView::CharArray(s) => s,
            ValueView::Bit(b) => if b {
                "1b"@
            } else {
                "0b"@
            },
            ValueView::Array(items) => "["@ + texts(items, 0) + "]"@,
            ValueView::Fn(f) => f.text(),
            ValueView::Type(_) => Seq::empty(),
        }
    }

    /// The field of a value with the given name. No builtin kind has fields.
    pub open spec fn field(self, name: Seq<char>) -> Option<ValueView> {
        None
    }

    /// The handler that implements `op` for this value as the left or sole
    /// operand, if its kind has one.
    pub open spec fn handler(self, op: Op) -> Option<Native> {
        match (self, op) {
            (ValueView::Int(_), Op::Eq) => Some(Native::IntEq),
            (ValueView::Int(_), Op::Neq) => Some(Native::IntNeq),
            (ValueView::Int(_), Op::Add) => Some(Native::IntAdd),
            (ValueView::Int(_), Op::Sub) => Some(Native::IntSub),
            (ValueView::Int(_), Op::Mul) => Some(Native::IntMul),
            (ValueView::Int(_), Op::Div) => Some(Native::IntDiv),
            (ValueView::Int(_), Op::Neg) => Some(Native::IntNeg),
            (ValueView::Bit(_), Op::Eq) => Some(Native::BitEq),
            (ValueView::Bit(_), Op::Neq) => Some(Native::BitNeq),
            (ValueView::Bit(_), Op::Not) => Some(Native::BitNot),
            (ValueView::Char(_), Op::Eq) => Some(Native::CharEq),
            (ValueView::Char(_), Op::Neq) => Some(Native::CharNeq),
            (ValueView::CharArray(_), Op::Eq) => Some(Native::CharArrayEq),
            (ValueView::CharArray(_), Op::Neq) => Some(Native::CharArrayNeq),
            (ValueView::Float(_), Op::Eq) => Some(Native::FloatEq),
            (ValueView::Float(_), Op::Neq) => Some(Native::FloatNeq),
            (ValueView::Fn(_), Op::Eq) => Some(Native::FnEq),
            (ValueView::Fn(_), Op::Neq) => Some(Native::FnNeq),
            _ => None,
        }
    }

    /// The builtin that implements `op` for this value, if any. Its declared
    /// parameters have the tag of this value: the other operand must have
    /// the same tag.
    pub open spec fn operator_builtin(self, op: Op) -> Option<BuiltinView> {
        match self.handler(op) {
            Some(h) => Some(
                if h is FnEq || h is FnNeq {
                    h.builtin_for(self.ty())
                } else {
                    h.builtin()
                },
            ),
            None => None,
        }
    }

    /// The callable that implements `op` for this value, if any.
    pub open spec fn operator(self, op: Op) -> Option<FnView> {
        match self.operator_builtin(op) {
            Some(b) => Some(FnView::Builtin(b)),
            None => None,
        }
    }
}

impl Native {
    /// The name under which the handler's builtin is known.
    pub open spec fn name(self) -> Seq<char> {
        match self {
            Native::WriteConsole => "write_console"@,
            Native::WriteError => "write_error"@,
            Native::WriteRawFile => "write_raw_file"@,
            Native::WriteIo => "write_io"@,
            Native::IntEq => "int_eq"@,
            Native::IntNeq => "int_neq"@,
            Native::IntAdd => "int_add"@,
            Native::IntSub => "int_sub"@,
            Native::IntMul => "int_mul"@,
            Native::IntDiv => "int_div"@,
            Native::IntNeg => "int_neg"@,
            Native::BitEq => "bit_eq"@,
            Native::BitNeq => "bit_neq"@,
            Native::BitNot => "bit_not"@,
            Native::CharEq => "char_eq"@,
            Native::CharNeq => "char_neq"@,
            Native::CharArrayEq => "chararray_eq"@,
            Native::CharArrayNeq => "chararray_neq"@,
            Native::FnEq => "fn_eq"@,
            Native::FnNeq => "fn_neq"@,
            Native::FloatEq => "float_eq"@,
            Native::FloatNeq => "float_neq"@,
        }
    }

    /// Whether the handler takes any number of arguments of any type.
    pub open spec fn variadic(self) -> bool {
        self is WriteConsole || self is WriteError || self is WriteRawFile || self is WriteIo
    }

    /// The tag of the operands that an operator handler works on. The
    /// handlers for callables work on callables of every tag: see
    /// `builtin_for`.
    pub open spec fn operand(self) -> TypeView {
        match self {
            Native::FnEq | Native::FnNeq => tag_any_fn(),
            Native::FloatEq | Native::FloatNeq => tag_float(),
            Native::IntEq | Native::IntNeq | Native::IntAdd | Native::IntSub | Native::IntMul
            | Native::IntDiv | Native::IntNeg => tag_int(),
            Native::BitEq | Native::BitNeq | Native::BitNot => tag_bit(),
            Native::CharEq | Native::CharNeq => tag_char(),
            Native::CharArrayEq | Native::CharArrayNeq => tag_chararray(),
            _ => tag_null(),
        }
    }

    /// How many operands an operator handler takes; 0 for a write handler.
    pub open spec fn operands(self) -> nat {
        if self.variadic() {
            0
        } else if self is IntNeg || self is BitNot {
            1
        } else {
            2
        }
    }

    /// The declared return type of the handler's builtin.
    pub open spec fn ret(self) -> TypeView {
        match self {
            Native::IntAdd | Native::IntSub | Native::IntMul | Native::IntDiv | Native::IntNeg =>
                tag_int(),
            Native::WriteConsole | Native::WriteError | Native::WriteRawFile | Native::WriteIo =>
                tag_null(),
            _ => tag_bit(),
        }
    }

    /// The declared parameter types of the handler's builtin.
    pub open spec fn params(self) -> Seq<TypeView> {
        Seq::new(self.operands(), |i: int| self.operand())
    }

    /// The builtin callable that carries this handler.
    pub open spec fn builtin(self) -> BuiltinView {
        BuiltinView { name: self.name(), ret: self.ret(), args: self.params(), handler: self }
    }

    /// The builtin callable that carries this handler for operands of the
    /// tag `operand`.
    pub open spec fn builtin_for(self, operand: TypeView) -> BuiltinView {
        BuiltinView {
            name: self.name(),
            ret: self.ret(),
            args: Seq::new(self.operands(), |i: int| operand),
            handler: self,
        }
    }
}

/// Where written text goes.
pub enum SinkView {
    Console,
    Error,
    /// The fixed file that raw writes are appended to.
    RawFile,
    /// An open descriptor that the program names by number. It is borrowed:
    /// whoever performs the write leaves it open.
    Descriptor(int),
    /// A named file, opened for appending and closed after the write.
    Named(Seq<char>),
}

/// One write that a program asked for.
pub struct OutputView {
    pub sink: SinkView,
    pub text: Seq<char>,
}

/// The model of an exception.
pub enum ExceptionView {
    InvalidType(TypeView, TypeView),
    InvalidOp(Op, TypeView, Option<TypeView>),
    NameNotFound(Seq<char>),
    Io,
}

impl ExceptionView {
    /// The message shown for an exception.
    pub open spec fn text(self) -> Seq<char> {
        match self {
            ExceptionView::InvalidType(expected, actual) => "Expected type `"@ + expected.text()
                + "`, got type `"@ + actual.text() + "`"@,
            ExceptionView::InvalidOp(op, left, Some(right)) => "Attempted to invoke operator "@
                + op.text() + " on invalid types. Left: `"@ + left.text() + "`, Right: `"@
                + right.text() + "`"@,
            ExceptionView::InvalidOp(op, left, None) => "Attempted to invoke operator "@
                + op.text() + " on invalid type `"@ + left.text() + "`"@,
            ExceptionView::NameNotFound(name) => "Attempted to access invalid identifier "@ + name,
            ExceptionView::Io => "IO operation failed"@,
        }
    }
}

/// The model of what stops an evaluation.
pub enum AbortView {
    Raised(ExceptionView),
    Fatal(Fatal),
    OutOfSteps,
}

/// The first index from `i` on whose element has another tag than the first
/// element.
pub open spec fn first_mismatch(items: Seq<ValueView>, i: int) -> Option<int>
    decreases items.len() - i,
{
    if 0 <= i < items.len() {
        if items[i].ty() != items[0].ty() {
            Some(i)
        } else {
            first_mismatch(items, i + 1)
        }
    } else {
        None
    }
}

/// Whether all elements have one tag.
pub open spec fn uniform(items: Seq<ValueView>) -> bool {
    forall|i: int| 0 <= i < items.len() ==> (#[trigger] items[i]).ty() == items[0].ty()
}

/// The array made of the given elements: refused with the first element's
/// tag as the expected one and the tag of the first element that differs as
/// the actual one.
pub open spec fn array_of(items: Seq<ValueView>) -> Result<ValueView, ExceptionView> {
    match first_mismatch(items, 1) {
        None => Ok(ValueView::Array(items)),
        Some(k) => Err(ExceptionView::InvalidType(items[0].ty(), items[k].ty())),
    }
}

/// The value bound to `name` in the innermost of the first `n` scopes that
/// binds it.
pub open spec fn lookup_from(
    scopes: Seq<Map<Seq<char>, ValueView>>,
    n: int,
    name: Seq<char>,
) -> Option<ValueView>
    decreases n,
{
    if n <= 0 || n > scopes.len() {
        None
    } else if scopes[n - 1].contains_key(name) {
        Some(scopes[n - 1][name])
    } else {
        lookup_from(scopes, n - 1, name)
    }
}

/// The model of an environment: the scopes, outermost first, each a map from
/// names to values; the two flags of the current activation; and the writes
/// asked for so far, oldest first.
pub struct EnvView {
    pub sync: bool,
    pub first_iter: bool,
    pub scopes: Seq<Map<Seq<char>, ValueView>>,
    pub outputs: Seq<OutputView>,
}

impl EnvView {
    /// The environment before anything has run.
    pub open spec fn initial() -> EnvView {
        EnvView { sync: false, first_iter: false, scopes: Seq::empty(), outputs: Seq::empty() }
    }

    /// The value that `name` resolves to: the binding of the innermost scope
    /// that has one.
    pub open spec fn lookup(self, name: Seq<char>) -> Option<ValueView> {
        lookup_from(self.scopes, self.scopes.len() as int, name)
    }

    /// The environment with `name` bound to `value` in the innermost scope.
    pub open spec fn bind(self, name: Seq<char>, value: ValueView) -> EnvView {
        EnvView {
            scopes: self.scopes.update(
                self.scopes.len() - 1,
                self.scopes.last().insert(name, value),
            ),
            ..self
        }
    }

    pub open spec fn push_scope(self) -> EnvView {
        EnvView { scopes: self.scopes.push(Map::empty()), ..self }
    }

    pub open spec fn pop_scope(self) -> EnvView {
        EnvView { scopes: self.scopes.drop_last(), ..self }
    }

    pub open spec fn set_first_iter(self, first: bool) -> EnvView {
        EnvView { first_iter: first, ..self }
    }

    pub open spec fn set_sync(self, sync: bool) -> EnvView {
        EnvView { sync: sync, ..self }
    }

    /// The environment with one more write asked for.
    pub open spec fn emit(self, output: OutputView) -> EnvView {
        EnvView { outputs: self.outputs.push(output), ..self }
    }
}

/// The quotient of `x` by `d` rounded towards zero; `d` is not zero.
pub open spec fn trunc_div(x: int, d: int) -> int {
    if x >= 0 && d > 0 {
        x / d
    } else if x < 0 && d < 0 {
        (-x) / (-d)
    } else if x < 0 {
        -((-x) / d)
    } else {
        -(x / (-d))
    }
}

/// Whether a bit pattern is a float that is not a number: all exponent bits
/// set and some fraction bit set.
pub open spec fn float_is_nan(bits: u64) -> bool {
    (bits & 0x7ff0_0000_0000_0000) == 0x7ff0_0000_0000_0000 && (bits & 0x000f_ffff_ffff_ffff) != 0
}

/// Whether a bit pattern is one of the two zeros: all bits but the sign
/// clear.
pub open spec fn float_is_zero(bits: u64) -> bool {
    (bits & 0x7fff_ffff_ffff_ffff) == 0
}

/// Whether two floats, given by their bit patterns, are equal as IEEE 754
/// has it: what is not a number equals nothing, the two zeros equal each
/// other, and every other float equals itself alone.
pub open spec fn float_equal(a: u64, b: u64) -> bool {
    !float_is_nan(a) && !float_is_nan(b) && (a == b || (float_is_zero(a) && float_is_zero(b)))
}

/// An integer result: the value when the native integer can hold it, and a
/// fatal overflow when it cannot.
pub open spec fn int_result(i: int) -> Result<ValueView, AbortView> {
    if i128::MIN <= i <= i128::MAX {
        Ok(ValueView::Int(i))
    } else {
        Err(AbortView::Fatal(Fatal::Overflow))
    }
}

/// The refusal of a value `v` where the tag `want` was required.
pub open spec fn refuse(want: TypeView, v: ValueView) -> AbortView {
    AbortView::Raised(ExceptionView::InvalidType(want, v.ty()))
}

/// The first index from `i` on at which the argument's tag is not the
/// declared one.
pub open spec fn first_bad_arg(params: Seq<TypeView>, args: Seq<ValueView>, i: int) -> Option<int>
    decreases args.len() - i,
{
    if 0 <= i < args.len() {
        if args[i].ty() != params[i] {
            Some(i)
        } else {
            first_bad_arg(params, args, i + 1)
        }
    } else {
        None
    }
}

/// What stops a call before it starts: a wrong number of arguments is
/// fatal, and the first argument of a wrong type raises an exception that
/// names the declared type and the argument's type.
pub open spec fn check_args(params: Seq<TypeView>, args: Seq<ValueView>) -> Option<AbortView> {
    if params.len() != args.len() {
        Some(AbortView::Fatal(Fatal::Arity))
    } else {
        match first_bad_arg(params, args, 0) {
            Some(k) => Some(refuse(params[k], args[k])),
            None => None,
        }
    }
}

impl Native {
    /// The sink of a write handler that always writes to the same place.
    pub open spec fn fixed_sink(self) -> SinkView {
        match self {
            Native::WriteError => SinkView::Error,
            Native::WriteRawFile => SinkView::RawFile,
            _ => SinkView::Console,
        }
    }

    /// Whether the handler can be run on `n` arguments.
    pub open spec fn takes(self, n: nat) -> bool {
        if self.variadic() {
            self is WriteIo ==> n >= 1
        } else {
            n == self.operands()
        }
    }

    /// What the handler returns for the given arguments.
    pub open spec fn apply(self, args: Seq<ValueView>) -> Result<ValueView, AbortView> {
        match self {
            Native::WriteConsole | Native::WriteError | Native::WriteRawFile => Ok(ValueView::Null),
            Native::WriteIo => {
                if args.len() == 0 {
                    Err(AbortView::Fatal(Fatal::Arity))
                } else {
                    match args[0] {
                        ValueView::Int(_) => Ok(ValueView::Null),
                        ValueView::CharArray(_) => Ok(ValueView::Null),
                        _ => Err(refuse(tag_chararray(), args[0])),
                    }
                }
            },
            Native::IntNeg => {
                if args.len() != 1 {
                    Err(AbortView::Fatal(Fatal::Arity))
                } else {
                    match args[0] {
                        ValueView::Int(a) => int_result(-a),
                        _ => Err(refuse(tag_int(), args[0])),
                    }
                }
            },
            Native::BitNot => {
                if args.len() != 1 {
                    Err(AbortView::Fatal(Fatal::Arity))
                } else {
                    match args[0] {
                        ValueView::Bit(a) => Ok(ValueView::Bit(!a)),
                        _ => Err(refuse(tag_bit(), args[0])),
                    }
                }
            },
            _ => {
                if args.len() != 2 {
                    Err(AbortView::Fatal(Fatal::Arity))
                } else {
                    self.apply_binary(args[0], args[1])
                }
            },
        }
    }

    /// What a two-operand handler returns. The left operand is looked at
    /// first: a handler refuses the first operand that is not of its kind.
    pub open spec fn apply_binary(self, left: ValueView, right: ValueView) -> Result<
        ValueView,
        AbortView,
    > {
        match self {
            Native::IntEq | Native::IntNeq | Native::IntAdd | Native::IntSub | Native::IntMul
            | Native::IntDiv => match (left, right) {
                (ValueView::Int(a), ValueView::Int(b)) => match self {
                    Native::IntEq => Ok(ValueView::Bit(a == b)),
                    Native::IntNeq => Ok(ValueView::Bit(a != b)),
                    Native::IntAdd => int_result(a + b),
                    Native::IntSub => int_result(a - b),
                    Native::IntMul => int_result(a * b),
                    _ => if b == 0 {
                        Err(AbortView::Fatal(Fatal::DivideByZero))
                    } else {
                        int_result(trunc_div(a, b))
                    },
                },
                (ValueView::Int(_), _) => Err(refuse(tag_int(), right)),
                _ => Err(refuse(tag_int(), left)),
            },
            Native::BitEq | Native::BitNeq => match (left, right) {
                (ValueView::Bit(a), ValueView::Bit(b)) => Ok(
                    ValueView::Bit(
                        if self is BitEq {
                            a == b
                        } else {
                            a != b
                        },
                    ),
                ),
                (ValueView::Bit(_), _) => Err(refuse(tag_bit(), right)),
                _ => Err(refuse(tag_bit(), left)),
            },
            Native::CharEq | Native::CharNeq => match (left, right) {
                (ValueView::Char(a), ValueView::Char(b)) => Ok(
                    ValueView::Bit(
                        if self is CharEq {
                            a == b
                        } else {
                            a != b
                        },
                    ),
                ),
                (ValueView::Char(_), _) => Err(refuse(tag_char(), right)),
                _ => Err(refuse(tag_char(), left)),
            },
            Native::FloatEq | Native::FloatNeq => match (left, right) {
                (ValueView::Float(a), ValueView::Float(b)) => Ok(
                    ValueView::Bit(
                        if self is FloatEq {
                            float_equal(a, b)
                        } else {
                            !float_equal(a, b)
                        },
                    ),
                ),
                (ValueView::Float(_), _) => Err(refuse(tag_float(), right)),
                _ => Err(refuse(tag_float(), left)),
            },
            Native::CharArrayEq | Native::CharArrayNeq => match (left, right) {
                (ValueView::CharArray(a), ValueView::CharArray(b)) => Ok(
                    ValueView::Bit(
                        if self is CharArrayEq {
                            a == b
                        } else {
                            a != b
                        },
                    ),
                ),
                (ValueView::CharArray(_), _) => Err(refuse(tag_chararray(), right)),
                _ => Err(refuse(tag_chararray(), left)),
            },
            _ => match (left, right) {
                (ValueView::Fn(a), ValueView::Fn(b)) => Ok(
                    ValueView::Bit(
                        if self is FnEq {
                            a.same_definition(b)
                        } else {
                            !a.same_definition(b)
                        },
                    ),
                ),
                (ValueView::Fn(_), _) => Err(refuse(tag_any_fn(), right)),
                _ => Err(refuse(tag_any_fn(), left)),
            },
        }
    }

    /// The write that the handler asks for, when it returns a value.
    pub open spec fn output(self, args: Seq<ValueView>) -> Option<OutputView> {
        match self {
            Native::WriteConsole | Native::WriteError | Native::WriteRawFile => Some(
                OutputView { sink: self.fixed_sink(), text: concat_texts(args, 0) },
            ),
            Native::WriteIo => {
                if args.len() == 0 {
                    None
                } else {
                    match args[0] {
                        ValueView::Int(fd) => Some(
                            OutputView {
                                sink: SinkView::Descriptor(fd),
                                text: concat_texts(args, 1),
                            },
                        ),
                        ValueView::CharArray(path) => Some(
                            OutputView { sink: SinkView::Named(path), text: concat_texts(args, 1) },
                        ),
                        _ => None,
                    }
                }
            },
            _ => None,
        }
    }
}

/// The sink that the first argument of `write_io` names: an integer names
/// an open descriptor, a character array names a file, and no other value
/// names a sink.
pub open spec fn target_sink(target: ValueView) -> Option<SinkView> {
    match target {
        ValueView::Int(fd) => Some(SinkView::Descriptor(fd)),
        ValueView::CharArray(path) => Some(SinkView::Named(path)),
        _ => None,
    }
}

impl BuiltinView {
    /// Whether the builtin, as the operator of a left operand, accepts
    /// `right` as its right operand: the tag of `right` is the tag that the
    /// builtin declares for its second parameter.
    pub open spec fn accepts(self, right: ValueView) -> bool {
        self.args.len() >= 2 ==> right.ty() == self.args[1]
    }

    /// Whether the builtin can be called with `n` arguments: a handler with
    /// a fixed number of operands takes that number, which is also the
    /// number of declared parameters; `write_io` takes its target and any
    /// number of arguments; the other write handlers take any number.
    pub open spec fn fits(self, n: nat) -> bool {
        if self.handler.variadic() {
            self.handler.takes(n)
        } else {
            n == self.args.len() && self.handler.takes(n)
        }
    }

    /// What a call of the builtin returns. A wrong number of arguments is
    /// fatal. A handler with a fixed number of operands is called only
    /// after the arguments were checked against the declared parameters.
    pub open spec fn result(self, args: Seq<ValueView>) -> Result<ValueView, AbortView> {
        if !self.fits(args.len()) {
            Err(AbortView::Fatal(Fatal::Arity))
        } else if self.handler.variadic() {
            self.handler.apply(args)
        } else {
            match check_args(self.args, args) {
                Some(abort) => Err(abort),
                None => self.handler.apply(args),
            }
        }
    }

    /// The environment after a call of the builtin: a write handler that
    /// returns adds its write, and nothing else changes.
    pub open spec fn effect(self, env: EnvView, args: Seq<ValueView>) -> EnvView {
        if self.result(args) is Ok {
            match self.handler.output(args) {
                Some(output) => env.emit(output),
                None => env,
            }
        } else {
            env
        }
    }
}

} // verus!
