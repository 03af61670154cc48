//! The instruction set: a closed catalogue of operations, each with a
//! mnemonic and a fixed tuple of operands.
//!
//! Operations that share an operand layout form a family. The members of a
//! family differ in name and meaning only, so whatever reads or writes
//! instructions needs one path per family.

use vstd::prelude::*;
use crate::bytecode::virtualregister::VirtualRegister;

verus! {

/// The operations that take two registers and put a result in a third.
#[derive(Clone, Copy, Debug, PartialEq, Eq, Structural)]
pub enum BinaryOp {
    Eq,
    Neq,
    StrictEq,
    StrictNeq,
    Less,
    LessEq,
    Greater,
    GreaterEq,
    Below,
    BelowEq,
    Mod,
    Pow,
    LShift,
    RShift,
    URshift,
}

/// The arithmetic operations that carry a feedback slot.
#[derive(Clone, Copy, Debug, PartialEq, Eq, Structural)]
pub enum ProfiledBinaryOp {
    Add,
    Sub,
    Div,
    Mul,
    BitAnd,
    BitOr,
    BitXor,
}

/// The operations that take one register and put a result in another.
#[derive(Clone, Copy, Debug, PartialEq, Eq, Structural)]
pub enum UnaryOp {
    EqNull,
    NeqNull,
    ToString,
    Unsigned,
    IsEmpty,
    IsUndefined,
    IsUndefOrNull,
    IsBoolean,
    IsNumber,
    IsObject,
    IsFunction,
}

/// The operations that compare two registers and jump.
#[derive(Clone, Copy, Debug, PartialEq, Eq, Structural)]
pub enum BinaryJmpOp {
    Jeq,
    JStrictEq,
    Jneq,
    JNStrictEq,
    JLess,
    JLessEq,
    JGreaterEq,
    JNLess,
    JNLessEq,
    JNGreater,
    JNGreaterEq,
    JBelow,
    JBelowEq,
}

/// What an instruction does, without its operands.
#[derive(Clone, Copy, Debug, PartialEq, Eq, Structural)]
pub enum Opcode {
    GetScope,
    PushScope,
    PopScope,
    ResolveScope,
    GetArgument,
    ArgumentCount,
    Mov,
    Binary(BinaryOp),
    ProfiledBinary(ProfiledBinaryOp),
    BitNot,
    Unary(UnaryOp),
    Inc,
    Dec,
    PutById,
    GetById,
    PutByVal,
    GetByVal,
    DelById,
    DelByVal,
    PutSetterByVal,
    PutGetterByVal,
    Jmp,
    JTrue,
    JFalse,
    JEQNull,
    JNEQNull,
    JUndefinedOrNull,
    JNUndefinedOrNull,
    BinaryJmp(BinaryJmpOp),
}

/// What kind of operand stands at a place of an instruction.
#[derive(Clone, Copy, Debug, PartialEq, Eq, Structural)]
pub enum OperandKind {
    /// A virtual register.
    Register,
    /// A plain number, such as the index of an argument.
    Index,
    /// The slot where the runtime keeps what it learns about a call site.
    /// It is carried along and never looked into.
    Feedback,
    /// The target of a jump, as a signed count of instructions from here.
    Label,
}

/// An operand of an instruction.
#[derive(Clone, Copy, Debug, PartialEq, Eq, Structural)]
pub enum Operand {
    Register(VirtualRegister),
    Index(i32),
    Feedback(u32),
    Label(i32),
}

/// One instruction: an operation with its operands.
#[allow(inconsistent_fields)]
#[derive(Clone, Copy, Debug, PartialEq, Eq, Structural)]
pub enum Instruction {
    GetScope { dst: VirtualRegister },
    PushScope { src: VirtualRegister },
    PopScope { dst: VirtualRegister },
    /// Puts in `dst` the scope that holds the variable named by `src`.
    ResolveScope { dst: VirtualRegister, src: VirtualRegister },
    GetArgument { dst: VirtualRegister, index: i32 },
    ArgumentCount { dst: VirtualRegister },
    Mov { dst: VirtualRegister, src: VirtualRegister },
    Binary { op: BinaryOp, dst: VirtualRegister, lhs: VirtualRegister, rhs: VirtualRegister },
    ProfiledBinary {
        op: ProfiledBinaryOp,
        dst: VirtualRegister,
        lhs: VirtualRegister,
        rhs: VirtualRegister,
        fdbk: u32,
    },
    BitNot { dst: VirtualRegister, operand: VirtualRegister },
    Unary { op: UnaryOp, dst: VirtualRegister, src: VirtualRegister },
    Inc { srcdst: VirtualRegister },
    Dec { srcdst: VirtualRegister },
    PutById { value: VirtualRegister, base: VirtualRegister, id: VirtualRegister, fdbk: u32 },
    GetById { dst: VirtualRegister, base: VirtualRegister, id: VirtualRegister, fdbk: u32 },
    PutByVal { value: VirtualRegister, base: VirtualRegister, key: VirtualRegister },
    GetByVal { dst: VirtualRegister, base: VirtualRegister, key: VirtualRegister },
    DelById { dst: VirtualRegister, base: VirtualRegister, property: VirtualRegister },
    DelByVal { dst: VirtualRegister, base: VirtualRegister, val: VirtualRegister },
    PutSetterByVal { base: VirtualRegister, property: VirtualRegister, accessor: VirtualRegister },
    PutGetterByVal { base: VirtualRegister, property: VirtualRegister, accessor: VirtualRegister },
    Jmp { label: i32 },
    JTrue { condition: VirtualRegister, label: i32 },
    JFalse { condition: VirtualRegister, label: i32 },
    JEQNull { value: VirtualRegister, label: i32 },
    JNEQNull { value: VirtualRegister, label: i32 },
    JUndefinedOrNull { value: VirtualRegister, label: i32 },
    JNUndefinedOrNull { value: VirtualRegister, label: i32 },
    BinaryJmp { op: BinaryJmpOp, lhs: VirtualRegister, rhs: VirtualRegister, label: i32 },
}

impl BinaryOp {
    pub open spec fn spec_mnemonic(self) -> Seq<char> {
        match self {
            BinaryOp::Eq => "eq"@,
            BinaryOp::Neq => "neq"@,
            BinaryOp::StrictEq => "stricteq"@,
            BinaryOp::StrictNeq => "nstricteq"@,
            BinaryOp::Less => "less"@,
            BinaryOp::LessEq => "lesseq"@,
            BinaryOp::Greater => "greater"@,
            BinaryOp::GreaterEq => "greatereq"@,
            BinaryOp::Below => "below"@,
            BinaryOp::BelowEq => "beloweq"@,
            BinaryOp::Mod => "mod"@,
            BinaryOp::Pow => "pow"@,
            BinaryOp::LShift => "lshift"@,
            BinaryOp::RShift => "rshift"@,
            BinaryOp::URshift => "urshift"@,
        }
    }

    /// The name of this operation in a listing.
    pub fn mnemonic(self) -> (name: &'static str)
        ensures
            name@ == self.spec_mnemonic(),
    {
        match self {
            BinaryOp::Eq => "eq",
            BinaryOp::Neq => "neq",
            BinaryOp::StrictEq => "stricteq",
            BinaryOp::StrictNeq => "nstricteq",
            BinaryOp::Less => "less",
            BinaryOp::LessEq => "lesseq",
            BinaryOp::Greater => "greater",
            BinaryOp::GreaterEq => "greatereq",
            BinaryOp::Below => "below",
            BinaryOp::BelowEq => "beloweq",
            BinaryOp::Mod => "mod",
            BinaryOp::Pow => "pow",
            BinaryOp::LShift => "lshift",
            BinaryOp::RShift => "rshift",
            BinaryOp::URshift => "urshift",
        }
    }
}

impl ProfiledBinaryOp {
    pub open spec fn spec_mnemonic(self) -> Seq<char> {
        match self {
            ProfiledBinaryOp::Add => "add"@,
            ProfiledBinaryOp::Sub => "sub"@,
            ProfiledBinaryOp::Div => "div"@,
            ProfiledBinaryOp::Mul => "mul"@,
            ProfiledBinaryOp::BitAnd => "bitand"@,
            ProfiledBinaryOp::BitOr => "bitor"@,
            ProfiledBinaryOp::BitXor => "bitxor"@,
        }
    }

    /// The name of this operation in a listing.
    pub fn mnemonic(self) -> (name: &'static str)
        ensures
            name@ == self.spec_mnemonic(),
    {
        match self {
            ProfiledBinaryOp::Add => "add",
            ProfiledBinaryOp::Sub => "sub",
            ProfiledBinaryOp::Div => "div",
            ProfiledBinaryOp::Mul => "mul",
            ProfiledBinaryOp::BitAnd => "bitand",
            ProfiledBinaryOp::BitOr => "bitor",
            ProfiledBinaryOp::BitXor => "bitxor",
        }
    }
}

impl UnaryOp {
    pub open spec fn spec_mnemonic(self) -> Seq<char> {
        match self {
            UnaryOp::EqNull => "eq_null"@,
            UnaryOp::NeqNull => "neq_null"@,
            UnaryOp::ToString => "to_string"@,
            UnaryOp::Unsigned => "unsigned"@,
            UnaryOp::IsEmpty => "is_empty"@,
            UnaryOp::IsUndefined => "is_undefined"@,
            UnaryOp::IsUndefOrNull => "is_undefiner_or_null"@,
            UnaryOp::IsBoolean => "is_boolean"@,
            UnaryOp::IsNumber => "is_number"@,
            UnaryOp::IsObject => "is_object"@,
            UnaryOp::IsFunction => "is_function"@,
        }
    }

    /// The name of this operation in a listing.
    pub fn mnemonic(self) -> (name: &'static str)
        ensures
            name@ == self.spec_mnemonic(),
    {
        match self {
            UnaryOp::EqNull => "eq_null",
            UnaryOp::NeqNull => "neq_null",
            UnaryOp::ToString => "to_string",
            UnaryOp::Unsigned => "unsigned",
            UnaryOp::IsEmpty => "is_empty",
            UnaryOp::IsUndefined => "is_undefined",
            UnaryOp::IsUndefOrNull => "is_undefiner_or_null",
            UnaryOp::IsBoolean => "is_boolean",
            UnaryOp::IsNumber => "is_number",
            UnaryOp::IsObject => "is_object",
            UnaryOp::IsFunction => "is_function",
        }
    }
}

impl BinaryJmpOp {
    pub open spec fn spec_mnemonic(self) -> Seq<char> {
        match self {
            BinaryJmpOp::Jeq => "jeq"@,
            BinaryJmpOp::JStrictEq => "jstricteq"@,
            BinaryJmpOp::Jneq => "jneq"@,
            BinaryJmpOp::JNStrictEq => "jnstricteq"@,
            BinaryJmpOp::JLess => "jless"@,
            BinaryJmpOp::JLessEq => "jlesseq"@,
            BinaryJmpOp::JGreaterEq => "jgreatereq"@,
            BinaryJmpOp::JNLess => "jnless"@,
            BinaryJmpOp::JNLessEq => "jnlesseq"@,
            BinaryJmpOp::JNGreater => "jngreater"@,
            BinaryJmpOp::JNGreaterEq => "jngreatereq"@,
            BinaryJmpOp::JBelow => "jbelow"@,
            BinaryJmpOp::JBelowEq => "jbeloweq"@,
        }
    }

    /// The name of this operation in a listing.
    pub fn mnemonic(self) -> (name: &'static str)
        ensures
            name@ == self.spec_mnemonic(),
    {
        match self {
            BinaryJmpOp::Jeq => "jeq",
            BinaryJmpOp::JStrictEq => "jstricteq",
            BinaryJmpOp::Jneq => "jneq",
            BinaryJmpOp::JNStrictEq => "jnstricteq",
            BinaryJmpOp::JLess => "jless",
            BinaryJmpOp::JLessEq => "jlesseq",
            BinaryJmpOp::JGreaterEq => "jgreatereq",
            BinaryJmpOp::JNLess => "jnless",
            BinaryJmpOp::JNLessEq => "jnlesseq",
            BinaryJmpOp::JNGreater => "jngreater",
            BinaryJmpOp::JNGreaterEq => "jngreatereq",
            BinaryJmpOp::JBelow => "jbelow",
            BinaryJmpOp::JBelowEq => "jbeloweq",
        }
    }
}

impl Opcode {
    pub open spec fn spec_mnemonic(self) -> Seq<char> {
        match self {
            Opcode::GetScope => "get_scope"@,
            Opcode::PushScope => "push_scope"@,
            Opcode::PopScope => "pop_scope"@,
            Opcode::ResolveScope => "resolve_scope"@,
            Opcode::GetArgument => "get_argument"@,
            Opcode::ArgumentCount => "argument_count"@,
            Opcode::Mov => "mov"@,
            Opcode::Binary(op) => op.spec_mnemonic(),
            Opcode::ProfiledBinary(op) => op.spec_mnemonic(),
            Opcode::BitNot => "bitnot"@,
            Opcode::Unary(op) => op.spec_mnemonic(),
            Opcode::Inc => "inc"@,
            Opcode::Dec => "dec"@,
            Opcode::PutById => "put_by_id"@,
            Opcode::GetById => "get_by_id"@,
            Opcode::PutByVal => "put_by_val"@,
            Opcode::GetByVal => "get_by_val"@,
            Opcode::DelById => "del_by_id"@,
            Opcode::DelByVal => "del_by_val"@,
            Opcode::PutSetterByVal => "put_setter_by_val"@,
            Opcode::PutGetterByVal => "put_getter_by_val"@,
            Opcode::Jmp => "jmp"@,
            Opcode::JTrue => "jtrue"@,
            Opcode::JFalse => "jfalse"@,
            Opcode::JEQNull => "jeqnull"@,
            Opcode::JNEQNull => "jneqnull"@,
            Opcode::JUndefinedOrNull => "jundefornull"@,
            Opcode::JNUndefinedOrNull => "jnundefornull"@,
            Opcode::BinaryJmp(op) => op.spec_mnemonic(),
        }
    }

    /// The name of this operation in a listing.
    pub fn mnemonic(self) -> (name: &'static str)
        ensures
            name@ == self.spec_mnemonic(),
    {
        match self {
            Opcode::GetScope => "get_scope",
            Opcode::PushScope => "push_scope",
            Opcode::PopScope => "pop_scope",
            Opcode::ResolveScope => "resolve_scope",
            Opcode::GetArgument => "get_argument",
            Opcode::ArgumentCount => "argument_count",
            Opcode::Mov => "mov",
            Opcode::Binary(op) => op.mnemonic(),
            Opcode::ProfiledBinary(op) => op.mnemonic(),
            Opcode::BitNot => "bitnot",
            Opcode::Unary(op) => op.mnemonic(),
            Opcode::Inc => "inc",
            Opcode::Dec => "dec",
            Opcode::PutById => "put_by_id",
            Opcode::GetById => "get_by_id",
            Opcode::PutByVal => "put_by_val",
            Opcode::GetByVal => "get_by_val",
            Opcode::DelById => "del_by_id",
            Opcode::DelByVal => "del_by_val",
            Opcode::PutSetterByVal => "put_setter_by_val",
            Opcode::PutGetterByVal => "put_getter_by_val",
            Opcode::Jmp => "jmp",
            Opcode::JTrue => "jtrue",
            Opcode::JFalse => "jfalse",
            Opcode::JEQNull => "jeqnull",
            Opcode::JNEQNull => "jneqnull",
            Opcode::JUndefinedOrNull => "jundefornull",
            Opcode::JNUndefinedOrNull => "jnundefornull",
            Opcode::BinaryJmp(op) => op.mnemonic(),
        }
    }

    /// The kinds of the operands that an instruction with this operation
    /// has, in order. Every member of a family has the family's shape.
    pub open spec fn spec_shape(self) -> Seq<OperandKind> {
        match self {
            Opcode::GetScope | Opcode::PushScope | Opcode::PopScope | Opcode::ArgumentCount
            | Opcode::Inc | Opcode::Dec => seq![OperandKind::Register],
            Opcode::ResolveScope | Opcode::Mov | Opcode::BitNot | Opcode::Unary(_) => seq![
                OperandKind::Register,
                OperandKind::Register,
            ],
            Opcode::GetArgument => seq![OperandKind::Register, OperandKind::Index],
            Opcode::Binary(_) | Opcode::PutByVal | Opcode::GetByVal | Opcode::DelById
            | Opcode::DelByVal | Opcode::PutSetterByVal | Opcode::PutGetterByVal => seq![
                OperandKind::Register,
                OperandKind::Register,
                OperandKind::Register,
            ],
            Opcode::ProfiledBinary(_) | Opcode::PutById | Opcode::GetById => seq![
                OperandKind::Register,
                OperandKind::Register,
                OperandKind::Register,
                OperandKind::Feedback,
            ],
            Opcode::Jmp => seq![OperandKind::Label],
            Opcode::JTrue | Opcode::JFalse | Opcode::JEQNull | Opcode::JNEQNull
            | Opcode::JUndefinedOrNull | Opcode::JNUndefinedOrNull => seq![
                OperandKind::Register,
                OperandKind::Label,
            ],
            Opcode::BinaryJmp(_) => seq![
                OperandKind::Register,
                OperandKind::Register,
                OperandKind::Label,
            ],
        }
    }

    /// The kinds of the operands that an instruction with this operation
    /// has, in order.
    pub fn shape(self) -> (kinds: Vec<OperandKind>)
        ensures
            kinds@ == self.spec_shape(),
    {
        match self {
            Opcode::GetScope | Opcode::PushScope | Opcode::PopScope | Opcode::ArgumentCount
            | Opcode::Inc | Opcode::Dec => vec![OperandKind::Register],
            Opcode::ResolveScope | Opcode::Mov | Opcode::BitNot | Opcode::Unary(_) => vec![
                OperandKind::Register,
                OperandKind::Register,
            ],
            Opcode::GetArgument => vec![OperandKind::Register, OperandKind::Index],
            Opcode::Binary(_) | Opcode::PutByVal | Opcode::GetByVal | Opcode::DelById
            | Opcode::DelByVal | Opcode::PutSetterByVal | Opcode::PutGetterByVal => vec![
                OperandKind::Register,
                OperandKind::Register,
                OperandKind::Register,
            ],
            Opcode::ProfiledBinary(_) | Opcode::PutById | Opcode::GetById => vec![
                OperandKind::Register,
                OperandKind::Register,
                OperandKind::Register,
                OperandKind::Feedback,
            ],
            Opcode::Jmp => vec![OperandKind::Label],
            Opcode::JTrue | Opcode::JFalse | Opcode::JEQNull | Opcode::JNEQNull
            | Opcode::JUndefinedOrNull | Opcode::JNUndefinedOrNull => vec![
                OperandKind::Register,
                OperandKind::Label,
            ],
            Opcode::BinaryJmp(_) => vec![
                OperandKind::Register,
                OperandKind::Register,
                OperandKind::Label,
            ],
        }
    }
}

impl Operand {
    pub open spec fn spec_kind(self) -> OperandKind {
        match self {
            Operand::Register(_) => OperandKind::Register,
            Operand::Index(_) => OperandKind::Index,
            Operand::Feedback(_) => OperandKind::Feedback,
            Operand::Label(_) => OperandKind::Label,
        }
    }

    /// What kind of operand this is.
    #[verifier::when_used_as_spec(spec_kind)]
    pub fn kind(self) -> (kind: OperandKind)
        ensures
            kind == self.spec_kind(),
    {
        match self {
            Operand::Register(_) => OperandKind::Register,
            Operand::Index(_) => OperandKind::Index,
            Operand::Feedback(_) => OperandKind::Feedback,
            Operand::Label(_) => OperandKind::Label,
        }
    }
}

/// The kinds of `operands`, in order.
pub open spec fn kinds_of(operands: Seq<Operand>) -> Seq<OperandKind> {
    operands.map_values(|operand: Operand| operand.spec_kind())
}

/// The register at place `i` of `operands`.
pub open spec fn register_at(operands: Seq<Operand>, i: int) -> VirtualRegister {
    operands[i]->Register_0
}

/// The number at place `i` of `operands`.
pub open spec fn index_at(operands: Seq<Operand>, i: int) -> i32 {
    operands[i]->Index_0
}

/// The feedback slot at place `i` of `operands`.
pub open spec fn feedback_at(operands: Seq<Operand>, i: int) -> u32 {
    operands[i]->Feedback_0
}

/// The label at place `i` of `operands`.
pub open spec fn label_at(operands: Seq<Operand>, i: int) -> i32 {
    operands[i]->Label_0
}

impl Instruction {
    pub open spec fn spec_opcode(self) -> Opcode {
        match self {
            Instruction::GetScope { .. } => Opcode::GetScope,
            Instruction::PushScope { .. } => Opcode::PushScope,
            Instruction::PopScope { .. } => Opcode::PopScope,
            Instruction::ResolveScope { .. } => Opcode::ResolveScope,
            Instruction::GetArgument { .. } => Opcode::GetArgument,
            Instruction::ArgumentCount { .. } => Opcode::ArgumentCount,
            Instruction::Mov { .. } => Opcode::Mov,
            Instruction::Binary { op, .. } => Opcode::Binary(op),
            Instruction::ProfiledBinary { op, .. } => Opcode::ProfiledBinary(op),
            Instruction::BitNot { .. } => Opcode::BitNot,
            Instruction::Unary { op, .. } => Opcode::Unary(op),
            Instruction::Inc { .. } => Opcode::Inc,
            Instruction::Dec { .. } => Opcode::Dec,
            Instruction::PutById { .. } => Opcode::PutById,
            Instruction::GetById { .. } => Opcode::GetById,
            Instruction::PutByVal { .. } => Opcode::PutByVal,
            Instruction::GetByVal { .. } => Opcode::GetByVal,
            Instruction::DelById { .. } => Opcode::DelById,
            Instruction::DelByVal { .. } => Opcode::DelByVal,
            Instruction::PutSetterByVal { .. } => Opcode::PutSetterByVal,
            Instruction::PutGetterByVal { .. } => Opcode::PutGetterByVal,
            Instruction::Jmp { .. } => Opcode::Jmp,
            Instruction::JTrue { .. } => Opcode::JTrue,
            Instruction::JFalse { .. } => Opcode::JFalse,
            Instruction::JEQNull { .. } => Opcode::JEQNull,
            Instruction::JNEQNull { .. } => Opcode::JNEQNull,
            Instruction::JUndefinedOrNull { .. } => Opcode::JUndefinedOrNull,
            Instruction::JNUndefinedOrNull { .. } => Opcode::JNUndefinedOrNull,
            Instruction::BinaryJmp { op, .. } => Opcode::BinaryJmp(op),
        }
    }

    /// What this instruction does.
    #[verifier::when_used_as_spec(spec_opcode)]
    pub fn opcode(self) -> (opcode: Opcode)
        ensures
            opcode == self.spec_opcode(),
    {
        match self {
            Instruction::GetScope { .. } => Opcode::GetScope,
            Instruction::PushScope { .. } => Opcode::PushScope,
            Instruction::PopScope { .. } => Opcode::PopScope,
            Instruction::ResolveScope { .. } => Opcode::ResolveScope,
            Instruction::GetArgument { .. } => Opcode::GetArgument,
            Instruction::ArgumentCount { .. } => Opcode::ArgumentCount,
            Instruction::Mov { .. } => Opcode::Mov,
            Instruction::Binary { op, .. } => Opcode::Binary(op),
            Instruction::ProfiledBinary { op, .. } => Opcode::ProfiledBinary(op),
            Instruction::BitNot { .. } => Opcode::BitNot,
            Instruction::Unary { op, .. } => Opcode::Unary(op),
            Instruction::Inc { .. } => Opcode::Inc,
            Instruction::Dec { .. } => Opcode::Dec,
            Instruction::PutById { .. } => Opcode::PutById,
            Instruction::GetById { .. } => Opcode::GetById,
            Instruction::PutByVal { .. } => Opcode::PutByVal,
            Instruction::GetByVal { .. } => Opcode::GetByVal,
            Instruction::DelById { .. } => Opcode::DelById,
            Instruction::DelByVal { .. } => Opcode::DelByVal,
            Instruction::PutSetterByVal { .. } => Opcode::PutSetterByVal,
            Instruction::PutGetterByVal { .. } => Opcode::PutGetterByVal,
            Instruction::Jmp { .. } => Opcode::Jmp,
            Instruction::JTrue { .. } => Opcode::JTrue,
            Instruction::JFalse { .. } => Opcode::JFalse,
            Instruction::JEQNull { .. } => Opcode::JEQNull,
            Instruction::JNEQNull { .. } => Opcode::JNEQNull,
            Instruction::JUndefinedOrNull { .. } => Opcode::JUndefinedOrNull,
            Instruction::JNUndefinedOrNull { .. } => Opcode::JNUndefinedOrNull,
            Instruction::BinaryJmp { op, .. } => Opcode::BinaryJmp(op),
        }
    }

    /// The name of this instruction's operation in a listing.
    pub fn mnemonic(self) -> (name: &'static str)
        ensures
            name@ == self.spec_opcode().spec_mnemonic(),
    {
        self.opcode().mnemonic()
    }

    /// The operands of this instruction, in order.
    pub open spec fn spec_operands(self) -> Seq<Operand> {
        match self {
            Instruction::GetScope { dst } => seq![Operand::Register(dst)],
            Instruction::PushScope { src } => seq![Operand::Register(src)],
            Instruction::PopScope { dst } => seq![Operand::Register(dst)],
            Instruction::ResolveScope { dst, src } => seq![Operand::Register(dst), Operand::Register(src)],
            Instruction::GetArgument { dst, index } => seq![Operand::Register(dst), Operand::Index(index)],
            Instruction::ArgumentCount { dst } => seq![Operand::Register(dst)],
            Instruction::Mov { dst, src } => seq![Operand::Register(dst), Operand::Register(src)],
            Instruction::Binary { op, dst, lhs, rhs } => seq![Operand::Register(dst), Operand::Register(lhs), Operand::Register(rhs)],
            Instruction::ProfiledBinary { op, dst, lhs, rhs, fdbk } => seq![Operand::Register(dst), Operand::Register(lhs), Operand::Register(rhs), Operand::Feedback(fdbk)],
            Instruction::BitNot { dst, operand } => seq![Operand::Register(dst), Operand::Register(operand)],
            Instruction::Unary { op, dst, src } => seq![Operand::Register(dst), Operand::Register(src)],
            Instruction::Inc { srcdst } => seq![Operand::Register(srcdst)],
            Instruction::Dec { srcdst } => seq![Operand::Register(srcdst)],
            Instruction::PutById { value, base, id, fdbk } => seq![Operand::Register(value), Operand::Register(base), Operand::Register(id), Operand::Feedback(fdbk)],
            Instruction::GetById { dst, base, id, fdbk } => seq![Operand::Register(dst), Operand::Register(base), Operand::Register(id), Operand::Feedback(fdbk)],
            Instruction::PutByVal { value, base, key } => seq![Operand::Register(value), Operand::Register(base), Operand::Register(key)],
            Instruction::GetByVal { dst, base, key } => seq![Operand::Register(dst), Operand::Register(base), Operand::Register(key)],
            Instruction::DelById { dst, base, property } => seq![Operand::Register(dst), Operand::Register(base), Operand::Register(property)],
            Instruction::DelByVal { dst, base, val } => seq![Operand::Register(dst), Operand::Register(base), Operand::Register(val)],
            Instruction::PutSetterByVal { base, property, accessor } => seq![Operand::Register(base), Operand::Register(property), Operand::Register(accessor)],
            Instruction::PutGetterByVal { base, property, accessor } => seq![Operand::Register(base), Operand::Register(property), Operand::Register(accessor)],
            Instruction::Jmp { label } => seq![Operand::Label(label)],
            Instruction::JTrue { condition, label } => seq![Operand::Register(condition), Operand::Label(label)],
            Instruction::JFalse { condition, label } => seq![Operand::Register(condition), Operand::Label(label)],
            Instruction::JEQNull { value, label } => seq![Operand::Register(value), Operand::Label(label)],
            Instruction::JNEQNull { value, label } => seq![Operand::Register(value), Operand::Label(label)],
            Instruction::JUndefinedOrNull { value, label } => seq![Operand::Register(value), Operand::Label(label)],
            Instruction::JNUndefinedOrNull { value, label } => seq![Operand::Register(value), Operand::Label(label)],
            Instruction::BinaryJmp { op, lhs, rhs, label } => seq![Operand::Register(lhs), Operand::Register(rhs), Operand::Label(label)],
        }
    }

    /// The operands of this instruction, in order.
    pub fn operands(self) -> (operands: Vec<Operand>)
        ensures
            operands@ == self.spec_operands(),
    {
        match self {
            Instruction::GetScope { dst } => vec![Operand::Register(dst)],
            Instruction::PushScope { src } => vec![Operand::Register(src)],
            Instruction::PopScope { dst } => vec![Operand::Register(dst)],
            Instruction::ResolveScope { dst, src } => vec![Operand::Register(dst), Operand::Register(src)],
            Instruction::GetArgument { dst, index } => vec![Operand::Register(dst), Operand::Index(index)],
            Instruction::ArgumentCount { dst } => vec![Operand::Register(dst)],
            Instruction::Mov { dst, src } => vec![Operand::Register(dst), Operand::Register(src)],
            Instruction::Binary { op, dst, lhs, rhs } => vec![Operand::Register(dst), Operand::Register(lhs), Operand::Register(rhs)],
            Instruction::ProfiledBinary { op, dst, lhs, rhs, fdbk } => vec![Operand::Register(dst), Operand::Register(lhs), Operand::Register(rhs), Operand::Feedback(fdbk)],
            Instruction::BitNot { dst, operand } => vec![Operand::Register(dst), Operand::Register(operand)],
            Instruction::Unary { op, dst, src } => vec![Operand::Register(dst), Operand::Register(src)],
            Instruction::Inc { srcdst } => vec![Operand::Register(srcdst)],
            Instruction::Dec { srcdst } => vec![Operand::Register(srcdst)],
            Instruction::PutById { value, base, id, fdbk } => vec![Operand::Register(value), Operand::Register(base), Operand::Register(id), Operand::Feedback(fdbk)],
            Instruction::GetById { dst, base, id, fdbk } => vec![Operand::Register(dst), Operand::Register(base), Operand::Register(id), Operand::Feedback(fdbk)],
            Instruction::PutByVal { value, base, key } => vec![Operand::Register(value), Operand::Register(base), Operand::Register(key)],
            Instruction::GetByVal { dst, base, key } => vec![Operand::Register(dst), Operand::Register(base), Operand::Register(key)],
            Instruction::DelById { dst, base, property } => vec![Operand::Register(dst), Operand::Register(base), Operand::Register(property)],
            Instruction::DelByVal { dst, base, val } => vec![Operand::Register(dst), Operand::Register(base), Operand::Register(val)],
            Instruction::PutSetterByVal { base, property, accessor } => vec![Operand::Register(base), Operand::Register(property), Operand::Register(accessor)],
            Instruction::PutGetterByVal { base, property, accessor } => vec![Operand::Register(base), Operand::Register(property), Operand::Register(accessor)],
            Instruction::Jmp { label } => vec![Operand::Label(label)],
            Instruction::JTrue { condition, label } => vec![Operand::Register(condition), Operand::Label(label)],
            Instruction::JFalse { condition, label } => vec![Operand::Register(condition), Operand::Label(label)],
            Instruction::JEQNull { value, label } => vec![Operand::Register(value), Operand::Label(label)],
            Instruction::JNEQNull { value, label } => vec![Operand::Register(value), Operand::Label(label)],
            Instruction::JUndefinedOrNull { value, label } => vec![Operand::Register(value), Operand::Label(label)],
            Instruction::JNUndefinedOrNull { value, label } => vec![Operand::Register(value), Operand::Label(label)],
            Instruction::BinaryJmp { op, lhs, rhs, label } => vec![Operand::Register(lhs), Operand::Register(rhs), Operand::Label(label)],
        }
    }

    /// The instruction with operation `opcode` and the operands
    /// `operands`, which must have the shape of the operation.
    pub open spec fn assembled(opcode: Opcode, operands: Seq<Operand>) -> Instruction {
        match opcode {
            Opcode::GetScope => Instruction::GetScope { dst: register_at(operands, 0) },
            Opcode::PushScope => Instruction::PushScope { src: register_at(operands, 0) },
            Opcode::PopScope => Instruction::PopScope { dst: register_at(operands, 0) },
            Opcode::ResolveScope => Instruction::ResolveScope { dst: register_at(operands, 0), src: register_at(operands, 1) },
            Opcode::GetArgument => Instruction::GetArgument { dst: register_at(operands, 0), index: index_at(operands, 1) },
            Opcode::ArgumentCount => Instruction::ArgumentCount { dst: register_at(operands, 0) },
            Opcode::Mov => Instruction::Mov { dst: register_at(operands, 0), src: register_at(operands, 1) },
            Opcode::Binary(op) => Instruction::Binary { op, dst: register_at(operands, 0), lhs: register_at(operands, 1), rhs: register_at(operands, 2) },
            Opcode::ProfiledBinary(op) => Instruction::ProfiledBinary { op, dst: register_at(operands, 0), lhs: register_at(operands, 1), rhs: register_at(operands, 2), fdbk: feedback_at(operands, 3) },
            Opcode::BitNot => Instruction::BitNot { dst: register_at(operands, 0), operand: register_at(operands, 1) },
            Opcode::Unary(op) => Instruction::Unary { op, dst: register_at(operands, 0), src: register_at(operands, 1) },
            Opcode::Inc => Instruction::Inc { srcdst: register_at(operands, 0) },
            Opcode::Dec => Instruction::Dec { srcdst: register_at(operands, 0) },
            Opcode::PutById => Instruction::PutById { value: register_at(operands, 0), base: register_at(operands, 1), id: register_at(operands, 2), fdbk: feedback_at(operands, 3) },
            Opcode::GetById => Instruction::GetById { dst: register_at(operands, 0), base: register_at(operands, 1), id: register_at(operands, 2), fdbk: feedback_at(operands, 3) },
            Opcode::PutByVal => Instruction::PutByVal { value: register_at(operands, 0), base: register_at(operands, 1), key: register_at(operands, 2) },
            Opcode::GetByVal => Instruction::GetByVal { dst: register_at(operands, 0), base: register_at(operands, 1), key: register_at(operands, 2) },
            Opcode::DelById => Instruction::DelById { dst: register_at(operands, 0), base: register_at(operands, 1), property: register_at(operands, 2) },
            Opcode::DelByVal => Instruction::DelByVal { dst: register_at(operands, 0), base: register_at(operands, 1), val: register_at(operands, 2) },
            Opcode::PutSetterByVal => Instruction::PutSetterByVal { base: register_at(operands, 0), property: register_at(operands, 1), accessor: register_at(operands, 2) },
            Opcode::PutGetterByVal => Instruction::PutGetterByVal { base: register_at(operands, 0), property: register_at(operands, 1), accessor: register_at(operands, 2) },
            Opcode::Jmp => Instruction::Jmp { label: label_at(operands, 0) },
            Opcode::JTrue => Instruction::JTrue { condition: register_at(operands, 0), label: label_at(operands, 1) },
            Opcode::JFalse => Instruction::JFalse { condition: register_at(operands, 0), label: label_at(operands, 1) },
            Opcode::JEQNull => Instruction::JEQNull { value: register_at(operands, 0), label: label_at(operands, 1) },
            Opcode::JNEQNull => Instruction::JNEQNull { value: register_at(operands, 0), label: label_at(operands, 1) },
            Opcode::JUndefinedOrNull => Instruction::JUndefinedOrNull { value: register_at(operands, 0), label: label_at(operands, 1) },
            Opcode::JNUndefinedOrNull => Instruction::JNUndefinedOrNull { value: register_at(operands, 0), label: label_at(operands, 1) },
            Opcode::BinaryJmp(op) => Instruction::BinaryJmp { op, lhs: register_at(operands, 0), rhs: register_at(operands, 1), label: label_at(operands, 2) },
        }
    }

    /// The instruction with operation `opcode` and the operands
    /// `operands`, if the operands have the shape of the operation.
    pub open spec fn spec_from_parts(opcode: Opcode, operands: Seq<Operand>) -> Option<
        Instruction,
    > {
        if kinds_of(operands) == opcode.spec_shape() {
            Some(Self::assembled(opcode, operands))
        } else {
            None
        }
    }

    /// The instruction with operation `opcode` and the operands
    /// `operands`; none if the operands do not have the shape of the
    /// operation.
    pub fn from_parts(opcode: Opcode, operands: &Vec<Operand>) -> (r: Option<Instruction>)
        ensures
            r == Self::spec_from_parts(opcode, operands@),
    {
        let shape = opcode.shape();
        if operands.len() != shape.len() {
            proof {
                assert(kinds_of(operands@).len() != opcode.spec_shape().len());
            }
            return None;
        }
        let mut i: usize = 0;
        while i < operands.len()
            invariant
                i <= operands.len(),
                operands.len() == shape.len(),
                shape@ == opcode.spec_shape(),
                forall|j: int| 0 <= j < i ==> (#[trigger] operands@[j]).spec_kind() == shape@[j],
            decreases operands.len() - i,
        {
            if operands[i].kind() != shape[i] {
                proof {
                    assert(kinds_of(operands@)[i as int] != opcode.spec_shape()[i as int]);
                }
                return None;
            }
            i = i + 1;
        }
        proof {
            assert(kinds_of(operands@) =~= opcode.spec_shape());
        }
        Some(
            match opcode {
                Opcode::GetScope => Instruction::GetScope { dst: take_register(operands, 0) },
                Opcode::PushScope => Instruction::PushScope { src: take_register(operands, 0) },
                Opcode::PopScope => Instruction::PopScope { dst: take_register(operands, 0) },
                Opcode::ResolveScope => Instruction::ResolveScope { dst: take_register(operands, 0), src: take_register(operands, 1) },
                Opcode::GetArgument => Instruction::GetArgument { dst: take_register(operands, 0), index: take_index(operands, 1) },
                Opcode::ArgumentCount => Instruction::ArgumentCount { dst: take_register(operands, 0) },
                Opcode::Mov => Instruction::Mov { dst: take_register(operands, 0), src: take_register(operands, 1) },
                Opcode::Binary(op) => Instruction::Binary { op, dst: take_register(operands, 0), lhs: take_register(operands, 1), rhs: take_register(operands, 2) },
                Opcode::ProfiledBinary(op) => Instruction::ProfiledBinary { op, dst: take_register(operands, 0), lhs: take_register(operands, 1), rhs: take_register(operands, 2), fdbk: take_feedback(operands, 3) },
                Opcode::BitNot => Instruction::BitNot { dst: take_register(operands, 0), operand: take_register(operands, 1) },
                Opcode::Unary(op) => Instruction::Unary { op, dst: take_register(operands, 0), src: take_register(operands, 1) },
                Opcode::Inc => Instruction::Inc { srcdst: take_register(operands, 0) },
                Opcode::Dec => Instruction::Dec { srcdst: take_register(operands, 0) },
                Opcode::PutById => Instruction::PutById { value: take_register(operands, 0), base: take_register(operands, 1), id: take_register(operands, 2), fdbk: take_feedback(operands, 3) },
                Opcode::GetById => Instruction::GetById { dst: take_register(operands, 0), base: take_register(operands, 1), id: take_register(operands, 2), fdbk: take_feedback(operands, 3) },
                Opcode::PutByVal => Instruction::PutByVal { value: take_register(operands, 0), base: take_register(operands, 1), key: take_register(operands, 2) },
                Opcode::GetByVal => Instruction::GetByVal { dst: take_register(operands, 0), base: take_register(operands, 1), key: take_register(operands, 2) },
                Opcode::DelById => Instruction::DelById { dst: take_register(operands, 0), base: take_register(operands, 1), property: take_register(operands, 2) },
                Opcode::DelByVal => Instruction::DelByVal { dst: take_register(operands, 0), base: take_register(operands, 1), val: take_register(operands, 2) },
                Opcode::PutSetterByVal => Instruction::PutSetterByVal { base: take_register(operands, 0), property: take_register(operands, 1), accessor: take_register(operands, 2) },
                Opcode::PutGetterByVal => Instruction::PutGetterByVal { base: take_register(operands, 0), property: take_register(operands, 1), accessor: take_register(operands, 2) },
                Opcode::Jmp => Instruction::Jmp { label: take_label(operands, 0) },
                Opcode::JTrue => Instruction::JTrue { condition: take_register(operands, 0), label: take_label(operands, 1) },
                Opcode::JFalse => Instruction::JFalse { condition: take_register(operands, 0), label: take_label(operands, 1) },
                Opcode::JEQNull => Instruction::JEQNull { value: take_register(operands, 0), label: take_label(operands, 1) },
                Opcode::JNEQNull => Instruction::JNEQNull { value: take_register(operands, 0), label: take_label(operands, 1) },
                Opcode::JUndefinedOrNull => Instruction::JUndefinedOrNull { value: take_register(operands, 0), label: take_label(operands, 1) },
                Opcode::JNUndefinedOrNull => Instruction::JNUndefinedOrNull { value: take_register(operands, 0), label: take_label(operands, 1) },
                Opcode::BinaryJmp(op) => Instruction::BinaryJmp { op, lhs: take_register(operands, 0), rhs: take_register(operands, 1), label: take_label(operands, 2) },
            },
        )
    }

    pub open spec fn spec_feedback_slot(self) -> Option<u32> {
        match self {
            Instruction::ProfiledBinary { fdbk, .. } => Some(fdbk),
            Instruction::PutById { fdbk, .. } => Some(fdbk),
            Instruction::GetById { fdbk, .. } => Some(fdbk),
            _ => None,
        }
    }

    /// The feedback slot of this instruction, if it carries one.
    #[verifier::when_used_as_spec(spec_feedback_slot)]
    pub fn feedback_slot(self) -> (slot: Option<u32>)
        ensures
            slot == self.spec_feedback_slot(),
    {
        match self {
            Instruction::ProfiledBinary { fdbk, .. } => Some(fdbk),
            Instruction::PutById { fdbk, .. } => Some(fdbk),
            Instruction::GetById { fdbk, .. } => Some(fdbk),
            _ => None,
        }
    }

    pub open spec fn spec_label(self) -> Option<i32> {
        match self {
            Instruction::Jmp { label } => Some(label),
            Instruction::JTrue { label, .. } => Some(label),
            Instruction::JFalse { label, .. } => Some(label),
            Instruction::JEQNull { label, .. } => Some(label),
            Instruction::JNEQNull { label, .. } => Some(label),
            Instruction::JUndefinedOrNull { label, .. } => Some(label),
            Instruction::JNUndefinedOrNull { label, .. } => Some(label),
            Instruction::BinaryJmp { label, .. } => Some(label),
            _ => None,
        }
    }

    /// Where this instruction jumps to, as a signed count of instructions
    /// from here, if it is a jump.
    #[verifier::when_used_as_spec(spec_label)]
    pub fn label(self) -> (label: Option<i32>)
        ensures
            label == self.spec_label(),
    {
        match self {
            Instruction::Jmp { label } => Some(label),
            Instruction::JTrue { label, .. } => Some(label),
            Instruction::JFalse { label, .. } => Some(label),
            Instruction::JEQNull { label, .. } => Some(label),
            Instruction::JNEQNull { label, .. } => Some(label),
            Instruction::JUndefinedOrNull { label, .. } => Some(label),
            Instruction::JNUndefinedOrNull { label, .. } => Some(label),
            Instruction::BinaryJmp { label, .. } => Some(label),
            _ => None,
        }
    }

    /// The operands of an instruction have the shape of its operation.
    pub proof fn law_operands_have_shape(self)
        ensures
            kinds_of(self.spec_operands()) =~= self.spec_opcode().spec_shape(),
    {
    }

    /// An instruction is put together again from its operation and its
    /// operands: nothing of it is lost in them, the feedback slot
    /// included.
    pub proof fn law_parts_round_trip(self)
        ensures
            Self::spec_from_parts(self.spec_opcode(), self.spec_operands()) == Some(self),
    {
        self.law_operands_have_shape();
    }

    /// What is put together from an operation and operands has that
    /// operation and those operands.
    pub proof fn law_from_parts_keeps_parts(opcode: Opcode, operands: Seq<Operand>)
        requires
            Self::spec_from_parts(opcode, operands) is Some,
        ensures
            Self::spec_from_parts(opcode, operands).unwrap().spec_opcode() == opcode,
            Self::spec_from_parts(opcode, operands).unwrap().spec_operands() =~= operands,
    {
        let shape = opcode.spec_shape();
        assert(kinds_of(operands) == shape);
        assert forall|i: int| 0 <= i < operands.len() implies (#[trigger] operands[i]).spec_kind()
            == shape[i] by {
            assert(kinds_of(operands)[i] == operands[i].spec_kind());
        }
        let built = Self::assembled(opcode, operands);
        assert(built.spec_operands().len() == operands.len());
        assert forall|i: int| 0 <= i < operands.len() implies built.spec_operands()[i]
            == operands[i] by {
            assert(operands[i].spec_kind() == shape[i]);
        }
    }

    /// The members of a family share one operand layout.
    pub proof fn law_family_shares_shape(a: Opcode, b: Opcode)
        ensures
            a is Binary && b is Binary ==> a.spec_shape() == b.spec_shape(),
            a is ProfiledBinary && b is ProfiledBinary ==> a.spec_shape() == b.spec_shape(),
            a is Unary && b is Unary ==> a.spec_shape() == b.spec_shape(),
            a is BinaryJmp && b is BinaryJmp ==> a.spec_shape() == b.spec_shape(),
    {
    }
}

fn take_register(operands: &Vec<Operand>, i: usize) -> (r: VirtualRegister)
    requires
        i < operands.len(),
        operands@[i as int] is Register,
    ensures
        r == register_at(operands@, i as int),
{
    match operands[i] {
        Operand::Register(r) => r,
        _ => VirtualRegister::invalid(),
    }
}

fn take_index(operands: &Vec<Operand>, i: usize) -> (r: i32)
    requires
        i < operands.len(),
        operands@[i as int] is Index,
    ensures
        r == index_at(operands@, i as int),
{
    match operands[i] {
        Operand::Index(r) => r,
        _ => 0,
    }
}

fn take_feedback(operands: &Vec<Operand>, i: usize) -> (r: u32)
    requires
        i < operands.len(),
        operands@[i as int] is Feedback,
    ensures
        r == feedback_at(operands@, i as int),
{
    match operands[i] {
        Operand::Feedback(r) => r,
        _ => 0,
    }
}

fn take_label(operands: &Vec<Operand>, i: usize) -> (r: i32)
    requires
        i < operands.len(),
        operands@[i as int] is Label,
    ensures
        r == label_at(operands@, i as int),
{
    match operands[i] {
        Operand::Label(r) => r,
        _ => 0,
    }
}

/// No two operations share a mnemonic: a listing tells every operation
/// apart.
pub proof fn law_mnemonics_are_distinct(a: Opcode, b: Opcode)
    requires
        a != b,
    ensures
        a.spec_mnemonic() != b.spec_mnemonic(),
{
    lemma_mnemonic_marks(a);
    lemma_mnemonic_marks(b);
}

/// What tells a mnemonic apart: its length and a few of its letters.
proof fn lemma_mnemonic_marks(a: Opcode)
    ensures
        mark_of(a.spec_mnemonic()) == mark(a),
{
    reveal_strlit("add");
    reveal_strlit("argument_count");
    reveal_strlit("below");
    reveal_strlit("beloweq");
    reveal_strlit("bitand");
    reveal_strlit("bitnot");
    reveal_strlit("bitor");
    reveal_strlit("bitxor");
    reveal_strlit("dec");
    reveal_strlit("del_by_id");
    reveal_strlit("del_by_val");
    reveal_strlit("div");
    reveal_strlit("eq");
    reveal_strlit("eq_null");
    reveal_strlit("get_argument");
    reveal_strlit("get_by_id");
    reveal_strlit("get_by_val");
    reveal_strlit("get_scope");
    reveal_strlit("greater");
    reveal_strlit("greatereq");
    reveal_strlit("inc");
    reveal_strlit("is_boolean");
    reveal_strlit("is_empty");
    reveal_strlit("is_function");
    reveal_strlit("is_number");
    reveal_strlit("is_object");
    reveal_strlit("is_undefined");
    reveal_strlit("is_undefiner_or_null");
    reveal_strlit("jbelow");
    reveal_strlit("jbeloweq");
    reveal_strlit("jeq");
    reveal_strlit("jeqnull");
    reveal_strlit("jfalse");
    reveal_strlit("jgreatereq");
    reveal_strlit("jless");
    reveal_strlit("jlesseq");
    reveal_strlit("jmp");
    reveal_strlit("jneq");
    reveal_strlit("jneqnull");
    reveal_strlit("jngreater");
    reveal_strlit("jngreatereq");
    reveal_strlit("jnless");
    reveal_strlit("jnlesseq");
    reveal_strlit("jnstricteq");
    reveal_strlit("jnundefornull");
    reveal_strlit("jstricteq");
    reveal_strlit("jtrue");
    reveal_strlit("jundefornull");
    reveal_strlit("less");
    reveal_strlit("lesseq");
    reveal_strlit("lshift");
    reveal_strlit("mod");
    reveal_strlit("mov");
    reveal_strlit("mul");
    reveal_strlit("neq");
    reveal_strlit("neq_null");
    reveal_strlit("nstricteq");
    reveal_strlit("pop_scope");
    reveal_strlit("pow");
    reveal_strlit("push_scope");
    reveal_strlit("put_by_id");
    reveal_strlit("put_by_val");
    reveal_strlit("put_getter_by_val");
    reveal_strlit("put_setter_by_val");
    reveal_strlit("resolve_scope");
    reveal_strlit("rshift");
    reveal_strlit("stricteq");
    reveal_strlit("sub");
    reveal_strlit("to_string");
    reveal_strlit("unsigned");
    reveal_strlit("urshift");
}

/// The length of `name` and the letters at a few places of it, with a
/// space for a place that it does not have.
spec fn mark_of(name: Seq<char>) -> (nat, char, char, char, char, char) {
    (
        name.len(),
        letter(name, 0),
        letter(name, 1),
        letter(name, 2),
        letter(name, 4),
        letter(name, name.len() - 3),
    )
}

spec fn letter(name: Seq<char>, i: int) -> char {
    if 0 <= i < name.len() {
        name[i]
    } else {
        ' '
    }
}

/// The mark of the mnemonic of `a`.
spec fn mark(a: Opcode) -> (nat, char, char, char, char, char) {
    match a {
        Opcode::Binary(BinaryOp::Eq) => (2, 'e', 'q', ' ', ' ', ' '),
        Opcode::Binary(BinaryOp::Neq) => (3, 'n', 'e', 'q', ' ', 'n'),
        Opcode::Binary(BinaryOp::StrictEq) => (8, 's', 't', 'r', 'c', 't'),
        Opcode::Binary(BinaryOp::StrictNeq) => (9, 'n', 's', 't', 'i', 't'),
        Opcode::Binary(BinaryOp::Less) => (4, 'l', 'e', 's', ' ', 'e'),
        Opcode::Binary(BinaryOp::LessEq) => (6, 'l', 'e', 's', 'e', 's'),
        Opcode::Binary(BinaryOp::Greater) => (7, 'g', 'r', 'e', 't', 't'),
        Opcode::Binary(BinaryOp::GreaterEq) => (9, 'g', 'r', 'e', 't', 'r'),
        Opcode::Binary(BinaryOp::Below) => (5, 'b', 'e', 'l', 'w', 'l'),
        Opcode::Binary(BinaryOp::BelowEq) => (7, 'b', 'e', 'l', 'w', 'w'),
        Opcode::Binary(BinaryOp::Mod) => (3, 'm', 'o', 'd', ' ', 'm'),
        Opcode::Binary(BinaryOp::Pow) => (3, 'p', 'o', 'w', ' ', 'p'),
        Opcode::Binary(BinaryOp::LShift) => (6, 'l', 's', 'h', 'f', 'i'),
        Opcode::Binary(BinaryOp::RShift) => (6, 'r', 's', 'h', 'f', 'i'),
        Opcode::Binary(BinaryOp::URshift) => (7, 'u', 'r', 's', 'i', 'i'),
        Opcode::ProfiledBinary(ProfiledBinaryOp::Add) => (3, 'a', 'd', 'd', ' ', 'a'),
        Opcode::ProfiledBinary(ProfiledBinaryOp::Sub) => (3, 's', 'u', 'b', ' ', 's'),
        Opcode::ProfiledBinary(ProfiledBinaryOp::Div) => (3, 'd', 'i', 'v', ' ', 'd'),
        Opcode::ProfiledBinary(ProfiledBinaryOp::Mul) => (3, 'm', 'u', 'l', ' ', 'm'),
        Opcode::ProfiledBinary(ProfiledBinaryOp::BitAnd) => (6, 'b', 'i', 't', 'n', 'a'),
        Opcode::ProfiledBinary(ProfiledBinaryOp::BitOr) => (5, 'b', 'i', 't', 'r', 't'),
        Opcode::ProfiledBinary(ProfiledBinaryOp::BitXor) => (6, 'b', 'i', 't', 'o', 'x'),
        Opcode::Unary(UnaryOp::EqNull) => (7, 'e', 'q', '_', 'u', 'u'),
        Opcode::Unary(UnaryOp::NeqNull) => (8, 'n', 'e', 'q', 'n', 'u'),
        Opcode::Unary(UnaryOp::ToString) => (9, 't', 'o', '_', 't', 'i'),
        Opcode::Unary(UnaryOp::Unsigned) => (8, 'u', 'n', 's', 'g', 'n'),
        Opcode::Unary(UnaryOp::IsEmpty) => (8, 'i', 's', '_', 'm', 'p'),
        Opcode::Unary(UnaryOp::IsUndefined) => (12, 'i', 's', '_', 'n', 'n'),
        Opcode::Unary(UnaryOp::IsUndefOrNull) => (20, 'i', 's', '_', 'n', 'u'),
        Opcode::Unary(UnaryOp::IsBoolean) => (10, 'i', 's', '_', 'o', 'e'),
        Opcode::Unary(UnaryOp::IsNumber) => (9, 'i', 's', '_', 'u', 'b'),
        Opcode::Unary(UnaryOp::IsObject) => (9, 'i', 's', '_', 'b', 'e'),
        Opcode::Unary(UnaryOp::IsFunction) => (11, 'i', 's', '_', 'u', 'i'),
        Opcode::BinaryJmp(BinaryJmpOp::Jeq) => (3, 'j', 'e', 'q', ' ', 'j'),
        Opcode::BinaryJmp(BinaryJmpOp::JStrictEq) => (9, 'j', 's', 't', 'i', 't'),
        Opcode::BinaryJmp(BinaryJmpOp::Jneq) => (4, 'j', 'n', 'e', ' ', 'n'),
        Opcode::BinaryJmp(BinaryJmpOp::JNStrictEq) => (10, 'j', 'n', 's', 'r', 't'),
        Opcode::BinaryJmp(BinaryJmpOp::JLess) => (5, 'j', 'l', 'e', 's', 'e'),
        Opcode::BinaryJmp(BinaryJmpOp::JLessEq) => (7, 'j', 'l', 'e', 's', 's'),
        Opcode::BinaryJmp(BinaryJmpOp::JGreaterEq) => (10, 'j', 'g', 'r', 'a', 'r'),
        Opcode::BinaryJmp(BinaryJmpOp::JNLess) => (6, 'j', 'n', 'l', 's', 'e'),
        Opcode::BinaryJmp(BinaryJmpOp::JNLessEq) => (8, 'j', 'n', 'l', 's', 's'),
        Opcode::BinaryJmp(BinaryJmpOp::JNGreater) => (9, 'j', 'n', 'g', 'e', 't'),
        Opcode::BinaryJmp(BinaryJmpOp::JNGreaterEq) => (11, 'j', 'n', 'g', 'e', 'r'),
        Opcode::BinaryJmp(BinaryJmpOp::JBelow) => (6, 'j', 'b', 'e', 'o', 'l'),
        Opcode::BinaryJmp(BinaryJmpOp::JBelowEq) => (8, 'j', 'b', 'e', 'o', 'w'),
        Opcode::GetScope => (9, 'g', 'e', 't', 's', 'o'),
        Opcode::PushScope => (10, 'p', 'u', 's', '_', 'o'),
        Opcode::PopScope => (9, 'p', 'o', 'p', 's', 'o'),
        Opcode::ResolveScope => (13, 'r', 'e', 's', 'l', 'o'),
        Opcode::GetArgument => (12, 'g', 'e', 't', 'a', 'e'),
        Opcode::ArgumentCount => (14, 'a', 'r', 'g', 'm', 'u'),
        Opcode::Mov => (3, 'm', 'o', 'v', ' ', 'm'),
        Opcode::BitNot => (6, 'b', 'i', 't', 'o', 'n'),
        Opcode::Inc => (3, 'i', 'n', 'c', ' ', 'i'),
        Opcode::Dec => (3, 'd', 'e', 'c', ' ', 'd'),
        Opcode::PutById => (9, 'p', 'u', 't', 'b', '_'),
        Opcode::GetById => (9, 'g', 'e', 't', 'b', '_'),
        Opcode::PutByVal => (10, 'p', 'u', 't', 'b', 'v'),
        Opcode::GetByVal => (10, 'g', 'e', 't', 'b', 'v'),
        Opcode::DelById => (9, 'd', 'e', 'l', 'b', '_'),
        Opcode::DelByVal => (10, 'd', 'e', 'l', 'b', 'v'),
        Opcode::PutSetterByVal => (17, 'p', 'u', 't', 's', 'v'),
        Opcode::PutGetterByVal => (17, 'p', 'u', 't', 'g', 'v'),
        Opcode::Jmp => (3, 'j', 'm', 'p', ' ', 'j'),
        Opcode::JTrue => (5, 'j', 't', 'r', 'e', 'r'),
        Opcode::JFalse => (6, 'j', 'f', 'a', 's', 'l'),
        Opcode::JEQNull => (7, 'j', 'e', 'q', 'u', 'u'),
        Opcode::JNEQNull => (8, 'j', 'n', 'e', 'n', 'u'),
        Opcode::JUndefinedOrNull => (12, 'j', 'u', 'n', 'e', 'u'),
        Opcode::JNUndefinedOrNull => (13, 'j', 'n', 'u', 'd', 'u'),
    }
}

} // verus!
