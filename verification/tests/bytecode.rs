use jscore::bytecode::def::BinaryJmpOp;
use jscore::bytecode::def::BinaryOp;
use jscore::bytecode::def::Instruction;
use jscore::bytecode::def::Opcode;
use jscore::bytecode::def::Operand;
use jscore::bytecode::def::OperandKind;
use jscore::bytecode::def::ProfiledBinaryOp;
use jscore::bytecode::def::UnaryOp;
use jscore::bytecode::virtualregister::VirtualRegister;

const REGISTER: OperandKind = OperandKind::Register;
const INDEX: OperandKind = OperandKind::Index;
const FEEDBACK: OperandKind = OperandKind::Feedback;
const LABEL: OperandKind = OperandKind::Label;

fn r(index: i32) -> VirtualRegister {
    VirtualRegister::new(index)
}

fn binary_ops() -> Vec<(BinaryOp, &'static str)> {
    vec![
        (BinaryOp::Eq, "eq"),
        (BinaryOp::Neq, "neq"),
        (BinaryOp::StrictEq, "stricteq"),
        (BinaryOp::StrictNeq, "nstricteq"),
        (BinaryOp::Less, "less"),
        (BinaryOp::LessEq, "lesseq"),
        (BinaryOp::Greater, "greater"),
        (BinaryOp::GreaterEq, "greatereq"),
        (BinaryOp::Below, "below"),
        (BinaryOp::BelowEq, "beloweq"),
        (BinaryOp::Mod, "mod"),
        (BinaryOp::Pow, "pow"),
        (BinaryOp::LShift, "lshift"),
        (BinaryOp::RShift, "rshift"),
        (BinaryOp::URshift, "urshift"),
    ]
}

fn profiled_ops() -> Vec<(ProfiledBinaryOp, &'static str)> {
    vec![
        (ProfiledBinaryOp::Add, "add"),
        (ProfiledBinaryOp::Sub, "sub"),
        (ProfiledBinaryOp::Div, "div"),
        (ProfiledBinaryOp::Mul, "mul"),
        (ProfiledBinaryOp::BitAnd, "bitand"),
        (ProfiledBinaryOp::BitOr, "bitor"),
        (ProfiledBinaryOp::BitXor, "bitxor"),
    ]
}

fn unary_ops() -> Vec<(UnaryOp, &'static str)> {
    vec![
        (UnaryOp::EqNull, "eq_null"),
        (UnaryOp::NeqNull, "neq_null"),
        (UnaryOp::ToString, "to_string"),
        (UnaryOp::Unsigned, "unsigned"),
        (UnaryOp::IsEmpty, "is_empty"),
        (UnaryOp::IsUndefined, "is_undefined"),
        (UnaryOp::IsUndefOrNull, "is_undefiner_or_null"),
        (UnaryOp::IsBoolean, "is_boolean"),
        (UnaryOp::IsNumber, "is_number"),
        (UnaryOp::IsObject, "is_object"),
        (UnaryOp::IsFunction, "is_function"),
    ]
}

fn jump_ops() -> Vec<(BinaryJmpOp, &'static str)> {
    vec![
        (BinaryJmpOp::Jeq, "jeq"),
        (BinaryJmpOp::JStrictEq, "jstricteq"),
        (BinaryJmpOp::Jneq, "jneq"),
        (BinaryJmpOp::JNStrictEq, "jnstricteq"),
        (BinaryJmpOp::JLess, "jless"),
        (BinaryJmpOp::JLessEq, "jlesseq"),
        (BinaryJmpOp::JGreaterEq, "jgreatereq"),
        (BinaryJmpOp::JNLess, "jnless"),
        (BinaryJmpOp::JNLessEq, "jnlesseq"),
        (BinaryJmpOp::JNGreater, "jngreater"),
        (BinaryJmpOp::JNGreaterEq, "jngreatereq"),
        (BinaryJmpOp::JBelow, "jbelow"),
        (BinaryJmpOp::JBelowEq, "jbeloweq"),
    ]
}

fn opcodes() -> Vec<(Opcode, &'static str)> {
    let mut all = vec![
        (Opcode::GetScope, "get_scope"),
        (Opcode::PushScope, "push_scope"),
        (Opcode::PopScope, "pop_scope"),
        (Opcode::ResolveScope, "resolve_scope"),
        (Opcode::GetArgument, "get_argument"),
        (Opcode::ArgumentCount, "argument_count"),
        (Opcode::Mov, "mov"),
        (Opcode::BitNot, "bitnot"),
        (Opcode::Inc, "inc"),
        (Opcode::Dec, "dec"),
        (Opcode::PutById, "put_by_id"),
        (Opcode::GetById, "get_by_id"),
        (Opcode::PutByVal, "put_by_val"),
        (Opcode::GetByVal, "get_by_val"),
        (Opcode::DelById, "del_by_id"),
        (Opcode::DelByVal, "del_by_val"),
        (Opcode::PutSetterByVal, "put_setter_by_val"),
        (Opcode::PutGetterByVal, "put_getter_by_val"),
        (Opcode::Jmp, "jmp"),
        (Opcode::JTrue, "jtrue"),
        (Opcode::JFalse, "jfalse"),
        (Opcode::JEQNull, "jeqnull"),
        (Opcode::JNEQNull, "jneqnull"),
        (Opcode::JUndefinedOrNull, "jundefornull"),
        (Opcode::JNUndefinedOrNull, "jnundefornull"),
    ];
    all.extend(binary_ops().into_iter().map(|(op, name)| (Opcode::Binary(op), name)));
    all.extend(profiled_ops().into_iter().map(|(op, name)| (Opcode::ProfiledBinary(op), name)));
    all.extend(unary_ops().into_iter().map(|(op, name)| (Opcode::Unary(op), name)));
    all.extend(jump_ops().into_iter().map(|(op, name)| (Opcode::BinaryJmp(op), name)));
    all
}

fn sample(kind: OperandKind, place: usize) -> Operand {
    match kind {
        OperandKind::Register => Operand::Register(r(place as i32 - 1)),
        OperandKind::Index => Operand::Index(3 + place as i32),
        OperandKind::Feedback => Operand::Feedback(70 + place as u32),
        OperandKind::Label => Operand::Label(-5 - place as i32),
    }
}

fn sample_operands(opcode: Opcode) -> Vec<Operand> {
    opcode.shape().iter().enumerate().map(|(place, kind)| sample(*kind, place)).collect()
}

#[test]
fn the_catalogue_is_complete() {
    assert_eq!(opcodes().len(), 71);
    assert_eq!(binary_ops().len(), 15);
    assert_eq!(profiled_ops().len(), 7);
    assert_eq!(unary_ops().len(), 11);
    assert_eq!(jump_ops().len(), 13);
}

#[test]
fn every_operation_has_its_mnemonic() {
    for (opcode, name) in opcodes() {
        assert_eq!(opcode.mnemonic(), name);
    }
    for (op, name) in binary_ops() {
        assert_eq!(op.mnemonic(), name);
    }
    for (op, name) in profiled_ops() {
        assert_eq!(op.mnemonic(), name);
    }
    for (op, name) in unary_ops() {
        assert_eq!(op.mnemonic(), name);
    }
    for (op, name) in jump_ops() {
        assert_eq!(op.mnemonic(), name);
    }
}

#[test]
fn mnemonics_are_distinct() {
    let all = opcodes();
    for (i, (a, name_a)) in all.iter().enumerate() {
        for (b, name_b) in all.iter().skip(i + 1) {
            assert_ne!(a, b);
            assert_ne!(name_a, name_b);
        }
    }
}

#[test]
fn shapes_of_the_single_operations() {
    assert_eq!(Opcode::GetScope.shape(), vec![REGISTER]);
    assert_eq!(Opcode::PushScope.shape(), vec![REGISTER]);
    assert_eq!(Opcode::PopScope.shape(), vec![REGISTER]);
    assert_eq!(Opcode::ResolveScope.shape(), vec![REGISTER, REGISTER]);
    assert_eq!(Opcode::GetArgument.shape(), vec![REGISTER, INDEX]);
    assert_eq!(Opcode::ArgumentCount.shape(), vec![REGISTER]);
    assert_eq!(Opcode::Mov.shape(), vec![REGISTER, REGISTER]);
    assert_eq!(Opcode::BitNot.shape(), vec![REGISTER, REGISTER]);
    assert_eq!(Opcode::Inc.shape(), vec![REGISTER]);
    assert_eq!(Opcode::Dec.shape(), vec![REGISTER]);
    assert_eq!(Opcode::PutById.shape(), vec![REGISTER, REGISTER, REGISTER, FEEDBACK]);
    assert_eq!(Opcode::GetById.shape(), vec![REGISTER, REGISTER, REGISTER, FEEDBACK]);
    assert_eq!(Opcode::PutByVal.shape(), vec![REGISTER, REGISTER, REGISTER]);
    assert_eq!(Opcode::GetByVal.shape(), vec![REGISTER, REGISTER, REGISTER]);
    assert_eq!(Opcode::DelById.shape(), vec![REGISTER, REGISTER, REGISTER]);
    assert_eq!(Opcode::DelByVal.shape(), vec![REGISTER, REGISTER, REGISTER]);
    assert_eq!(Opcode::PutSetterByVal.shape(), vec![REGISTER, REGISTER, REGISTER]);
    assert_eq!(Opcode::PutGetterByVal.shape(), vec![REGISTER, REGISTER, REGISTER]);
    assert_eq!(Opcode::Jmp.shape(), vec![LABEL]);
    assert_eq!(Opcode::JTrue.shape(), vec![REGISTER, LABEL]);
    assert_eq!(Opcode::JFalse.shape(), vec![REGISTER, LABEL]);
    assert_eq!(Opcode::JEQNull.shape(), vec![REGISTER, LABEL]);
    assert_eq!(Opcode::JNEQNull.shape(), vec![REGISTER, LABEL]);
    assert_eq!(Opcode::JUndefinedOrNull.shape(), vec![REGISTER, LABEL]);
    assert_eq!(Opcode::JNUndefinedOrNull.shape(), vec![REGISTER, LABEL]);
}

#[test]
fn the_members_of_a_family_share_a_shape() {
    for (op, _) in binary_ops() {
        assert_eq!(Opcode::Binary(op).shape(), vec![REGISTER, REGISTER, REGISTER]);
    }
    for (op, _) in profiled_ops() {
        assert_eq!(
            Opcode::ProfiledBinary(op).shape(),
            vec![REGISTER, REGISTER, REGISTER, FEEDBACK]
        );
    }
    for (op, _) in unary_ops() {
        assert_eq!(Opcode::Unary(op).shape(), vec![REGISTER, REGISTER]);
    }
    for (op, _) in jump_ops() {
        assert_eq!(Opcode::BinaryJmp(op).shape(), vec![REGISTER, REGISTER, LABEL]);
    }
}

#[test]
fn operands_come_in_the_order_of_the_fields() {
    let get = Instruction::GetById { dst: r(0), base: r(1), id: r(2), fdbk: 0 };
    assert_eq!(get.opcode(), Opcode::GetById);
    assert_eq!(get.mnemonic(), "get_by_id");
    assert_eq!(
        get.operands(),
        vec![
            Operand::Register(r(0)),
            Operand::Register(r(1)),
            Operand::Register(r(2)),
            Operand::Feedback(0)
        ]
    );
    let arg = Instruction::GetArgument { dst: r(-1), index: 2 };
    assert_eq!(arg.operands(), vec![Operand::Register(r(-1)), Operand::Index(2)]);
    let add = Instruction::ProfiledBinary {
        op: ProfiledBinaryOp::Add,
        dst: r(-1),
        lhs: r(-2),
        rhs: r(0),
        fdbk: 9,
    };
    assert_eq!(add.opcode(), Opcode::ProfiledBinary(ProfiledBinaryOp::Add));
    assert_eq!(add.mnemonic(), "add");
    assert_eq!(
        add.operands(),
        vec![
            Operand::Register(r(-1)),
            Operand::Register(r(-2)),
            Operand::Register(r(0)),
            Operand::Feedback(9)
        ]
    );
    let jump = Instruction::BinaryJmp { op: BinaryJmpOp::JLess, lhs: r(1), rhs: r(2), label: -7 };
    assert_eq!(jump.mnemonic(), "jless");
    assert_eq!(
        jump.operands(),
        vec![Operand::Register(r(1)), Operand::Register(r(2)), Operand::Label(-7)]
    );
    let not = Instruction::BitNot { dst: r(3), operand: r(4) };
    assert_eq!(not.operands(), vec![Operand::Register(r(3)), Operand::Register(r(4))]);
    let put = Instruction::PutSetterByVal { base: r(1), property: r(2), accessor: r(3) };
    assert_eq!(
        put.operands(),
        vec![Operand::Register(r(1)), Operand::Register(r(2)), Operand::Register(r(3))]
    );
}

#[test]
fn instructions_are_put_together_from_their_parts() {
    for (opcode, name) in opcodes() {
        let operands = sample_operands(opcode);
        let built = Instruction::from_parts(opcode, &operands).unwrap();
        assert_eq!(built.opcode(), opcode);
        assert_eq!(built.operands(), operands);
        assert_eq!(built.mnemonic(), name);
        let kinds: Vec<OperandKind> = built.operands().iter().map(|o| o.kind()).collect();
        assert_eq!(kinds, opcode.shape());
        assert_eq!(Instruction::from_parts(built.opcode(), &built.operands()), Some(built));
    }
}

#[test]
fn parts_of_the_wrong_shape_are_refused() {
    for (opcode, _) in opcodes() {
        let good = sample_operands(opcode);
        let mut short = good.clone();
        short.pop();
        assert_eq!(Instruction::from_parts(opcode, &short), None);
        let mut long = good.clone();
        long.push(Operand::Register(r(0)));
        assert_eq!(Instruction::from_parts(opcode, &long), None);
        for place in 0..good.len() {
            let mut wrong = good.clone();
            wrong[place] = match good[place] {
                Operand::Register(_) => Operand::Label(1),
                Operand::Index(_) => Operand::Register(r(1)),
                Operand::Feedback(_) => Operand::Index(1),
                Operand::Label(_) => Operand::Feedback(1),
            };
            assert_eq!(Instruction::from_parts(opcode, &wrong), None);
        }
    }
    assert_eq!(Instruction::from_parts(Opcode::Jmp, &vec![]), None);
    assert_eq!(
        Instruction::from_parts(Opcode::Jmp, &vec![Operand::Label(4)]),
        Some(Instruction::Jmp { label: 4 })
    );
    assert_eq!(
        Instruction::from_parts(
            Opcode::Mov,
            &vec![Operand::Register(r(-1)), Operand::Register(r(0))]
        ),
        Some(Instruction::Mov { dst: r(-1), src: r(0) })
    );
}

#[test]
fn feedback_slots_are_carried_unchanged() {
    for slot in [0, 1, 77, u32::MAX] {
        let add = Instruction::ProfiledBinary {
            op: ProfiledBinaryOp::Mul,
            dst: r(0),
            lhs: r(1),
            rhs: r(2),
            fdbk: slot,
        };
        assert_eq!(add.feedback_slot(), Some(slot));
        let again = Instruction::from_parts(add.opcode(), &add.operands()).unwrap();
        assert_eq!(again.feedback_slot(), Some(slot));
        let get = Instruction::GetById { dst: r(0), base: r(1), id: r(2), fdbk: slot };
        assert_eq!(get.feedback_slot(), Some(slot));
        let put = Instruction::PutById { value: r(0), base: r(1), id: r(2), fdbk: slot };
        assert_eq!(put.feedback_slot(), Some(slot));
    }
    assert_eq!(Instruction::Mov { dst: r(0), src: r(1) }.feedback_slot(), None);
    let eq = Instruction::Binary { op: BinaryOp::Eq, dst: r(0), lhs: r(1), rhs: r(2) };
    assert_eq!(eq.feedback_slot(), None);
    assert_eq!(Instruction::Jmp { label: 1 }.feedback_slot(), None);
}

#[test]
fn jumps_have_labels() {
    assert_eq!(Instruction::Jmp { label: -3 }.label(), Some(-3));
    assert_eq!(Instruction::JTrue { condition: r(0), label: 5 }.label(), Some(5));
    assert_eq!(Instruction::JFalse { condition: r(0), label: 6 }.label(), Some(6));
    assert_eq!(Instruction::JEQNull { value: r(0), label: 7 }.label(), Some(7));
    assert_eq!(Instruction::JNEQNull { value: r(0), label: 8 }.label(), Some(8));
    assert_eq!(Instruction::JUndefinedOrNull { value: r(0), label: 9 }.label(), Some(9));
    assert_eq!(Instruction::JNUndefinedOrNull { value: r(0), label: 10 }.label(), Some(10));
    for (op, _) in jump_ops() {
        let jump = Instruction::BinaryJmp { op, lhs: r(0), rhs: r(1), label: i32::MIN };
        assert_eq!(jump.label(), Some(i32::MIN));
    }
    assert_eq!(Instruction::Inc { srcdst: r(0) }.label(), None);
    assert_eq!(Instruction::GetArgument { dst: r(0), index: 4 }.label(), None);
    let not = Instruction::Unary { op: UnaryOp::IsNumber, dst: r(0), src: r(1) };
    assert_eq!(not.label(), None);
}

#[test]
fn operands_know_their_kind() {
    assert_eq!(Operand::Register(r(0)).kind(), OperandKind::Register);
    assert_eq!(Operand::Index(0).kind(), OperandKind::Index);
    assert_eq!(Operand::Feedback(0).kind(), OperandKind::Feedback);
    assert_eq!(Operand::Label(0).kind(), OperandKind::Label);
}

#[test]
fn instructions_are_listed_as_text() {
    let get = Instruction::GetById { dst: r(0), base: r(1), id: r(2), fdbk: 0 };
    assert_eq!(get.disassemble(), "get_by_id 0, 1, 2, 0");
    assert_eq!(Instruction::Jmp { label: -3 }.disassemble(), "jmp -3");
    assert_eq!(Instruction::Jmp { label: i32::MIN }.disassemble(), "jmp -2147483648");
    assert_eq!(Instruction::Jmp { label: i32::MAX }.disassemble(), "jmp 2147483647");
    assert_eq!(Instruction::Inc { srcdst: r(-1) }.disassemble(), "inc -1");
    assert_eq!(Instruction::Mov { dst: r(-12), src: r(105) }.disassemble(), "mov -12, 105");
    assert_eq!(
        Instruction::GetArgument { dst: r(-1), index: 10 }.disassemble(),
        "get_argument -1, 10"
    );
    let add = Instruction::ProfiledBinary {
        op: ProfiledBinaryOp::Add,
        dst: r(-1),
        lhs: r(-2),
        rhs: r(0),
        fdbk: u32::MAX,
    };
    assert_eq!(add.disassemble(), "add -1, -2, 0, 4294967295");
    let jump = Instruction::BinaryJmp { op: BinaryJmpOp::JNLessEq, lhs: r(7), rhs: r(8), label: 90 };
    assert_eq!(jump.disassemble(), "jnlesseq 7, 8, 90");
    let test = Instruction::Unary { op: UnaryOp::IsUndefOrNull, dst: r(1), src: r(2) };
    assert_eq!(test.disassemble(), "is_undefiner_or_null 1, 2");
    assert_eq!(
        Instruction::ResolveScope { dst: r(1), src: r(1000) }.disassemble(),
        "resolve_scope 1, 1000"
    );
    assert_eq!(
        Instruction::Mov { dst: VirtualRegister::invalid(), src: r(0) }.disassemble(),
        "mov 1073741823, 0"
    );
}

#[test]
fn every_listing_starts_with_the_mnemonic() {
    for (opcode, name) in opcodes() {
        let operands = sample_operands(opcode);
        let text = Instruction::from_parts(opcode, &operands).unwrap().disassemble();
        let (head, tail) = text.split_once(' ').unwrap();
        assert_eq!(head, name);
        assert_eq!(tail.split(", ").count(), operands.len());
        for (part, operand) in tail.split(", ").zip(operands.iter()) {
            let number: i64 = part.parse().unwrap();
            let expected = match operand {
                Operand::Register(reg) => reg.to_i32() as i64,
                Operand::Index(i) => *i as i64,
                Operand::Feedback(slot) => *slot as i64,
                Operand::Label(offset) => *offset as i64,
            };
            assert_eq!(number, expected);
        }
    }
}
