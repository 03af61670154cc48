use jscore::bytecode::def::Instruction;
use jscore::bytecode::virtualregister::VirtualRegister;
use jscore::runtime::cell::Cell;
use jscore::runtime::heap::Heap;
use jscore::runtime::jsobject::JSObject;
use jscore::runtime::jsobject::JSObjectKind;
use jscore::runtime::jsproperty::JSProperty;
use jscore::runtime::jsvalue::JSValue;
use jscore::runtime::vtable::object_get;
use jscore::runtime::Runtime;

/// A frame of argument registers and the little of an interpreter that the
/// scenarios need.
struct Machine {
    rt: Runtime,
    names: Vec<(JSValue, String)>,
    registers: Vec<JSValue>,
    pc: i32,
}

impl Machine {
    fn new(registers: usize) -> Machine {
        Machine {
            rt: Runtime::new(Heap::new()),
            names: Vec::new(),
            registers: vec![JSValue::undefined(); registers],
            pc: 0,
        }
    }

    fn object(&mut self) -> JSValue {
        let cell = Cell::Object(JSObject::new(JSObjectKind::Normal));
        JSValue::cell(self.rt.heap.allocate(cell).unwrap())
    }

    fn string(&mut self, text: &str) -> JSValue {
        let v = JSValue::cell(self.rt.heap.allocate(Cell::String(text.to_owned())).unwrap());
        self.names.push((v, text.to_owned()));
        v
    }

    fn get(&self, r: VirtualRegister) -> JSValue {
        assert!(r.is_argument());
        self.registers[r.to_i32() as usize]
    }

    fn set(&mut self, r: VirtualRegister, v: JSValue) {
        assert!(r.is_argument());
        self.registers[r.to_i32() as usize] = v;
    }

    fn name(&self, key: JSValue) -> String {
        match self.rt.heap.get(key.as_cell()) {
            Some(Cell::String(text)) => text.clone(),
            _ => panic!("not a name"),
        }
    }

    fn put(&mut self, base: JSValue, name: &str, value: JSValue) {
        let cell = self.rt.heap.get_mut(base.as_cell()).unwrap();
        cell.unchecked_object_mut()._write(name, JSProperty::new().value(value).enumerable(true));
    }

    fn step(&mut self, ins: Instruction) {
        let mut next = self.pc + 1;
        match ins {
            Instruction::GetById { dst, base, id, fdbk: _ } | Instruction::GetByVal { dst, base, key: id } => {
                let name = self.name(self.get(id));
                let got = object_get(&self.rt, self.get(base), &name, |_f: JSValue, this: JSValue| {
                    Ok(this)
                });
                self.set(dst, got.unwrap());
            }
            Instruction::PutById { value, base, id, fdbk: _ } | Instruction::PutByVal { value, base, key: id } => {
                let name = self.name(self.get(id));
                self.put(self.get(base), &name, self.get(value));
            }
            Instruction::JTrue { condition, label } => {
                if self.get(condition).is_true() {
                    next = self.pc + label;
                }
            }
            Instruction::JFalse { condition, label } => {
                if self.get(condition).is_false() {
                    next = self.pc + label;
                }
            }
            Instruction::Mov { dst, src } => {
                let v = self.get(src);
                self.set(dst, v);
            }
            _ => panic!("not part of the scenarios"),
        }
        self.pc = next;
    }
}

fn r(index: i32) -> VirtualRegister {
    VirtualRegister::new(index)
}

#[test]
fn get_by_id_reads_an_own_data_property() {
    let mut m = Machine::new(3);
    let object = m.object();
    m.put(object, "x", JSValue::new_int(42));
    let x = m.string("x");
    m.set(r(1), object);
    m.set(r(2), x);
    m.step(Instruction::GetById { dst: r(0), base: r(1), id: r(2), fdbk: 0 });
    assert!(m.get(r(0)) == JSValue::new_int(42));
    assert_eq!(m.get(r(0)).as_int32(), 42);
    assert!(m.get(r(1)) == object);
    assert_eq!(m.pc, 1);
}

#[test]
fn put_by_val_then_get_by_val_round_trips() {
    let mut m = Machine::new(5);
    let base = m.object();
    let key = m.string("key");
    let referenced = m.object();
    m.set(r(1), base);
    m.set(r(2), key);
    for stored in [
        JSValue::new_int(-7),
        JSValue::new_double(2.5f64.to_bits()),
        JSValue::true_(),
        JSValue::null(),
        JSValue::undefined(),
        referenced,
        key,
    ] {
        m.set(r(3), stored);
        m.set(r(0), JSValue::default());
        m.step(Instruction::PutByVal { value: r(3), base: r(1), key: r(2) });
        m.step(Instruction::GetByVal { dst: r(0), base: r(1), key: r(2) });
        assert!(m.get(r(0)) == stored);
        assert_eq!(m.get(r(0)).to_bits(), stored.to_bits());
    }
    m.set(r(3), referenced);
    m.step(Instruction::PutByVal { value: r(3), base: r(1), key: r(2) });
    m.step(Instruction::GetByVal { dst: r(0), base: r(1), key: r(2) });
    assert!(m.get(r(0)).is_cell());
    assert_eq!(m.get(r(0)).as_cell(), referenced.as_cell());
    assert_ne!(m.get(r(0)).as_cell(), base.as_cell());
}

#[test]
fn jtrue_branches_on_true_only() {
    let mut m = Machine::new(1);
    m.set(r(0), JSValue::false_());
    m.pc = 10;
    m.step(Instruction::JTrue { condition: r(0), label: 5 });
    assert_eq!(m.pc, 11);
    m.set(r(0), JSValue::true_());
    m.pc = 10;
    m.step(Instruction::JTrue { condition: r(0), label: 5 });
    assert_eq!(m.pc, 15);
    m.pc = 10;
    m.step(Instruction::JTrue { condition: r(0), label: -4 });
    assert_eq!(m.pc, 6);
}

#[test]
fn jfalse_branches_on_false_only() {
    let mut m = Machine::new(1);
    m.set(r(0), JSValue::true_());
    m.pc = 3;
    m.step(Instruction::JFalse { condition: r(0), label: 9 });
    assert_eq!(m.pc, 4);
    m.set(r(0), JSValue::false_());
    m.pc = 3;
    m.step(Instruction::JFalse { condition: r(0), label: 9 });
    assert_eq!(m.pc, 12);
}
