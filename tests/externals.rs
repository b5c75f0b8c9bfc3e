use std::rc::Rc;
use wasmtime_api::externals::Extern;
use wasmtime_api::func::{finish_call, Callable, Func};
use wasmtime_api::global::Global;
use wasmtime_api::memory::Memory;
use wasmtime_api::table::Table;
use wasmtime_api::types::{
    ExternType, FuncType, GlobalType, Limits, MemoryType, Mutability, TableType,
};
use wasmtime_api::values::{Trap, Val, ValType};

/// Adds its two i32 arguments and also returns their difference.
struct AddSub;

impl Callable for AddSub {
    fn call(&self, params: &[Val], results: &mut [Val]) -> Result<(), Rc<Trap>> {
        match (params[0], params[1]) {
            (Val::I32(a), Val::I32(b)) => {
                results[0] = Val::I32(a.wrapping_add(b));
                results[1] = Val::I32(a.wrapping_sub(b));
                Ok(())
            }
            _ => Err(Rc::new(Trap::new(String::from("bad arguments")))),
        }
    }
}

/// Always traps.
struct Failing;

impl Callable for Failing {
    fn call(&self, _params: &[Val], _results: &mut [Val]) -> Result<(), Rc<Trap>> {
        Err(Rc::new(Trap::new(String::from("unreachable executed"))))
    }
}

fn add_sub_type() -> FuncType {
    FuncType::new(vec![ValType::I32, ValType::I32], vec![ValType::I32, ValType::I32])
}

fn funcref_table(min: u32, max: u32) -> Table {
    Table::new(TableType::new(ValType::FuncRef, Limits::new(min, max)), Val::FuncRef(None))
}

#[test]
fn global_round_trip_i32() {
    let mut g = Global::new(GlobalType::new(ValType::I32, Mutability::Var), Val::I32(7));
    assert_eq!(g.get(), Val::I32(7));
    g.set(Val::I32(-123456));
    assert_eq!(g.get(), Val::I32(-123456));
}

#[test]
fn global_round_trip_i64() {
    let mut g = Global::new(GlobalType::new(ValType::I64, Mutability::Var), Val::I64(0));
    g.set(Val::I64(i64::MIN));
    assert_eq!(g.get(), Val::I64(i64::MIN));
    g.set(Val::I64(-1));
    assert_eq!(g.get(), Val::I64(-1));
}

#[test]
fn global_round_trip_f32() {
    let bits = 1.5f32.to_bits();
    let mut g = Global::new(GlobalType::new(ValType::F32, Mutability::Var), Val::from_f32_bits(0));
    g.set(Val::from_f32_bits(bits));
    assert_eq!(g.get(), Val::F32(bits));
    assert_eq!(g.get(), Val::F32(0x3FC0_0000));
}

#[test]
fn global_round_trip_f64() {
    let bits = (-2.25f64).to_bits();
    let mut g = Global::new(GlobalType::new(ValType::F64, Mutability::Const), Val::F64(0));
    g.set(Val::from_f64_bits(bits));
    assert_eq!(g.get(), Val::F64(bits));
}

#[test]
fn global_reports_its_type() {
    let ty = GlobalType::new(ValType::I64, Mutability::Const);
    let g = Global::new(ty, Val::I64(42));
    assert_eq!(*g.ty(), ty);
    assert_eq!(g.ty().content(), ValType::I64);
    assert_eq!(g.ty().mutability(), Mutability::Const);
    assert_eq!(g.get(), Val::I64(42));
}

#[test]
fn table_fresh_out_of_range() {
    let mut t = funcref_table(3, 10);
    assert_eq!(t.size(), 3);
    assert_eq!(t.get(3), Val::FuncRef(None));
    assert_eq!(t.get(u32::MAX), Val::FuncRef(None));
    assert!(!t.set(3, Val::FuncRef(Some(1))));
    assert!(!t.set(100, Val::FuncRef(Some(1))));
    assert_eq!(t.size(), 3);
}

#[test]
fn table_fresh_slots_are_empty() {
    let t = funcref_table(2, 2);
    assert_eq!(t.get(0), Val::FuncRef(None));
    assert_eq!(t.get(1), Val::FuncRef(None));
}

#[test]
fn table_set_then_get() {
    let mut t = funcref_table(2, 4);
    assert!(t.set(1, Val::FuncRef(Some(9))));
    assert_eq!(t.get(1), Val::FuncRef(Some(9)));
    assert_eq!(t.get(0), Val::FuncRef(None));
    assert_eq!(t.size(), 2);
}

#[test]
fn table_grow_within_max() {
    let mut t = funcref_table(1, 4);
    assert!(t.set(0, Val::FuncRef(Some(5))));
    assert!(t.grow(3, Val::FuncRef(Some(8))));
    assert_eq!(t.size(), 4);
    assert_eq!(t.get(0), Val::FuncRef(Some(5)));
    assert_eq!(t.get(1), Val::FuncRef(Some(8)));
    assert_eq!(t.get(2), Val::FuncRef(Some(8)));
    assert_eq!(t.get(3), Val::FuncRef(Some(8)));
    assert_eq!(t.get(4), Val::FuncRef(None));
}

#[test]
fn table_grow_beyond_max() {
    let mut t = funcref_table(2, 4);
    assert!(!t.grow(3, Val::FuncRef(Some(8))));
    assert_eq!(t.size(), 2);
    assert_eq!(t.get(2), Val::FuncRef(None));
}

#[test]
fn table_grow_by_zero() {
    let mut t = funcref_table(2, 2);
    assert!(t.grow(0, Val::FuncRef(None)));
    assert_eq!(t.size(), 2);
}

#[test]
fn table_reports_its_type() {
    let t = funcref_table(1, 7);
    assert_eq!(t.ty().element(), ValType::FuncRef);
    assert_eq!(t.ty().limits().min(), 1);
    assert_eq!(t.ty().limits().max(), 7);
}

#[test]
fn memory_fresh_size() {
    let m = Memory::new(MemoryType::new(Limits::new(2, 5)));
    assert_eq!(m.size(), 2);
    assert_eq!(m.data_size(), 2 * 65536);
    assert_eq!(m.data().len(), 131072);
    assert!(m.data().iter().all(|b| *b == 0));
}

#[test]
fn memory_empty() {
    let m = Memory::new(MemoryType::new(Limits::at_least(0)));
    assert_eq!(m.size(), 0);
    assert_eq!(m.data_size(), 0);
}

#[test]
fn memory_grow_within_max() {
    let mut m = Memory::new(MemoryType::new(Limits::new(1, 3)));
    assert!(m.grow(2));
    assert_eq!(m.size(), 3);
    assert_eq!(m.data_size(), 3 * 65536);
    assert_eq!(m.data().len(), 196608);
}

#[test]
fn memory_grow_beyond_max() {
    let mut m = Memory::new(MemoryType::new(Limits::new(1, 3)));
    let before = m.data().to_vec();
    assert!(!m.grow(3));
    assert_eq!(m.size(), 1);
    assert_eq!(m.data_size(), 65536);
    assert_eq!(m.data().to_vec(), before);
}

#[test]
fn memory_grow_beyond_page_limit() {
    let mut m = Memory::new(MemoryType::new(Limits::at_least(0)));
    assert!(!m.grow(65537));
    assert!(!m.grow(u32::MAX));
    assert_eq!(m.size(), 0);
}

#[test]
fn memory_grow_by_zero() {
    let mut m = Memory::new(MemoryType::new(Limits::new(1, 1)));
    assert!(m.grow(0));
    assert_eq!(m.size(), 1);
    assert_eq!(m.ty().limits(), Limits::new(1, 1));
}

#[test]
fn func_call_returns_results_in_order() {
    let f = Func::new(add_sub_type(), Rc::new(AddSub));
    assert_eq!(f.param_arity(), 2);
    assert_eq!(f.result_arity(), 2);
    let r = f.call(&[Val::I32(10), Val::I32(3)]);
    match r {
        Ok(vals) => assert_eq!(vals, vec![Val::I32(13), Val::I32(7)]),
        Err(_) => panic!("call trapped"),
    }
}

#[test]
fn func_call_trap() {
    let f = Func::new(FuncType::new(vec![], vec![ValType::I64]), Rc::new(Failing));
    match f.call(&[]) {
        Ok(_) => panic!("expected a trap"),
        Err(trap) => assert_eq!(trap.message(), "unreachable executed"),
    }
}

#[test]
fn func_reports_its_type() {
    let f = Func::new(add_sub_type(), Rc::new(AddSub));
    assert_eq!(f.ty().params(), &[ValType::I32, ValType::I32]);
    assert_eq!(f.ty().results().len(), 2);
}

#[test]
fn finish_call_keeps_buffer_or_trap() {
    let ok = finish_call(Ok(()), vec![Val::I32(1)]);
    assert_eq!(ok.ok(), Some(vec![Val::I32(1)]));
    let trap = Rc::new(Trap::new(String::from("t")));
    let err = finish_call(Err(trap.clone()), vec![Val::I32(1)]);
    match err {
        Ok(_) => panic!("expected the trap"),
        Err(t) => assert!(Rc::ptr_eq(&t, &trap)),
    }
}

#[test]
fn extern_type_tags() {
    let ef: Extern<AddSub> = Extern::Func(Func::new(add_sub_type(), Rc::new(AddSub)));
    match ef.ty() {
        ExternType::ExternFunc(ft) => assert_eq!(ft.params().len(), 2),
        _ => panic!("function expected"),
    }
    assert_eq!(ef.func().result_arity(), 2);

    let gt = GlobalType::new(ValType::I32, Mutability::Var);
    let eg: Extern<AddSub> = Extern::Global(Global::new(gt, Val::I32(1)));
    assert!(matches!(eg.ty(), ExternType::ExternGlobal(t) if t == gt));
    assert_eq!(eg.global().get(), Val::I32(1));

    let et: Extern<AddSub> = Extern::Table(funcref_table(1, 2));
    assert!(matches!(et.ty(), ExternType::ExternTable(t) if t.element() == ValType::FuncRef));
    assert_eq!(et.table().size(), 1);

    let mt = MemoryType::new(Limits::new(1, 2));
    let em: Extern<AddSub> = Extern::Memory(Memory::new(mt));
    assert!(matches!(em.ty(), ExternType::ExternMemory(t) if t == mt));
    assert_eq!(em.memory().size(), 1);
}

#[test]
fn val_kinds_and_default() {
    assert_eq!(Val::default(), Val::AnyRef(None));
    assert_eq!(Val::I32(1).ty(), ValType::I32);
    assert_eq!(Val::I64(1).ty(), ValType::I64);
    assert_eq!(Val::from_f32_bits(1).ty(), ValType::F32);
    assert_eq!(Val::from_f64_bits(1).ty(), ValType::F64);
    assert_eq!(Val::FuncRef(None).ty(), ValType::FuncRef);
    assert!(ValType::F64.is_num_exec());
    assert!(!ValType::AnyRef.is_num_exec());
}
