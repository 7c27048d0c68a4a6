//! The intermediate-representation container: plain data, an interned
//! name and an ordered function list.

use gpu_types::hir::Function;
use gpu_types::hir::Module;
use gpu_types::hir::StringPool;
use gpu_types::hir::StringRef;

#[test]
fn module_holds_name_handle_and_ordered_functions() {
    let mut pool: StringPool = Vec::new();
    pool.push(String::from("main_module"));
    let m = Module {
        name: StringRef(0),
        functions: vec![Function {}, Function {}],
    };
    assert_eq!(m.name.0, 0);
    assert_eq!(pool[m.name.0 as usize], "main_module");
    assert_eq!(m.functions.len(), 2);
    let copy = m.clone();
    assert_eq!(copy.name.0, 0);
    assert_eq!(copy.functions.len(), 2);
}
