use phper::functions::{create_zend_arg_info, Argument, Callable, FunctionEntity};
use phper::registry::Registry;
use phper::sys::{ArgConstraint, ArgInfo, ArgName, Handler, PhpVersion};
use phper::objects::Object;
use phper::values::{ExecuteData, Val};

fn nothing() -> Callable {
    Callable::Function(Box::new(|_: &mut [Val]| ()))
}

#[test]
fn record_of_two_arguments() {
    let mut registry = Registry::new(PhpVersion::V7_4);
    let entity = FunctionEntity::new(
        "f",
        nothing(),
        vec![Argument::by_val("a"), Argument::by_ref_optional("b")],
    );
    let id = registry.register(entity);
    let entry = registry.entry(id).unwrap();

    assert_eq!(entry.fname, "f\0");
    assert_eq!(entry.handler, Some(Handler::Invoke));
    assert_eq!(entry.num_args, 2);
    assert_eq!(entry.flags, 0);
    assert_eq!(entry.arg_info.len(), 5);

    let flagged = |flag: u8| ArgConstraint::Flagged {
        type_: 0,
        pass_by_reference: flag,
        is_variadic: 0,
    };
    assert_eq!(
        entry.arg_info[0],
        ArgInfo { name: ArgName::Count(1), constraint: flagged(0) }
    );
    assert_eq!(
        entry.arg_info[1],
        ArgInfo { name: ArgName::Text("a\0".to_string()), constraint: flagged(0) }
    );
    assert_eq!(
        entry.arg_info[2],
        ArgInfo { name: ArgName::Text("b\0".to_string()), constraint: flagged(1) }
    );
    assert_eq!(entry.arg_info[3], ArgInfo { name: ArgName::Null, constraint: flagged(0) });
    assert_eq!(
        entry.arg_info[4],
        ArgInfo { name: ArgName::Handler(id), constraint: flagged(0) }
    );
}

#[test]
fn sentinel_leads_back_to_the_same_callable() {
    let mut registry = Registry::new(PhpVersion::V8_0);
    let first = registry.register(FunctionEntity::new("first", nothing(), vec![]));
    let second = registry.register(FunctionEntity::new(
        "second",
        nothing(),
        vec![Argument::by_val("a"), Argument::by_ref_optional("b")],
    ));
    assert_eq!((first, second), (0, 1));

    let entry = registry.entry(second).unwrap();
    let frame = ExecuteData::new(&entry, 0, vec![Val::Null]).unwrap();
    let found = registry.handler(&frame).unwrap();
    assert!(std::ptr::eq(found, &registry.get(second).unwrap().handler));
    assert!(!std::ptr::eq(found, &registry.get(first).unwrap().handler));

    let entry = registry.entry(first).unwrap();
    let frame = ExecuteData::new(&entry, 0, vec![]).unwrap();
    let found = registry.handler(&frame).unwrap();
    assert!(std::ptr::eq(found, &registry.get(first).unwrap().handler));
}

#[test]
fn record_without_arguments_has_three_cells() {
    let mut registry = Registry::new(PhpVersion::V8_0);
    let id = registry.register(FunctionEntity::new("now", nothing(), vec![]));
    let entry = registry.entry(id).unwrap();
    let typed = ArgConstraint::Typed { type_ptr: 0, type_mask: 0, default_value: 0 };
    assert_eq!(entry.num_args, 0);
    assert_eq!(
        entry.arg_info,
        vec![
            ArgInfo { name: ArgName::Count(0), constraint: typed },
            ArgInfo { name: ArgName::Null, constraint: typed },
            ArgInfo { name: ArgName::Handler(0), constraint: typed },
        ]
    );
}

#[test]
fn entity_builds_its_record_for_any_identity() {
    let entity = FunctionEntity::new("f", nothing(), vec![Argument::by_ref("out")]);
    let entry = entity.entry(PhpVersion::V7_0, 41);
    let hinted = |flag: u8| ArgConstraint::Hinted {
        class_name: 0,
        type_hint: 0,
        allow_null: 0,
        pass_by_reference: flag,
        is_variadic: 0,
    };
    assert_eq!(
        entry.arg_info,
        vec![
            ArgInfo { name: ArgName::Count(1), constraint: hinted(0) },
            ArgInfo { name: ArgName::Text("out\0".to_string()), constraint: hinted(1) },
            ArgInfo { name: ArgName::Null, constraint: hinted(0) },
            ArgInfo { name: ArgName::Handler(41), constraint: hinted(0) },
        ]
    );
    assert_eq!(entry.num_args, 1);
    assert_eq!(entry.fname, "f\0");
}

#[test]
fn latest_layout_has_no_reference_flag() {
    for pass_by_ref in [false, true] {
        let info =
            create_zend_arg_info(PhpVersion::V8_0, ArgName::Text("x\0".to_string()), pass_by_ref);
        assert_eq!(info.name, ArgName::Text("x\0".to_string()));
        assert_eq!(
            info.constraint,
            ArgConstraint::Typed { type_ptr: 0, type_mask: 0, default_value: 0 }
        );
    }
}

#[test]
fn middle_layouts_carry_the_reference_flag() {
    for version in [PhpVersion::V7_2, PhpVersion::V7_3, PhpVersion::V7_4] {
        let by_ref = create_zend_arg_info(version, ArgName::Count(3), true);
        assert_eq!(by_ref.name, ArgName::Count(3));
        assert_eq!(
            by_ref.constraint,
            ArgConstraint::Flagged { type_: 0, pass_by_reference: 1, is_variadic: 0 }
        );
        let by_val = create_zend_arg_info(version, ArgName::Null, false);
        assert_eq!(
            by_val.constraint,
            ArgConstraint::Flagged { type_: 0, pass_by_reference: 0, is_variadic: 0 }
        );
    }
}

#[test]
fn oldest_layouts_carry_the_reference_flag_and_a_class_name() {
    for version in [PhpVersion::V7_0, PhpVersion::V7_1] {
        let by_ref = create_zend_arg_info(version, ArgName::Handler(9), true);
        assert_eq!(by_ref.name, ArgName::Handler(9));
        assert_eq!(
            by_ref.constraint,
            ArgConstraint::Hinted {
                class_name: 0,
                type_hint: 0,
                allow_null: 0,
                pass_by_reference: 1,
                is_variadic: 0,
            }
        );
        let by_val = create_zend_arg_info(version, ArgName::Null, false);
        assert_eq!(
            by_val.constraint,
            ArgConstraint::Hinted {
                class_name: 0,
                type_hint: 0,
                allow_null: 0,
                pass_by_reference: 0,
                is_variadic: 0,
            }
        );
    }
}

#[test]
fn zero_cell_is_the_cell_of_no_name_and_no_flag() {
    for version in [
        PhpVersion::V7_0,
        PhpVersion::V7_1,
        PhpVersion::V7_2,
        PhpVersion::V7_3,
        PhpVersion::V7_4,
        PhpVersion::V8_0,
    ] {
        assert_eq!(ArgInfo::zeroed(version), create_zend_arg_info(version, ArgName::Null, false));
    }
}

#[test]
fn registry_counts_and_finds_its_registrations() {
    let mut registry = Registry::new(PhpVersion::V7_3);
    assert_eq!(registry.version(), PhpVersion::V7_3);
    assert_eq!(registry.len(), 0);
    assert!(registry.get(0).is_none());
    assert!(registry.entry(0).is_none());

    let id = registry.register(FunctionEntity::new("f", nothing(), vec![]));
    assert_eq!(id, 0);
    assert_eq!(registry.len(), 1);
    assert_eq!(registry.get(0).unwrap().name, "f\0");
    assert!(registry.get(1).is_none());
    assert!(registry.entry(1).is_none());
    assert!(registry.entry(usize::MAX).is_none());
}

#[test]
fn earlier_registrations_keep_their_identity() {
    let mut registry = Registry::new(PhpVersion::V8_0);
    let names = ["a", "b", "c", "d"];
    for (place, name) in names.iter().enumerate() {
        assert_eq!(registry.register(FunctionEntity::new(name, nothing(), vec![])), place);
    }
    for (place, name) in names.iter().enumerate() {
        assert_eq!(registry.get(place).unwrap().name, format!("{}\0", name));
        let entry = registry.entry(place).unwrap();
        assert_eq!(entry.arg_info[2].name, ArgName::Handler(place));
    }
}

#[test]
fn class_is_set_on_methods_only() {
    let mut registry = Registry::new(PhpVersion::V8_0);
    let function = registry.register(FunctionEntity::new("f", nothing(), vec![]));
    let method = registry.register(FunctionEntity::new(
        "m",
        Callable::Method(Box::new(|_: &mut Object, _: &mut [Val]| ()), 0),
        vec![Argument::by_val("a")],
    ));

    assert!(!registry.resolve_class(function, 5));
    assert!(!registry.resolve_class(2, 5));
    assert!(!registry.get(function).unwrap().handler.is_method());

    assert!(registry.resolve_class(method, 5));
    let entity = registry.get(method).unwrap();
    assert_eq!(entity.name, "m\0");
    assert_eq!(entity.arguments.len(), 1);
    assert!(matches!(entity.handler, Callable::Method(_, 5)));
    assert_eq!(registry.len(), 2);
    assert_eq!(registry.get(function).unwrap().name, "f\0");
}

#[test]
fn class_of_a_callable_is_set_in_place() {
    let mut method = Callable::Method(Box::new(|_: &mut Object, _: &mut [Val]| ()), 0);
    assert!(method.is_method());
    method.set_class(12);
    assert!(matches!(method, Callable::Method(_, 12)));
    method.set_class(13);
    assert!(matches!(method, Callable::Method(_, 13)));

    let mut function = nothing();
    function.set_class(12);
    assert!(matches!(function, Callable::Function(_)));
}

#[test]
fn receiver_keeps_its_handle_and_class() {
    let object = Object::new(0x40, 0x50);
    assert_eq!(object.as_ptr(), 0x40);
    assert_eq!(object.get_class(), 0x50);
    assert_eq!(object, Object { ptr: 0x40, class: 0x50 });
}
