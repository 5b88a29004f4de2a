use swc_plugin_mockify::ast::{
    Class, Decl, DefaultDecl, ExportSpecifier, Expr, ExprStmt, Function, Ident, ImportSpecifier,
    Module, ModuleDecl, ModuleExportName, ModuleItem, Pat, Span, Stmt, StrLit, VarDeclKind,
    VarDeclarator,
};
use swc_plugin_mockify::{
    default_exclude_paths, default_export_name, default_import_as, default_import_from,
    default_include_paths, wrap_with_mockify, Config, TransformVisitor,
};

const DUMMY: Span = Span { lo: 0, hi: 0, ctxt: 0 };

fn sp(lo: u32, hi: u32) -> Span {
    Span { lo, hi, ctxt: 0 }
}

fn ident(name: &str, span: Span) -> Ident {
    Ident { span, sym: name.to_string(), optional: false }
}

fn lit(value: &str, span: Span) -> StrLit {
    StrLit { span, value: value.to_string(), raw: Some(format!("'{}'", value)) }
}

fn call(alias: &str, span: Span, arg: Expr) -> Expr {
    Expr::Call { span, callee: ident(alias, DUMMY), arg: Box::new(arg) }
}

fn wrapper_import(local: &str, imported: &str, from: &str) -> ModuleItem {
    ModuleItem::ModuleDecl(ModuleDecl::Import {
        span: DUMMY,
        specifiers: vec![ImportSpecifier::Named {
            span: DUMMY,
            local: ident(local, DUMMY),
            imported: Some(ModuleExportName::Ident(ident(imported, DUMMY))),
            is_type_only: false,
        }],
        src: StrLit { span: DUMMY, value: from.to_string(), raw: None },
        type_only: false,
        with: None,
    })
}

fn mockify_config() -> Config {
    Config {
        import_from: "mockify".into(),
        import_as: "mockify".into(),
        export_name: "mockify".into(),
        base_path: ".".into(),
        include_paths: None,
        exclude_paths: None,
    }
}

fn mockify_import() -> ModuleItem {
    wrapper_import("mockify", "mockify", "mockify")
}

fn declarator(span: Span, name: &str, init: Option<Expr>) -> VarDeclarator {
    VarDeclarator { span, name: Pat::Ident(ident(name, sp(span.lo, span.lo + 1))), init, definite: false }
}

fn var_decl(span: Span, kind: VarDeclKind, decls: Vec<VarDeclarator>) -> Decl {
    Decl::Var { span, kind, declare: false, decls }
}

fn export_decl(span: Span, decl: Decl) -> ModuleItem {
    ModuleItem::ModuleDecl(ModuleDecl::ExportDecl { span, decl })
}

fn const_stmt(span: Span, name: Ident, init: Expr) -> ModuleItem {
    ModuleItem::Stmt(Stmt::Decl(Decl::Var {
        span,
        kind: VarDeclKind::Const,
        declare: false,
        decls: vec![VarDeclarator { span, name: Pat::Ident(name), init: Some(init), definite: false }],
    }))
}

fn alias_const(alias: &str, name: &str) -> ModuleItem {
    const_stmt(
        DUMMY,
        ident(&format!("_mockified_{}", name), DUMMY),
        call(alias, DUMMY, Expr::Ident(ident(name, DUMMY))),
    )
}

fn named(orig: ModuleExportName, exported: Option<ModuleExportName>, span: Span) -> ExportSpecifier {
    ExportSpecifier::Named { span, orig, exported, is_type_only: false }
}

fn export_list(span: Span, specifiers: Vec<ExportSpecifier>, src: Option<StrLit>) -> ModuleItem {
    ModuleItem::ModuleDecl(ModuleDecl::ExportNamed {
        span,
        specifiers,
        src,
        type_only: false,
        with: None,
    })
}

fn name_of(name: &str, span: Span) -> ModuleExportName {
    ModuleExportName::Ident(ident(name, span))
}

fn wrapped_spec(name: &str, exported: ModuleExportName) -> ExportSpecifier {
    named(name_of(&format!("_mockified_{}", name), DUMMY), Some(exported), DUMMY)
}

fn fn_decl_stmt(name: Ident, function: Function) -> ModuleItem {
    ModuleItem::Stmt(Stmt::Decl(Decl::Fn { ident: name, declare: false, function }))
}

fn directive(text: &str) -> ModuleItem {
    ModuleItem::Stmt(Stmt::Expr(ExprStmt { span: sp(0, 21), expr: Expr::Str(lit(text, sp(0, 20))) }))
}

fn other_stmt(node: u64) -> ModuleItem {
    ModuleItem::Stmt(Stmt::Other(node))
}

fn transform_with(config: Option<Config>, body: Vec<ModuleItem>) -> Vec<ModuleItem> {
    let mut visitor = TransformVisitor::new(config);
    let mut module = Module { body };
    visitor.visit_mut_module(&mut module);
    module.body
}

fn transform(body: Vec<ModuleItem>) -> Vec<ModuleItem> {
    transform_with(Some(mockify_config()), body)
}

fn exported_function(name: &str, node: u64) -> ModuleItem {
    export_decl(
        sp(0, 40),
        Decl::Fn {
            ident: ident(name, sp(16, 23)),
            declare: false,
            function: Function { span: sp(7, 40), node },
        },
    )
}

fn expected_function_export(name: &str, node: u64) -> (ModuleItem, ModuleItem, ModuleItem) {
    let hoisted = fn_decl_stmt(ident(name, sp(16, 23)), Function { span: sp(7, 40), node });
    let reexport = export_list(
        sp(0, 40),
        vec![named(
            name_of(&format!("_mockified_{}", name), sp(16, 23)),
            Some(name_of(name, sp(16, 23))),
            DUMMY,
        )],
        None,
    );
    let bound = const_stmt(
        sp(7, 40),
        ident(&format!("_mockified_{}", name), sp(16, 23)),
        call("mockify", sp(7, 40), Expr::Ident(ident(name, sp(16, 23)))),
    );
    (hoisted, reexport, bound)
}

// export const example = {};
#[test]
fn export_const() {
    let input = vec![export_decl(
        sp(0, 26),
        var_decl(sp(7, 26), VarDeclKind::Const, vec![declarator(sp(13, 25), "example", Some(Expr::Other(1)))]),
    )];
    let expected = vec![
        mockify_import(),
        export_decl(
            sp(0, 26),
            var_decl(
                sp(7, 26),
                VarDeclKind::Const,
                vec![declarator(sp(13, 25), "example", Some(call("mockify", sp(13, 25), Expr::Other(1))))],
            ),
        ),
    ];
    assert_eq!(transform(input), expected);
}

// export function example() { return {}; }
#[test]
fn export_function() {
    let (hoisted, reexport, bound) = expected_function_export("example", 1);
    assert_eq!(
        transform(vec![exported_function("example", 1)]),
        vec![mockify_import(), hoisted, reexport, bound]
    );
}

// export default {};
#[test]
fn default_export() {
    let input = vec![ModuleItem::ModuleDecl(ModuleDecl::ExportDefaultExpr {
        span: sp(0, 18),
        expr: Expr::Other(1),
    })];
    let expected = vec![
        mockify_import(),
        ModuleItem::ModuleDecl(ModuleDecl::ExportDefaultExpr {
            span: sp(0, 18),
            expr: call("mockify", sp(0, 18), Expr::Other(1)),
        }),
    ];
    assert_eq!(transform(input), expected);
}

// export default function example() { return {}; }
#[test]
fn default_export_function() {
    let function = Function { span: sp(15, 48), node: 1 };
    let input = vec![ModuleItem::ModuleDecl(ModuleDecl::ExportDefaultDecl {
        span: sp(0, 48),
        decl: DefaultDecl::Fn { ident: Some(ident("example", sp(24, 31))), function },
    })];
    let expected = vec![
        mockify_import(),
        fn_decl_stmt(ident("example", sp(24, 31)), function),
        ModuleItem::ModuleDecl(ModuleDecl::ExportDefaultExpr {
            span: sp(0, 48),
            expr: call("mockify", DUMMY, Expr::Ident(ident("example", sp(24, 31)))),
        }),
    ];
    assert_eq!(transform(input), expected);
}

// export default class Example {}
#[test]
fn default_export_class() {
    let class = Class { span: sp(15, 31), node: 1 };
    let input = vec![ModuleItem::ModuleDecl(ModuleDecl::ExportDefaultDecl {
        span: sp(0, 31),
        decl: DefaultDecl::Class { ident: Some(ident("Example", sp(21, 28))), class },
    })];
    let expected = vec![
        mockify_import(),
        ModuleItem::Stmt(Stmt::Decl(Decl::Class {
            ident: ident("Example", sp(21, 28)),
            declare: false,
            class,
        })),
        ModuleItem::ModuleDecl(ModuleDecl::ExportDefaultExpr {
            span: sp(0, 31),
            expr: call("mockify", DUMMY, Expr::Ident(ident("Example", sp(21, 28)))),
        }),
    ];
    assert_eq!(transform(input), expected);
}

// const A = () => {}; function B() {} export { A, B };
#[test]
fn separate_export_declaration() {
    let input = vec![
        other_stmt(1),
        other_stmt(2),
        export_list(
            sp(40, 56),
            vec![
                named(name_of("A", sp(49, 50)), None, sp(49, 50)),
                named(name_of("B", sp(52, 53)), None, sp(52, 53)),
            ],
            None,
        ),
    ];
    let expected = vec![
        mockify_import(),
        other_stmt(1),
        other_stmt(2),
        export_list(
            sp(40, 56),
            vec![
                wrapped_spec("A", name_of("A", sp(49, 50))),
                wrapped_spec("B", name_of("B", sp(52, 53))),
            ],
            None,
        ),
        alias_const("mockify", "A"),
        alias_const("mockify", "B"),
    ];
    assert_eq!(transform(input), expected);
}

// const A = () => {}; function B() {} export { A as AA, B as BB };
#[test]
fn separate_export_declaration_with_rename() {
    let input = vec![
        other_stmt(1),
        other_stmt(2),
        export_list(
            sp(40, 68),
            vec![
                named(name_of("A", sp(49, 50)), Some(name_of("AA", sp(54, 56))), sp(49, 56)),
                named(name_of("B", sp(58, 59)), Some(name_of("BB", sp(63, 65))), sp(58, 65)),
            ],
            None,
        ),
    ];
    let expected = vec![
        mockify_import(),
        other_stmt(1),
        other_stmt(2),
        export_list(
            sp(40, 68),
            vec![
                wrapped_spec("A", name_of("AA", sp(54, 56))),
                wrapped_spec("B", name_of("BB", sp(63, 65))),
            ],
            None,
        ),
        alias_const("mockify", "A"),
        alias_const("mockify", "B"),
    ];
    assert_eq!(transform(input), expected);
}

// import { A } from 'module'; export { A as ABC };
#[test]
fn export_imported_values() {
    let import = ModuleItem::ModuleDecl(ModuleDecl::Import {
        span: sp(0, 27),
        specifiers: vec![ImportSpecifier::Named {
            span: sp(9, 10),
            local: ident("A", sp(9, 10)),
            imported: None,
            is_type_only: false,
        }],
        src: lit("module", sp(18, 26)),
        type_only: false,
        with: None,
    });
    let input = vec![
        import.clone(),
        export_list(
            sp(28, 48),
            vec![named(name_of("A", sp(37, 38)), Some(name_of("ABC", sp(42, 45))), sp(37, 45))],
            None,
        ),
    ];
    let expected = vec![
        mockify_import(),
        import,
        export_list(sp(28, 48), vec![wrapped_spec("A", name_of("ABC", sp(42, 45)))], None),
        alias_const("mockify", "A"),
    ];
    assert_eq!(transform(input), expected);
}

// export const nested = { example: {} };
#[test]
fn complex_object_exports() {
    let input = vec![export_decl(
        sp(0, 38),
        var_decl(sp(7, 38), VarDeclKind::Const, vec![declarator(sp(13, 37), "nested", Some(Expr::Other(9)))]),
    )];
    let expected = vec![
        mockify_import(),
        export_decl(
            sp(0, 38),
            var_decl(
                sp(7, 38),
                VarDeclKind::Const,
                vec![declarator(sp(13, 37), "nested", Some(call("mockify", sp(13, 37), Expr::Other(9))))],
            ),
        ),
    ];
    assert_eq!(transform(input), expected);
}

// class Example {}
#[test]
fn no_added_imports() {
    let input = vec![ModuleItem::Stmt(Stmt::Decl(Decl::Class {
        ident: ident("Example", sp(6, 13)),
        declare: false,
        class: Class { span: sp(0, 16), node: 1 },
    }))];
    assert_eq!(transform(input.clone()), input);
}

// "__do_not_mockify__"; export const example = {};
#[test]
fn do_not_mockify() {
    let input = vec![
        directive("__do_not_mockify__"),
        export_decl(
            sp(22, 48),
            var_decl(sp(29, 48), VarDeclKind::Const, vec![declarator(sp(35, 47), "example", Some(Expr::Other(1)))]),
        ),
    ];
    assert_eq!(transform(input.clone()), input);
}

// export default function() {} export const name = {};
#[test]
fn mixed_exports() {
    let function = Function { span: sp(15, 28), node: 1 };
    let input = vec![
        ModuleItem::ModuleDecl(ModuleDecl::ExportDefaultDecl {
            span: sp(0, 28),
            decl: DefaultDecl::Fn { ident: None, function },
        }),
        export_decl(
            sp(29, 52),
            var_decl(sp(36, 52), VarDeclKind::Const, vec![declarator(sp(42, 51), "name", Some(Expr::Other(2)))]),
        ),
    ];
    let expected = vec![
        mockify_import(),
        ModuleItem::ModuleDecl(ModuleDecl::ExportDefaultExpr {
            span: sp(0, 28),
            expr: call("mockify", sp(15, 28), Expr::Fn { ident: None, function }),
        }),
        export_decl(
            sp(29, 52),
            var_decl(
                sp(36, 52),
                VarDeclKind::Const,
                vec![declarator(sp(42, 51), "name", Some(call("mockify", sp(42, 51), Expr::Other(2))))],
            ),
        ),
    ];
    assert_eq!(transform(input), expected);
}

// export async function asyncFunc() { return Promise.resolve(); }
#[test]
fn async_function() {
    let (hoisted, reexport, bound) = expected_function_export("asyncFunc", 11);
    assert_eq!(
        transform(vec![exported_function("asyncFunc", 11)]),
        vec![mockify_import(), hoisted, reexport, bound]
    );
}

// export function* genFunc() { yield 1; }
#[test]
fn generator_function() {
    let (hoisted, reexport, bound) = expected_function_export("genFunc", 12);
    assert_eq!(
        transform(vec![exported_function("genFunc", 12)]),
        vec![mockify_import(), hoisted, reexport, bound]
    );
}

// const module = import('./module');
#[test]
fn dynamic_import() {
    let input = vec![ModuleItem::Stmt(Stmt::Decl(var_decl(
        sp(0, 34),
        VarDeclKind::Const,
        vec![declarator(sp(6, 33), "module", Some(Expr::Other(1)))],
    )))];
    assert_eq!(transform(input.clone()), input);
}

// export { example } from 'another-module';
#[test]
fn re_export() {
    let input = vec![export_list(
        sp(0, 41),
        vec![named(name_of("example", sp(9, 16)), None, sp(9, 16))],
        Some(lit("another-module", sp(24, 40))),
    )];
    assert_eq!(transform(input.clone()), input);
}

// export const example = {}; with a wrapper of another name
#[test]
fn custom_config() {
    let config = Config {
        import_from: "custom-mockify".into(),
        base_path: ".".into(),
        export_name: "customMockify".into(),
        import_as: "___customMockify".into(),
        exclude_paths: None,
        include_paths: None,
    };
    let input = vec![export_decl(
        sp(0, 26),
        var_decl(sp(7, 26), VarDeclKind::Const, vec![declarator(sp(13, 25), "example", Some(Expr::Other(1)))]),
    )];
    let expected = vec![
        wrapper_import("___customMockify", "customMockify", "custom-mockify"),
        export_decl(
            sp(0, 26),
            var_decl(
                sp(7, 26),
                VarDeclKind::Const,
                vec![declarator(
                    sp(13, 25),
                    "example",
                    Some(call("___customMockify", sp(13, 25), Expr::Other(1))),
                )],
            ),
        ),
    ];
    assert_eq!(transform_with(Some(config), input), expected);
}

#[test]
fn defaults_name_the_wrapper() {
    assert_eq!(default_import_from(), "promock");
    assert_eq!(default_export_name(), "mockify");
    assert_eq!(default_import_as(), "mockify");
    assert_eq!(default_include_paths(), None);
    assert_eq!(default_exclude_paths(), None);
}

#[test]
fn new_without_config_uses_defaults() {
    let visitor = TransformVisitor::new(None);
    let expected = Config {
        import_from: "promock".into(),
        import_as: "mockify".into(),
        export_name: "mockify".into(),
        base_path: ".".into(),
        include_paths: None,
        exclude_paths: None,
    };
    assert_eq!(visitor.config(), &expected);
    assert!(!visitor.mockify_used());
    assert!(!visitor.do_not_mockify());
    assert!(visitor.added_to_top_of_file().is_empty());
    assert!(visitor.added_to_bottom_of_file().is_empty());
    assert_eq!(visitor.mockified_identifier(&"A".to_string()), None);
}

#[test]
fn default_wrapper_is_imported_from_promock() {
    let input = vec![ModuleItem::ModuleDecl(ModuleDecl::ExportDefaultExpr {
        span: sp(0, 18),
        expr: Expr::Other(1),
    })];
    let expected = vec![
        wrapper_import("mockify", "mockify", "promock"),
        ModuleItem::ModuleDecl(ModuleDecl::ExportDefaultExpr {
            span: sp(0, 18),
            expr: call("mockify", sp(0, 18), Expr::Other(1)),
        }),
    ];
    assert_eq!(transform_with(None, input), expected);
}

#[test]
fn new_keeps_the_given_config() {
    let config = Config {
        import_from: "lib".into(),
        import_as: "wrap".into(),
        export_name: "wrapIt".into(),
        base_path: "/src".into(),
        include_paths: Some(vec!["^a/".to_string()]),
        exclude_paths: Some(vec![]),
    };
    let visitor = TransformVisitor::new(Some(config.clone()));
    assert_eq!(visitor.config(), &config);
}

#[test]
fn wrapper_call_has_alias_argument_and_span() {
    let config = Config {
        import_from: "lib".into(),
        import_as: "wrap".into(),
        export_name: "wrapIt".into(),
        base_path: ".".into(),
        include_paths: None,
        exclude_paths: None,
    };
    let wrapped = wrap_with_mockify(sp(3, 9), Expr::Other(5), &config);
    assert_eq!(
        wrapped,
        Expr::Call {
            span: sp(3, 9),
            callee: Ident { span: DUMMY, sym: "wrap".to_string(), optional: false },
            arg: Box::new(Expr::Other(5)),
        }
    );
    assert_ne!(wrapped, Expr::Other(5));
}

#[test]
fn wrapping_twice_nests_the_calls() {
    let config = TransformVisitor::new(None).config().clone();
    let once = wrap_with_mockify(sp(1, 2), Expr::Ident(ident("x", sp(1, 2))), &config);
    let twice = wrap_with_mockify(sp(3, 4), once.clone(), &config);
    assert_eq!(twice, call("mockify", sp(3, 4), once));
}

#[test]
fn dummy_span_is_all_zero() {
    assert_eq!(Span::dummy(), Span { lo: 0, hi: 0, ctxt: 0 });
}

#[test]
fn new_ident_is_not_optional() {
    assert_eq!(
        Ident::new("f".to_string(), sp(4, 5)),
        Ident { span: sp(4, 5), sym: "f".to_string(), optional: false }
    );
}

#[test]
fn clones_are_equal_to_their_source() {
    let name = Ident { span: sp(1, 2), sym: "a".to_string(), optional: true };
    assert_eq!(name.clone(), name);
    let text = lit("x y", sp(2, 7));
    assert_eq!(text.clone(), text);
    let by_text = ModuleExportName::Str(text);
    assert_eq!(by_text.clone(), by_text);
    let nested = call(
        "w",
        sp(0, 9),
        call("v", sp(1, 8), Expr::Fn { ident: Some(name), function: Function { span: sp(2, 7), node: 3 } }),
    );
    assert_eq!(nested.clone(), nested);
    let class = Expr::Class { ident: None, class: Class { span: sp(1, 3), node: 4 } };
    assert_eq!(class.clone(), class);
}

#[test]
fn empty_module_stays_empty() {
    assert_eq!(transform(vec![]), vec![]);
}

#[test]
fn module_without_exports_is_unchanged() {
    let input = vec![
        other_stmt(1),
        ModuleItem::ModuleDecl(ModuleDecl::Other(2)),
        ModuleItem::Stmt(Stmt::Expr(ExprStmt { span: sp(5, 9), expr: Expr::Other(3) })),
        fn_decl_stmt(ident("f", sp(20, 21)), Function { span: sp(11, 30), node: 4 }),
        ModuleItem::Stmt(Stmt::Decl(Decl::Other(5))),
    ];
    let mut visitor = TransformVisitor::new(None);
    let mut module = Module { body: input.clone() };
    visitor.visit_mut_module(&mut module);
    assert_eq!(module.body, input);
    assert!(!visitor.mockify_used());
    assert!(visitor.added_to_top_of_file().is_empty());
    assert!(visitor.added_to_bottom_of_file().is_empty());
}

#[test]
fn directive_first_leaves_every_export_alone() {
    let input = vec![
        directive("__do_not_mockify__"),
        exported_function("f", 1),
        export_list(sp(50, 60), vec![named(name_of("a", sp(58, 59)), None, sp(58, 59))], None),
        ModuleItem::ModuleDecl(ModuleDecl::ExportDefaultExpr { span: sp(61, 70), expr: Expr::Other(2) }),
        ModuleItem::ModuleDecl(ModuleDecl::ExportDefaultDecl {
            span: sp(71, 90),
            decl: DefaultDecl::Class { ident: Some(ident("C", sp(80, 81))), class: Class { span: sp(74, 90), node: 3 } },
        }),
    ];
    let mut visitor = TransformVisitor::new(None);
    let mut module = Module { body: input.clone() };
    visitor.visit_mut_module(&mut module);
    assert_eq!(module.body, input);
    assert!(visitor.do_not_mockify());
    assert!(!visitor.mockify_used());
}

#[test]
fn directive_needs_the_exact_text() {
    for text in ["__do_not_mockify__ ", "do_not_mockify", "__DO_NOT_MOCKIFY__", ""] {
        let input = vec![
            directive(text),
            ModuleItem::ModuleDecl(ModuleDecl::ExportDefaultExpr { span: sp(30, 40), expr: Expr::Other(1) }),
        ];
        let output = transform(input.clone());
        assert_eq!(output.len(), 3);
        assert_eq!(output[0], mockify_import());
        assert_eq!(output[1], input[0]);
    }
}

#[test]
fn directive_is_a_bare_string_statement() {
    let mut visitor = TransformVisitor::new(None);
    visitor.visit_mut_expr_stmt(&ExprStmt {
        span: sp(0, 5),
        expr: Expr::Ident(ident("__do_not_mockify__", sp(0, 5))),
    });
    assert!(!visitor.do_not_mockify());
    visitor.visit_mut_expr_stmt(&ExprStmt {
        span: sp(0, 5),
        expr: call("f", sp(0, 5), Expr::Str(lit("__do_not_mockify__", sp(2, 4)))),
    });
    assert!(!visitor.do_not_mockify());
    visitor.visit_mut_expr_stmt(&ExprStmt {
        span: sp(0, 5),
        expr: Expr::Str(StrLit { span: sp(0, 5), value: "__do_not_mockify__".to_string(), raw: None }),
    });
    assert!(visitor.do_not_mockify());
    visitor.visit_mut_expr_stmt(&ExprStmt { span: sp(6, 9), expr: Expr::Other(1) });
    assert!(visitor.do_not_mockify());
}

#[test]
fn directive_after_a_wrap_stops_the_rest_and_the_splice() {
    let input = vec![
        ModuleItem::ModuleDecl(ModuleDecl::ExportDefaultExpr { span: sp(0, 10), expr: Expr::Other(1) }),
        directive("__do_not_mockify__"),
        exported_function("f", 2),
    ];
    let mut visitor = TransformVisitor::new(None);
    let mut module = Module { body: input.clone() };
    visitor.visit_mut_module(&mut module);
    assert_eq!(
        module.body,
        vec![
            ModuleItem::ModuleDecl(ModuleDecl::ExportDefaultExpr {
                span: sp(0, 10),
                expr: call("mockify", sp(0, 10), Expr::Other(1)),
            }),
            input[1].clone(),
            input[2].clone(),
        ]
    );
    assert!(visitor.mockify_used());
    assert!(visitor.do_not_mockify());
}

#[test]
fn hoisted_function_stands_before_every_item() {
    let (hoisted, reexport, bound) = expected_function_export("f", 7);
    let input = vec![other_stmt(1), exported_function("f", 7), other_stmt(2)];
    let output = transform(input);
    assert_eq!(
        output,
        vec![mockify_import(), hoisted.clone(), other_stmt(1), reexport, other_stmt(2), bound]
    );
    let declared = output.iter().position(|item| *item == hoisted).unwrap();
    let first_use = output.iter().position(|item| *item == other_stmt(1)).unwrap();
    assert!(declared < first_use);
}

#[test]
fn queues_keep_the_order_of_the_exports() {
    let (hoisted_f, reexport_f, bound_f) = expected_function_export("f", 1);
    let (hoisted_g, reexport_g, bound_g) = expected_function_export("g", 2);
    let class = Class { span: sp(15, 31), node: 3 };
    let input = vec![
        exported_function("f", 1),
        ModuleItem::ModuleDecl(ModuleDecl::ExportDefaultDecl {
            span: sp(0, 31),
            decl: DefaultDecl::Class { ident: Some(ident("C", sp(21, 22))), class },
        }),
        export_list(sp(50, 60), vec![named(name_of("a", sp(58, 59)), None, sp(58, 59))], None),
        exported_function("g", 2),
    ];
    let expected = vec![
        mockify_import(),
        hoisted_f,
        ModuleItem::Stmt(Stmt::Decl(Decl::Class { ident: ident("C", sp(21, 22)), declare: false, class })),
        hoisted_g,
        reexport_f,
        ModuleItem::ModuleDecl(ModuleDecl::ExportDefaultExpr {
            span: sp(0, 31),
            expr: call("mockify", DUMMY, Expr::Ident(ident("C", sp(21, 22)))),
        }),
        export_list(sp(50, 60), vec![wrapped_spec("a", name_of("a", sp(58, 59)))], None),
        reexport_g,
        bound_f,
        alias_const("mockify", "a"),
        bound_g,
    ];
    assert_eq!(transform(input), expected);
}

#[test]
fn declared_function_keeps_its_declare_flag() {
    let function = Function { span: sp(7, 40), node: 1 };
    let mut visitor = TransformVisitor::new(None);
    let mut item = export_decl(
        sp(0, 40),
        Decl::Fn { ident: ident("f", sp(24, 25)), declare: true, function },
    );
    visitor.visit_mut_module_item(&mut item);
    assert_eq!(
        visitor.added_to_top_of_file(),
        &vec![ModuleItem::Stmt(Stmt::Decl(Decl::Fn { ident: ident("f", sp(24, 25)), declare: true, function }))]
    );
    assert_eq!(
        visitor.added_to_bottom_of_file(),
        &vec![const_stmt(
            sp(7, 40),
            ident("_mockified_f", sp(24, 25)),
            call("mockify", sp(7, 40), Expr::Ident(ident("f", sp(24, 25)))),
        )]
    );
    assert_eq!(
        item,
        export_list(
            sp(0, 40),
            vec![named(name_of("_mockified_f", sp(24, 25)), Some(name_of("f", sp(24, 25))), DUMMY)],
            None,
        )
    );
    assert!(visitor.mockify_used());
    assert_eq!(visitor.mockified_identifier(&"f".to_string()), None);
}

#[test]
fn same_local_in_one_list_is_wrapped_once() {
    let input = vec![export_list(
        sp(0, 30),
        vec![
            named(name_of("a", sp(9, 10)), None, sp(9, 10)),
            named(name_of("a", sp(12, 13)), Some(name_of("b", sp(17, 18))), sp(12, 18)),
        ],
        None,
    )];
    let expected = vec![
        mockify_import(),
        export_list(
            sp(0, 30),
            vec![wrapped_spec("a", name_of("a", sp(9, 10))), wrapped_spec("a", name_of("b", sp(17, 18)))],
            None,
        ),
        alias_const("mockify", "a"),
    ];
    let output = transform(input);
    assert_eq!(output, expected);
    assert_eq!(output.iter().filter(|item| **item == alias_const("mockify", "a")).count(), 1);
}

#[test]
fn same_local_in_two_lists_is_wrapped_once() {
    let input = vec![
        export_list(sp(0, 12), vec![named(name_of("a", sp(9, 10)), None, sp(9, 10))], None),
        other_stmt(1),
        export_list(
            sp(20, 40),
            vec![named(name_of("a", sp(29, 30)), Some(name_of("b", sp(34, 35))), sp(29, 35))],
            None,
        ),
    ];
    let expected = vec![
        mockify_import(),
        export_list(sp(0, 12), vec![wrapped_spec("a", name_of("a", sp(9, 10)))], None),
        other_stmt(1),
        export_list(sp(20, 40), vec![wrapped_spec("a", name_of("b", sp(34, 35)))], None),
        alias_const("mockify", "a"),
    ];
    assert_eq!(transform(input), expected);
}

#[test]
fn registry_binds_each_local_to_its_wrapped_name() {
    let mut visitor = TransformVisitor::new(None);
    let mut decl = ModuleDecl::ExportNamed {
        span: sp(0, 30),
        specifiers: vec![
            named(name_of("A", sp(9, 10)), None, sp(9, 10)),
            named(ModuleExportName::Str(lit("b c", sp(12, 17))), Some(name_of("d", sp(21, 22))), sp(12, 22)),
        ],
        src: None,
        type_only: false,
        with: None,
    };
    visitor.visit_mut_module_decl(&mut decl);
    assert_eq!(visitor.mockified_identifier(&"A".to_string()), Some("_mockified_A".to_string()));
    assert_eq!(visitor.mockified_identifier(&"b c".to_string()), Some("_mockified_b c".to_string()));
    assert_eq!(visitor.mockified_identifier(&"d".to_string()), None);
    assert_eq!(visitor.mockified_identifier(&"_mockified_A".to_string()), None);
    assert_eq!(
        visitor.added_to_bottom_of_file(),
        &vec![alias_const("mockify", "A"), alias_const("mockify", "b c")]
    );
    assert!(visitor.added_to_top_of_file().is_empty());
}

#[test]
fn specifier_named_by_a_string_keeps_it_as_exported_name() {
    let text = ModuleExportName::Str(lit("a-b", sp(9, 14)));
    let input = vec![export_list(sp(0, 17), vec![named(text.clone(), None, sp(9, 14))], None)];
    let expected = vec![
        mockify_import(),
        export_list(sp(0, 17), vec![wrapped_spec("a-b", text)], None),
        alias_const("mockify", "a-b"),
    ];
    assert_eq!(transform(input), expected);
}

#[test]
fn other_specifiers_pass_through() {
    let input = vec![export_list(
        sp(0, 30),
        vec![ExportSpecifier::Other(4), named(name_of("a", sp(12, 13)), None, sp(12, 13))],
        None,
    )];
    let expected = vec![
        mockify_import(),
        export_list(
            sp(0, 30),
            vec![ExportSpecifier::Other(4), wrapped_spec("a", name_of("a", sp(12, 13)))],
            None,
        ),
        alias_const("mockify", "a"),
    ];
    assert_eq!(transform(input), expected);
}

#[test]
fn list_without_named_specifiers_wraps_nothing() {
    let input = vec![
        export_list(sp(0, 10), vec![], None),
        export_list(sp(11, 20), vec![ExportSpecifier::Other(4)], None),
    ];
    assert_eq!(transform(input.clone()), input);
}

#[test]
fn export_list_keeps_type_only_and_attributes() {
    let mut visitor = TransformVisitor::new(None);
    let mut decl = ModuleDecl::ExportNamed {
        span: sp(0, 30),
        specifiers: vec![ExportSpecifier::Named {
            span: sp(9, 10),
            orig: name_of("a", sp(9, 10)),
            exported: None,
            is_type_only: true,
        }],
        src: None,
        type_only: true,
        with: Some(8),
    };
    visitor.visit_mut_module_decl(&mut decl);
    assert_eq!(
        decl,
        ModuleDecl::ExportNamed {
            span: sp(0, 30),
            specifiers: vec![wrapped_spec("a", name_of("a", sp(9, 10)))],
            src: None,
            type_only: true,
            with: Some(8),
        }
    );
}

#[test]
fn only_const_declarations_are_wrapped() {
    let input = vec![
        export_decl(sp(0, 20), var_decl(sp(7, 20), VarDeclKind::Let, vec![declarator(sp(11, 19), "a", Some(Expr::Other(1)))])),
        export_decl(sp(21, 40), var_decl(sp(28, 40), VarDeclKind::Var, vec![declarator(sp(32, 39), "b", Some(Expr::Other(2)))])),
        export_decl(
            sp(41, 60),
            Decl::Class { ident: ident("C", sp(54, 55)), declare: false, class: Class { span: sp(48, 60), node: 3 } },
        ),
        export_decl(sp(61, 80), Decl::Other(4)),
    ];
    assert_eq!(transform(input.clone()), input);
}

#[test]
fn const_without_initializer_wraps_nothing() {
    let input = vec![export_decl(
        sp(0, 30),
        Decl::Var {
            span: sp(7, 30),
            kind: VarDeclKind::Const,
            declare: true,
            decls: vec![declarator(sp(21, 29), "a", None)],
        },
    )];
    assert_eq!(transform(input.clone()), input);
}

#[test]
fn each_declarator_is_wrapped_with_its_own_span() {
    let input = vec![export_decl(
        sp(0, 40),
        var_decl(
            sp(7, 40),
            VarDeclKind::Const,
            vec![
                declarator(sp(13, 18), "a", Some(Expr::Other(1))),
                declarator(sp(20, 21), "b", None),
                VarDeclarator { span: sp(23, 39), name: Pat::Other(6), init: Some(Expr::Str(lit("s", sp(36, 39)))), definite: true },
            ],
        ),
    )];
    let expected = vec![
        mockify_import(),
        export_decl(
            sp(0, 40),
            var_decl(
                sp(7, 40),
                VarDeclKind::Const,
                vec![
                    declarator(sp(13, 18), "a", Some(call("mockify", sp(13, 18), Expr::Other(1)))),
                    declarator(sp(20, 21), "b", None),
                    VarDeclarator {
                        span: sp(23, 39),
                        name: Pat::Other(6),
                        init: Some(call("mockify", sp(23, 39), Expr::Str(lit("s", sp(36, 39))))),
                        definite: true,
                    },
                ],
            ),
        ),
    ];
    assert_eq!(transform(input), expected);
}

#[test]
fn anonymous_default_class_is_wrapped_in_place() {
    let class = Class { span: sp(15, 23), node: 1 };
    let input = vec![ModuleItem::ModuleDecl(ModuleDecl::ExportDefaultDecl {
        span: sp(0, 23),
        decl: DefaultDecl::Class { ident: None, class },
    })];
    let expected = vec![
        mockify_import(),
        ModuleItem::ModuleDecl(ModuleDecl::ExportDefaultExpr {
            span: sp(0, 23),
            expr: call("mockify", sp(15, 23), Expr::Class { ident: None, class }),
        }),
    ];
    assert_eq!(transform(input), expected);
}

#[test]
fn other_default_declaration_is_left_alone() {
    let input = vec![ModuleItem::ModuleDecl(ModuleDecl::ExportDefaultDecl {
        span: sp(0, 23),
        decl: DefaultDecl::Other(3),
    })];
    assert_eq!(transform(input.clone()), input);
}

#[test]
fn module_declaration_rule_leaves_export_declarations_alone() {
    let mut visitor = TransformVisitor::new(None);
    let before = ModuleDecl::ExportDecl {
        span: sp(0, 26),
        decl: var_decl(sp(7, 26), VarDeclKind::Const, vec![declarator(sp(13, 25), "a", Some(Expr::Other(1)))]),
    };
    let mut decl = before.clone();
    visitor.visit_mut_module_decl(&mut decl);
    assert_eq!(decl, before);
    assert!(!visitor.mockify_used());
}

#[test]
fn import_is_added_exactly_when_something_was_wrapped() {
    let wrapped = transform(vec![
        other_stmt(1),
        ModuleItem::ModuleDecl(ModuleDecl::ExportDefaultExpr { span: sp(0, 9), expr: Expr::Other(2) }),
    ]);
    assert_eq!(wrapped.len(), 3);
    assert_eq!(wrapped[0], mockify_import());
    assert_eq!(wrapped.iter().filter(|item| **item == mockify_import()).count(), 1);

    let untouched = transform(vec![other_stmt(1), ModuleItem::ModuleDecl(ModuleDecl::Other(2))]);
    assert_eq!(untouched.len(), 2);
    assert!(!untouched.contains(&mockify_import()));
}

#[test]
fn queues_are_empty_after_the_splice() {
    let mut visitor = TransformVisitor::new(None);
    let mut module = Module { body: vec![exported_function("f", 1)] };
    visitor.visit_mut_module(&mut module);
    assert_eq!(module.body.len(), 4);
    assert!(visitor.mockify_used());
    assert!(visitor.added_to_top_of_file().is_empty());
    assert!(visitor.added_to_bottom_of_file().is_empty());
}

#[test]
fn switched_off_pass_looks_at_nothing() {
    let mut visitor = TransformVisitor::new(None);
    let mut first = directive("__do_not_mockify__");
    visitor.visit_mut_module_item(&mut first);
    assert!(visitor.do_not_mockify());
    let before = exported_function("f", 1);
    let mut item = before.clone();
    visitor.visit_mut_module_item(&mut item);
    assert_eq!(item, before);
    let mut decl = ModuleDecl::ExportDefaultExpr { span: sp(0, 9), expr: Expr::Other(2) };
    visitor.visit_mut_module_decl(&mut decl);
    assert_eq!(decl, ModuleDecl::ExportDefaultExpr { span: sp(0, 9), expr: Expr::Other(2) });
    assert!(!visitor.mockify_used());
    assert!(visitor.added_to_top_of_file().is_empty());
    assert!(visitor.added_to_bottom_of_file().is_empty());
}

#[test]
fn items_keep_their_order_between_the_queues() {
    let (hoisted, reexport, bound) = expected_function_export("f", 1);
    let input = vec![
        other_stmt(1),
        ModuleItem::ModuleDecl(ModuleDecl::Other(2)),
        exported_function("f", 1),
        other_stmt(3),
        other_stmt(4),
    ];
    let output = transform(input.clone());
    assert_eq!(output.len(), input.len() + 3);
    assert_eq!(output[0], mockify_import());
    assert_eq!(output[1], hoisted);
    assert_eq!(output[2..7], [input[0].clone(), input[1].clone(), reexport, input[3].clone(), input[4].clone()]);
    assert_eq!(output[7], bound);
}

#[test]
fn an_export_before_the_directive_counts_as_a_wrap() {
    let mut visitor = TransformVisitor::new(None);
    let mut module = Module {
        body: vec![
            export_list(sp(0, 12), vec![named(name_of("a", sp(9, 10)), None, sp(9, 10))], None),
            directive("__do_not_mockify__"),
        ],
    };
    visitor.visit_mut_module(&mut module);
    assert_eq!(
        module.body,
        vec![
            export_list(sp(0, 12), vec![wrapped_spec("a", name_of("a", sp(9, 10)))], None),
            directive("__do_not_mockify__"),
        ]
    );
    assert!(visitor.mockify_used());
    assert!(visitor.do_not_mockify());
    assert_eq!(visitor.added_to_bottom_of_file(), &vec![alias_const("mockify", "a")]);
}
