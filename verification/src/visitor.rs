//! The pass itself: the state that it keeps for one module, and the methods
//! that walk the module and rewrite its exports.

use crate::ast::{
    view_seq, Decl, DefaultDecl, ExportSpecifier, Expr, ExprStmt, Ident, ImportSpecifier, Module,
    ModuleDecl, ModuleExportName, ModuleItem, Pat, Span, Stmt, StrLit, VarDeclKind, VarDeclarator,
};
use crate::config::{default_export_name, default_import_as, default_import_from, Config};
use crate::rules::{
    const_item, drained, fresh_state, has_initializer, register_name, register_specifiers,
    rewrite_body, rewrite_specifier, rewrite_specifiers, scan_expr_stmt, step_module_decl,
    step_module_item, walk, wrap_declarator, wrap_declarators, wrapped_name, wrapper_call,
    wrapper_import, RewriteState,
};
use vstd::prelude::*;
use vstd::string::StringExecFns;

verus! {

/// The map that a list of registered names stands for: each name with the
/// name of its wrapped binding.
spec fn registry_of(entries: Seq<(String, String)>) -> Map<Seq<char>, Seq<char>>
    decreases entries.len(),
{
    if entries.len() == 0 {
        Map::empty()
    } else {
        registry_of(entries.drop_last()).insert(entries.last().0@, entries.last().1@)
    }
}

/// A name is in the map of a list exactly if some entry of the list holds it.
proof fn lemma_registry_domain(entries: Seq<(String, String)>, name: Seq<char>)
    ensures
        registry_of(entries).dom().contains(name) <==> exists|i: int|
            0 <= i < entries.len() && (#[trigger] entries[i]).0@ == name,
    decreases entries.len(),
{
    if entries.len() > 0 {
        let front = entries.drop_last();
        lemma_registry_domain(front, name);
        if registry_of(entries).dom().contains(name) {
            if entries.last().0@ == name {
                assert(entries[entries.len() - 1].0@ == name);
            } else {
                let i = choose|i: int| 0 <= i < front.len() && (#[trigger] front[i]).0@ == name;
                assert(entries[i].0@ == name);
            }
        }
        if exists|i: int| 0 <= i < entries.len() && (#[trigger] entries[i]).0@ == name {
            let i = choose|i: int| 0 <= i < entries.len() && (#[trigger] entries[i]).0@ == name;
            if i < entries.len() - 1 {
                assert(front[i].0@ == name);
            }
        }
    }
}

/// Where no name occurs twice in a list, the map of the list binds the name
/// of each entry to what the entry holds.
proof fn lemma_registry_value(entries: Seq<(String, String)>, i: int)
    requires
        0 <= i < entries.len(),
        forall|a: int, b: int|
            0 <= a < b < entries.len() ==> (#[trigger] entries[a]).0@ != (#[trigger] entries[b]).0@,
    ensures
        registry_of(entries).dom().contains(entries[i].0@),
        registry_of(entries)[entries[i].0@] == entries[i].1@,
    decreases entries.len(),
{
    if i < entries.len() - 1 {
        let front = entries.drop_last();
        assert forall|a: int, b: int| 0 <= a < b < front.len() implies (#[trigger] front[a]).0@ != (
        #[trigger] front[b]).0@ by {
            assert(front[a] == entries[a]);
            assert(front[b] == entries[b]);
        }
        lemma_registry_value(front, i);
        assert(front[i] == entries[i]);
        assert(entries[i].0@ != entries[entries.len() - 1].0@);
    }
}

/// The pass over one module.
pub struct TransformVisitor {
    config: Config,
    mockify_used: bool,
    do_not_mockify: bool,
    added_to_top_of_file: Vec<ModuleItem>,
    added_to_bottom_of_file: Vec<ModuleItem>,
    mockified_identifiers: Vec<(String, String)>,
}

impl View for TransformVisitor {
    type V = RewriteState;

    closed spec fn view(&self) -> RewriteState {
        RewriteState {
            config: self.config@,
            wrap_triggered: self.mockify_used,
            disabled: self.do_not_mockify,
            prepend: view_seq(self.added_to_top_of_file@),
            append: view_seq(self.added_to_bottom_of_file@),
            registry: registry_of(self.mockified_identifiers@),
        }
    }
}

/// The call of the configured wrapper on `expr`, tagged with `span`.
pub fn wrap_with_mockify(span: Span, expr: Expr, config: &Config) -> (call: Expr)
    ensures
        call@ == wrapper_call(config@, span, expr@),
{
    Expr::Call {
        span,
        callee: Ident::new(config.import_as.clone(), Span::dummy()),
        arg: Box::new(expr),
    }
}

/// The name of the binding that holds the wrapped value of `sym`.
fn mockified_name(sym: &String) -> (name: String)
    ensures
        name@ == wrapped_name(sym@),
{
    String::from_str("_mockified_").concat(sym.as_str())
}

/// The statement `const name = init`.
fn const_declaration(span: Span, name: Ident, init: Expr) -> (item: ModuleItem)
    ensures
        item@ == const_item(span, name@, init@),
{
    let decls = vec![VarDeclarator { span, name: Pat::Ident(name), init: Some(init), definite: false }];
    let item = ModuleItem::Stmt(
        Stmt::Decl(Decl::Var { span, kind: VarDeclKind::Const, declare: false, decls }),
    );
    assert(item@ == const_item(span, name@, init@)) by {
        assert(view_seq(decls@) =~= seq![decls@[0]@]);
    }
    item
}

impl TransformVisitor {
    /// Whether the state is one that the pass can be in: its view is valid
    /// and no name is registered twice.
    pub closed spec fn wf(&self) -> bool {
        &&& self@.valid()
        &&& forall|i: int, j: int|
            0 <= i < j < self.mockified_identifiers@.len() ==> (
            #[trigger] self.mockified_identifiers@[i]).0@ != (
            #[trigger] self.mockified_identifiers@[j]).0@
    }

    /// A pass that has not looked at anything yet, with the given wrapper or,
    /// where none is given, with the default one.
    pub fn new(config: Option<Config>) -> (visitor: Self)
        ensures
            visitor.wf(),
            visitor@ == fresh_state(
                match config {
                    Some(given) => given@,
                    None => crate::config::default_config(),
                },
            ),
    {
        let visitor = Self {
            config: match config {
                Some(config) => config,
                None => Config {
                    import_from: default_import_from(),
                    import_as: default_import_as(),
                    export_name: default_export_name(),
                    base_path: String::from_str("."),
                    include_paths: None,
                    exclude_paths: None,
                },
            },
            added_to_bottom_of_file: Vec::new(),
            added_to_top_of_file: Vec::new(),
            mockify_used: false,
            do_not_mockify: false,
            mockified_identifiers: Vec::new(),
        };
        assert(visitor@.prepend =~= Seq::empty());
        assert(visitor@.append =~= Seq::empty());
        visitor
    }

    /// Switches the pass off where the statement is the directive.
    pub fn visit_mut_expr_stmt(&mut self, n: &ExprStmt)
        requires
            old(self).wf(),
        ensures
            final(self).wf(),
            final(self)@ == scan_expr_stmt(old(self)@, n@),
    {
        match &n.expr {
            Expr::Str(str_lit) => {
                if str_lit.value == String::from_str("__do_not_mockify__") {
                    self.do_not_mockify = true;
                }
            },
            _ => {},
        }
    }

    /// Gives `sym` a wrapped binding unless it has one.
    fn register(&mut self, sym: &String)
        requires
            old(self).wf(),
        ensures
            final(self).wf(),
            final(self)@ == register_name(old(self)@, sym@),
    {
        if !self.is_registered(sym) {
            let formatted_ident = mockified_name(sym);
            let mockified_ident = Ident::new(formatted_ident.clone(), Span::dummy());
            let init = wrap_with_mockify(
                Span::dummy(),
                Expr::Ident(Ident::new(sym.clone(), Span::dummy())),
                &self.config,
            );
            let mockify_stmt = const_declaration(Span::dummy(), mockified_ident, init);
            proof {
                lemma_registry_domain(self.mockified_identifiers@, sym@);
                assert(self.mockified_identifiers@.push((*sym, formatted_ident)).drop_last()
                    =~= self.mockified_identifiers@);
                assert(view_seq(self.added_to_bottom_of_file@.push(mockify_stmt)) =~= view_seq(
                    self.added_to_bottom_of_file@,
                ).push(mockify_stmt@));
            }
            self.mockify_used = true;
            self.added_to_bottom_of_file.push(mockify_stmt);
            self.mockified_identifiers.push((sym.clone(), formatted_ident));
        }
    }

    /// Points every specifier of an export list at a wrapped binding, which is
    /// declared behind the body unless it has been declared already.
    fn wrap_specifiers(&mut self, specifiers: &Vec<ExportSpecifier>) -> (new_specifiers: Vec<
        ExportSpecifier,
    >)
        requires
            old(self).wf(),
        ensures
            final(self).wf(),
            final(self)@ == register_specifiers(old(self)@, view_seq(specifiers@)),
            view_seq(new_specifiers@) == rewrite_specifiers(view_seq(specifiers@)),
    {
        let ghost specs = view_seq(specifiers@);
        let mut new_specifiers: Vec<ExportSpecifier> = Vec::new();
        let n = specifiers.len();
        let mut i: usize = 0;
        assert(specs.take(0) =~= Seq::empty());
        while i < n
            invariant
                n == specifiers@.len(),
                i <= n,
                specs == view_seq(specifiers@),
                self.wf(),
                self@ == register_specifiers(old(self)@, specs.take(i as int)),
                new_specifiers@.len() == i,
                forall|j: int|
                    0 <= j < i ==> (#[trigger] new_specifiers@[j])@ == rewrite_specifier(specs[j]),
            decreases n - i,
        {
            assert(specs.take(i + 1).drop_last() =~= specs.take(i as int));
            assert(specs.take(i + 1).last() == specs[i as int]);
            match &specifiers[i] {
                ExportSpecifier::Named { span, orig, exported, is_type_only } => {
                    let local_sym = match orig {
                        ModuleExportName::Ident(ident) => ident.sym.clone(),
                        ModuleExportName::Str(lit) => lit.value.clone(),
                    };
                    let mockified_ident = Ident::new(
                        mockified_name(&local_sym),
                        Span::dummy(),
                    );
                    self.register(&local_sym);
                    new_specifiers.push(
                        ExportSpecifier::Named {
                            span: Span::dummy(),
                            orig: ModuleExportName::Ident(mockified_ident),
                            exported: match exported {
                                None => Some(orig.clone()),
                                Some(name) => Some(name.clone()),
                            },
                            is_type_only: false,
                        },
                    );
                },
                ExportSpecifier::Other(node) => {
                    new_specifiers.push(ExportSpecifier::Other(*node));
                },
            }
            i += 1;
        }
        assert(specs.take(n as int) =~= specs);
        assert(view_seq(new_specifiers@) =~= rewrite_specifiers(specs));
        new_specifiers
    }

    /// Rewrites an export list, a default-exported expression or a
    /// default-exported function or class, and leaves every other module
    /// declaration alone.
    pub fn visit_mut_module_decl(&mut self, item: &mut ModuleDecl)
        requires
            old(self).wf(),
        ensures
            final(self).wf(),
            final(self)@ == step_module_decl(old(self)@, old(item)@).0,
            final(item)@ == step_module_decl(old(self)@, old(item)@).1,
    {
        if self.do_not_mockify {
            return ;
        }
        match item {
            ModuleDecl::ExportNamed { span, specifiers, src, type_only, with } => {
                if src.is_some() {
                    return ;
                }
                let new_specifiers = self.wrap_specifiers(specifiers);
                *specifiers = new_specifiers;
            },
            ModuleDecl::ExportDefaultExpr { span, expr } => {
                self.mockify_used = true;
                *expr = wrap_with_mockify(*span, expr.clone(), &self.config);
            },
            // The name of a declared function or class stays in scope only if
            // the declaration stays: it moves to the front of the body, and
            // the default export becomes the wrapped name.
            ModuleDecl::ExportDefaultDecl { span, decl } => {
                let export_span = *span;
                match decl {
                    DefaultDecl::Fn { ident, function } => {
                        self.mockify_used = true;
                        let wrapped_expr = match ident {
                            None => wrap_with_mockify(
                                function.span,
                                Expr::Fn { ident: None, function: *function },
                                &self.config,
                            ),
                            Some(name) => {
                                let declaration = ModuleItem::Stmt(
                                    Stmt::Decl(
                                        Decl::Fn {
                                            ident: name.clone(),
                                            declare: false,
                                            function: *function,
                                        },
                                    ),
                                );
                                proof {
                                    assert(view_seq(
                                        self.added_to_top_of_file@.push(declaration),
                                    ) =~= view_seq(self.added_to_top_of_file@).push(
                                        declaration@,
                                    ));
                                }
                                self.added_to_top_of_file.push(declaration);
                                wrap_with_mockify(
                                    Span::dummy(),
                                    Expr::Ident(name.clone()),
                                    &self.config,
                                )
                            },
                        };
                        *item = ModuleDecl::ExportDefaultExpr {
                            span: export_span,
                            expr: wrapped_expr,
                        };
                    },
                    DefaultDecl::Class { ident, class } => {
                        self.mockify_used = true;
                        let wrapped_expr = match ident {
                            None => wrap_with_mockify(
                                class.span,
                                Expr::Class { ident: None, class: *class },
                                &self.config,
                            ),
                            Some(name) => {
                                let declaration = ModuleItem::Stmt(
                                    Stmt::Decl(
                                        Decl::Class {
                                            ident: name.clone(),
                                            declare: false,
                                            class: *class,
                                        },
                                    ),
                                );
                                proof {
                                    assert(view_seq(
                                        self.added_to_top_of_file@.push(declaration),
                                    ) =~= view_seq(self.added_to_top_of_file@).push(
                                        declaration@,
                                    ));
                                }
                                self.added_to_top_of_file.push(declaration);
                                wrap_with_mockify(
                                    Span::dummy(),
                                    Expr::Ident(name.clone()),
                                    &self.config,
                                )
                            },
                        };
                        *item = ModuleDecl::ExportDefaultExpr {
                            span: export_span,
                            expr: wrapped_expr,
                        };
                    },
                    _ => {},
                }
            },
            _ => {},
        }
    }

    /// Passes every initializer of a `const` declaration to the wrapper.
    fn wrap_initializers(&mut self, decls: &mut Vec<VarDeclarator>)
        requires
            old(self).wf(),
        ensures
            final(self).wf(),
            final(self)@ == (RewriteState {
                wrap_triggered: old(self)@.wrap_triggered || has_initializer(
                    view_seq(old(decls)@),
                ),
                ..old(self)@
            }),
            view_seq(final(decls)@) == wrap_declarators(old(self)@.config, view_seq(old(decls)@)),
    {
        let n = decls.len();
        let mut i: usize = 0;
        while i < n
            invariant
                n == decls@.len(),
                n == old(decls)@.len(),
                i <= n,
                self.wf(),
                self@ == (RewriteState {
                    wrap_triggered: old(self)@.wrap_triggered || has_initializer(
                        view_seq(old(decls)@).take(i as int),
                    ),
                    ..old(self)@
                }),
                forall|j: int|
                    0 <= j < i ==> (#[trigger] decls@[j])@ == wrap_declarator(
                        old(self)@.config,
                        old(decls)@[j]@,
                    ),
                forall|j: int| i <= j < n ==> decls@[j] == old(decls)@[j],
            decreases n - i,
        {
            let ghost before = view_seq(old(decls)@).take(i as int);
            let ghost after = view_seq(old(decls)@).take(i + 1);
            let decl = &mut decls[i];
            match decl.init.take() {
                Some(init) => {
                    self.mockify_used = true;
                    decl.init = Some(wrap_with_mockify(decl.span, init, &self.config));
                    assert(after[i as int].init is Some);
                },
                None => {
                    assert(has_initializer(after) ==> has_initializer(before)) by {
                        if has_initializer(after) {
                            let k = choose|k: int|
                                0 <= k < after.len() && (#[trigger] after[k]).init is Some;
                            assert(before[k].init is Some);
                        }
                    }
                },
            }
            assert(has_initializer(before) ==> has_initializer(after)) by {
                if has_initializer(before) {
                    let k = choose|k: int|
                        0 <= k < before.len() && (#[trigger] before[k]).init is Some;
                    assert(after[k].init is Some);
                }
            }
            i += 1;
        }
        assert(view_seq(old(decls)@).take(n as int) =~= view_seq(old(decls)@));
        assert(view_seq(decls@) =~= wrap_declarators(old(self)@.config, view_seq(old(decls)@)));
    }

    /// Rewrites one top-level item: an exported `const` or function
    /// declaration here, every other export by its own rule; an expression
    /// statement is tested for the directive.
    pub fn visit_mut_module_item(&mut self, item: &mut ModuleItem)
        requires
            old(self).wf(),
        ensures
            final(self).wf(),
            final(self)@ == step_module_item(old(self)@, old(item)@).0,
            final(item)@ == step_module_item(old(self)@, old(item)@).1,
    {
        if self.do_not_mockify {
            return ;
        }
        match item {
            ModuleItem::ModuleDecl(ModuleDecl::ExportDecl { span, decl }) => {
                let export_span = *span;
                match decl {
                    Decl::Var { span, kind: VarDeclKind::Const, declare, decls } => {
                        self.wrap_initializers(decls);
                    },
                    Decl::Fn { ident, declare, function } => {
                        self.mockify_used = true;
                        let mockified_ident = Ident::new(mockified_name(&ident.sym), ident.span);

                        // The declaration itself, without its `export`.
                        let declaration = ModuleItem::Stmt(
                            Stmt::Decl(
                                Decl::Fn {
                                    ident: ident.clone(),
                                    declare: *declare,
                                    function: *function,
                                },
                            ),
                        );

                        // The wrapped binding.
                        let mockified_fn = wrap_with_mockify(
                            function.span,
                            Expr::Ident(ident.clone()),
                            &self.config,
                        );
                        let function_declaration_const = const_declaration(
                            function.span,
                            mockified_ident.clone(),
                            mockified_fn,
                        );

                        // The export of the wrapped binding under the function's name.
                        let specifiers = vec![
                            ExportSpecifier::Named {
                                span: Span::dummy(),
                                orig: ModuleExportName::Ident(mockified_ident),
                                exported: Some(ModuleExportName::Ident(ident.clone())),
                                is_type_only: false,
                            },
                        ];
                        let mockified_export = ModuleItem::ModuleDecl(
                            ModuleDecl::ExportNamed {
                                span: export_span,
                                specifiers,
                                src: None,
                                type_only: false,
                                with: None,
                            },
                        );
                        proof {
                            assert(view_seq(specifiers@) =~= seq![specifiers@[0]@]);
                            assert(view_seq(self.added_to_top_of_file@.push(declaration))
                                =~= view_seq(self.added_to_top_of_file@).push(declaration@));
                            assert(view_seq(
                                self.added_to_bottom_of_file@.push(function_declaration_const),
                            ) =~= view_seq(self.added_to_bottom_of_file@).push(
                                function_declaration_const@,
                            ));
                        }
                        self.added_to_top_of_file.push(declaration);
                        self.added_to_bottom_of_file.push(function_declaration_const);
                        assert(self@.registry == old(self)@.registry);
                        *item = mockified_export;
                    },
                    _ => {},
                }
            },
            ModuleItem::ModuleDecl(decl) => {
                self.visit_mut_module_decl(decl);
            },
            ModuleItem::Stmt(Stmt::Expr(stmt)) => {
                self.visit_mut_expr_stmt(stmt);
            },
            ModuleItem::Stmt(_) => {},
        }
    }

    /// Rewrites a module: walks its top-level items in order, then, unless
    /// the pass was switched off or nothing was wrapped, puts the import of
    /// the wrapper and the queued items around the body.
    pub fn visit_mut_module(&mut self, m: &mut Module)
        requires
            old(self).wf(),
        ensures
            final(self).wf(),
            final(self)@ == drained(walk(old(self)@, old(m)@.body).0),
            final(m)@.body == rewrite_body(old(self)@, old(m)@.body),
    {
        let ghost items = old(m)@.body;
        let n = m.body.len();
        let mut i: usize = 0;
        assert(items.take(0) =~= Seq::empty());
        assert(view_seq(m.body@).take(0) =~= Seq::empty());
        while i < n
            invariant
                n == m.body@.len(),
                n == items.len(),
                i <= n,
                items == old(m)@.body,
                self.wf(),
                self@ == walk(old(self)@, items.take(i as int)).0,
                view_seq(m.body@).take(i as int) == walk(old(self)@, items.take(i as int)).1,
                forall|j: int| i <= j < n ==> (#[trigger] m.body@[j])@ == items[j],
            decreases n - i,
        {
            let ghost done = view_seq(m.body@).take(i as int);
            assert(items.take(i + 1).drop_last() =~= items.take(i as int));
            assert(items.take(i + 1).last() == items[i as int]);
            self.visit_mut_module_item(&mut m.body[i]);
            assert(view_seq(m.body@).take(i + 1) =~= done.push(m.body@[i as int]@));
            i += 1;
        }
        assert(items.take(n as int) =~= items);
        assert(view_seq(m.body@).take(n as int) =~= view_seq(m.body@));

        if self.do_not_mockify {
            return ;
        }
        if !self.mockify_used {
            return ;
        }
        let specifiers = vec![
            ImportSpecifier::Named {
                span: Span::dummy(),
                local: Ident::new(self.config.import_as.clone(), Span::dummy()),
                imported: Some(
                    ModuleExportName::Ident(
                        Ident::new(self.config.export_name.clone(), Span::dummy()),
                    ),
                ),
                is_type_only: false,
            },
        ];
        let mockify_import = ModuleItem::ModuleDecl(
            ModuleDecl::Import {
                span: Span::dummy(),
                specifiers,
                src: StrLit {
                    span: Span::dummy(),
                    value: self.config.import_from.clone(),
                    raw: None,
                },
                type_only: false,
                with: None,
            },
        );
        assert(mockify_import@ == wrapper_import(self@.config)) by {
            assert(view_seq(specifiers@) =~= seq![specifiers@[0]@]);
        }

        // The import comes first, then the queued declarations, the body and
        // the queued bindings.
        let ghost prepend = self.added_to_top_of_file@;
        let ghost body = m.body@;
        let ghost append = self.added_to_bottom_of_file@;
        let mut new_body: Vec<ModuleItem> = vec![mockify_import];
        new_body.append(&mut self.added_to_top_of_file);
        new_body.append(&mut m.body);
        new_body.append(&mut self.added_to_bottom_of_file);
        assert(view_seq(new_body@) =~= seq![mockify_import@] + view_seq(prepend) + view_seq(body)
            + view_seq(append));
        assert(view_seq(self.added_to_top_of_file@) =~= Seq::empty());
        assert(view_seq(self.added_to_bottom_of_file@) =~= Seq::empty());
        m.body = new_body;
    }

    /// The wrapper in use.
    pub fn config(&self) -> (config: &Config)
        ensures
            config@ == self@.config,
    {
        &self.config
    }

    /// Whether any export has been wrapped.
    pub fn mockify_used(&self) -> (used: bool)
        ensures
            used == self@.wrap_triggered,
    {
        self.mockify_used
    }

    /// Whether the directive has switched the pass off.
    pub fn do_not_mockify(&self) -> (off: bool)
        ensures
            off == self@.disabled,
    {
        self.do_not_mockify
    }

    /// The items queued to stand in front of the body.
    pub fn added_to_top_of_file(&self) -> (items: &Vec<ModuleItem>)
        ensures
            view_seq(items@) == self@.prepend,
    {
        &self.added_to_top_of_file
    }

    /// The items queued to stand behind the body.
    pub fn added_to_bottom_of_file(&self) -> (items: &Vec<ModuleItem>)
        ensures
            view_seq(items@) == self@.append,
    {
        &self.added_to_bottom_of_file
    }

    /// The name of the wrapped binding of `sym`, if it has one.
    pub fn mockified_identifier(&self, sym: &String) -> (name: Option<String>)
        requires
            self.wf(),
        ensures
            name is Some <==> self@.registry.dom().contains(sym@),
            name matches Some(bound) ==> bound@ == self@.registry[sym@],
    {
        let n = self.mockified_identifiers.len();
        let mut i: usize = 0;
        while i < n
            invariant
                n == self.mockified_identifiers@.len(),
                i <= n,
                self.wf(),
                forall|j: int| 0 <= j < i ==> (#[trigger] self.mockified_identifiers@[j]).0@ != sym@,
            decreases n - i,
        {
            if self.mockified_identifiers[i].0 == *sym {
                proof {
                    lemma_registry_value(self.mockified_identifiers@, i as int);
                }
                return Some(self.mockified_identifiers[i].1.clone());
            }
            i += 1;
        }
        proof {
            lemma_registry_domain(self.mockified_identifiers@, sym@);
        }
        None
    }

    /// Whether `sym` has a wrapped binding already.
    fn is_registered(&self, sym: &String) -> (found: bool)
        ensures
            found == self@.registry.dom().contains(sym@),
    {
        let n = self.mockified_identifiers.len();
        let mut i: usize = 0;
        while i < n
            invariant
                n == self.mockified_identifiers@.len(),
                i <= n,
                forall|j: int| 0 <= j < i ==> (#[trigger] self.mockified_identifiers@[j]).0@ != sym@,
            decreases n - i,
        {
            if self.mockified_identifiers[i].0 == *sym {
                proof {
                    lemma_registry_domain(self.mockified_identifiers@, sym@);
                }
                return true;
            }
            i += 1;
        }
        proof {
            lemma_registry_domain(self.mockified_identifiers@, sym@);
        }
        false
    }
}

} // verus!
