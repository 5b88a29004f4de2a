//! The wrapping of exports as mathematics: what each shape of top-level item
//! becomes, what it adds to the state of the pass, and how the module body is
//! put together afterwards.
//!
//! The pass walks the top-level items of a module once, in order. An item is
//! either changed in place or left alone; some items also queue synthesized
//! items to be placed in front of the body or behind it. When the walk is over
//! the queues are spliced in, and the import of the wrapper is put first.

use crate::ast::{
    dummy_span, ident_view, Class, DeclView, DefaultDeclView, ExportSpecifierView, ExprStmtView,
    ExprView, Function, IdentView, ImportSpecifierView, ModuleDeclView, ModuleExportNameView,
    ModuleItemView, PatView, Span, StmtView, StrLitView, VarDeclKind, VarDeclaratorView,
};
use crate::config::ConfigView;
use vstd::prelude::*;

verus! {

/// The state of the pass while it walks one module.
pub struct RewriteState {
    /// The wrapper in use.
    pub config: ConfigView,
    /// Whether any export has been wrapped so far.
    pub wrap_triggered: bool,
    /// Whether the directive that switches the pass off has been seen.
    pub disabled: bool,
    /// The items to place in front of the body, first to last.
    pub prepend: Seq<ModuleItemView>,
    /// The items to place behind the body, first to last.
    pub append: Seq<ModuleItemView>,
    /// The local names that have a wrapped binding, each with that binding's name.
    pub registry: Map<Seq<char>, Seq<char>>,
}

/// The state in which the walk of a module starts.
pub open spec fn fresh_state(config: ConfigView) -> RewriteState {
    RewriteState {
        config,
        wrap_triggered: false,
        disabled: false,
        prepend: Seq::empty(),
        append: Seq::empty(),
        registry: Map::empty(),
    }
}

impl RewriteState {
    /// What holds of every state that the pass reaches from a fresh one:
    /// nothing is queued or registered unless a wrap has occurred, and every
    /// registered name is bound to its wrapped name.
    pub open spec fn valid(self) -> bool {
        &&& self.prepend.len() > 0 || self.append.len() > 0 ==> self.wrap_triggered
        &&& forall|name: Seq<char>| #[trigger]
            self.registry.dom().contains(name) ==> self.wrap_triggered && self.registry[name]
                == wrapped_name(name)
    }
}

/// The text of the directive that switches the pass off.
pub open spec fn sentinel() -> Seq<char> {
    "__do_not_mockify__"@
}

/// The name of the binding that holds the wrapped value of `name`.
pub open spec fn wrapped_name(name: Seq<char>) -> Seq<char> {
    "_mockified_"@ + name
}

/// The call of the wrapper on `expr`, tagged with `span`.
pub open spec fn wrapper_call(config: ConfigView, span: Span, expr: ExprView) -> ExprView {
    ExprView::Call {
        span,
        callee: ident_view(config.import_as, dummy_span()),
        arg: Box::new(expr),
    }
}

/// The import that binds the wrapper to its local name.
pub open spec fn wrapper_import(config: ConfigView) -> ModuleItemView {
    ModuleItemView::ModuleDecl(
        ModuleDeclView::Import {
            span: dummy_span(),
            specifiers: seq![
                ImportSpecifierView::Named {
                    span: dummy_span(),
                    local: ident_view(config.import_as, dummy_span()),
                    imported: Some(
                        ModuleExportNameView::Ident(ident_view(config.export_name, dummy_span())),
                    ),
                    is_type_only: false,
                },
            ],
            src: StrLitView { span: dummy_span(), value: config.import_from, raw: None },
            type_only: false,
            with: None,
        },
    )
}

/// Whether a statement is the directive: a bare string literal with the
/// sentinel as its value.
pub open spec fn is_directive(stmt: ExprStmtView) -> bool {
    match stmt.expr {
        ExprView::Str(lit) => lit.value == sentinel(),
        _ => false,
    }
}

/// The state after an expression statement has been looked at.
pub open spec fn scan_expr_stmt(state: RewriteState, stmt: ExprStmtView) -> RewriteState {
    if is_directive(stmt) {
        RewriteState { disabled: true, ..state }
    } else {
        state
    }
}

/// A declarator with its initializer, where it has one, passed to the wrapper.
pub open spec fn wrap_declarator(config: ConfigView, decl: VarDeclaratorView) -> VarDeclaratorView {
    match decl.init {
        Some(init) => VarDeclaratorView {
            init: Some(wrapper_call(config, decl.span, init)),
            ..decl
        },
        None => decl,
    }
}

/// Every declarator of a list wrapped.
pub open spec fn wrap_declarators(config: ConfigView, decls: Seq<VarDeclaratorView>) -> Seq<
    VarDeclaratorView,
> {
    Seq::new(decls.len(), |i: int| wrap_declarator(config, decls[i]))
}

/// Whether some declarator of a list has an initializer.
pub open spec fn has_initializer(decls: Seq<VarDeclaratorView>) -> bool {
    exists|i: int| 0 <= i < decls.len() && (#[trigger] decls[i]).init is Some
}

/// The declaration `const name = init` as a statement.
pub open spec fn const_item(span: Span, name: IdentView, init: ExprView) -> ModuleItemView {
    ModuleItemView::Stmt(
        StmtView::Decl(
            DeclView::Var {
                span,
                kind: VarDeclKind::Const,
                declare: false,
                decls: seq![
                    VarDeclaratorView {
                        span,
                        name: PatView::Ident(name),
                        init: Some(init),
                        definite: false,
                    },
                ],
            },
        ),
    )
}

/// The export list with the single entry `orig as exported`.
pub open spec fn reexport_item(span: Span, orig: IdentView, exported: IdentView) -> ModuleItemView {
    ModuleItemView::ModuleDecl(
        ModuleDeclView::ExportNamed {
            span,
            specifiers: seq![
                ExportSpecifierView::Named {
                    span: dummy_span(),
                    orig: ModuleExportNameView::Ident(orig),
                    exported: Some(ModuleExportNameView::Ident(exported)),
                    is_type_only: false,
                },
            ],
            src: None,
            type_only: false,
            with: None,
        },
    )
}

/// An exported function declaration without its `export`.
pub open spec fn hoisted_fn(ident: IdentView, declare: bool, function: Function) -> ModuleItemView {
    ModuleItemView::Stmt(StmtView::Decl(DeclView::Fn { ident, declare, function }))
}

/// A default-exported class declaration without its `export default`.
pub open spec fn hoisted_class(ident: IdentView, class: Class) -> ModuleItemView {
    ModuleItemView::Stmt(StmtView::Decl(DeclView::Class { ident, declare: false, class }))
}

/// The identifier of the wrapped binding of the function `ident`.
pub open spec fn wrapped_fn_ident(ident: IdentView) -> IdentView {
    ident_view(wrapped_name(ident.sym), ident.span)
}

/// The declaration that binds the wrapped value of an exported function.
pub open spec fn wrapped_fn_const(config: ConfigView, ident: IdentView, function: Function)
    -> ModuleItemView {
    const_item(
        function.span,
        wrapped_fn_ident(ident),
        wrapper_call(config, function.span, ExprView::Ident(ident)),
    )
}

/// The export that stands where an exported function declaration stood.
pub open spec fn fn_reexport(span: Span, ident: IdentView) -> ModuleItemView {
    reexport_item(span, wrapped_fn_ident(ident), ident)
}

/// The name that an export specifier refers to.
pub open spec fn export_name_sym(name: ModuleExportNameView) -> Seq<char> {
    match name {
        ModuleExportNameView::Ident(ident) => ident.sym,
        ModuleExportNameView::Str(lit) => lit.value,
    }
}

/// The identifier of the wrapped binding of the local name `sym`.
pub open spec fn alias_ident(sym: Seq<char>) -> IdentView {
    ident_view(wrapped_name(sym), dummy_span())
}

/// The declaration that binds the wrapped value of the local name `sym`.
pub open spec fn alias_const(config: ConfigView, sym: Seq<char>) -> ModuleItemView {
    const_item(
        dummy_span(),
        alias_ident(sym),
        wrapper_call(config, dummy_span(), ExprView::Ident(ident_view(sym, dummy_span()))),
    )
}

/// An export specifier pointed at the wrapped binding of its local name, under
/// the name that it was exported as.
pub open spec fn rewrite_specifier(spec: ExportSpecifierView) -> ExportSpecifierView {
    match spec {
        ExportSpecifierView::Named { span, orig, exported, is_type_only } => {
            ExportSpecifierView::Named {
                span: dummy_span(),
                orig: ModuleExportNameView::Ident(alias_ident(export_name_sym(orig))),
                exported: Some(
                    match exported {
                        Some(name) => name,
                        None => orig,
                    },
                ),
                is_type_only: false,
            }
        },
        ExportSpecifierView::Other(node) => spec,
    }
}

/// Every specifier of an export list rewritten.
pub open spec fn rewrite_specifiers(specs: Seq<ExportSpecifierView>) -> Seq<ExportSpecifierView> {
    Seq::new(specs.len(), |i: int| rewrite_specifier(specs[i]))
}

/// The state after the local name `sym` has been given a wrapped binding.
pub open spec fn register_name(state: RewriteState, sym: Seq<char>) -> RewriteState {
    if state.registry.dom().contains(sym) {
        state
    } else {
        RewriteState {
            wrap_triggered: true,
            append: state.append.push(alias_const(state.config, sym)),
            registry: state.registry.insert(sym, wrapped_name(sym)),
            ..state
        }
    }
}

/// The state after one export specifier has been looked at.
pub open spec fn register_specifier(state: RewriteState, spec: ExportSpecifierView)
    -> RewriteState {
    match spec {
        ExportSpecifierView::Named { orig, .. } => register_name(state, export_name_sym(orig)),
        ExportSpecifierView::Other(_) => state,
    }
}

/// The state after the specifiers of an export list have been looked at, first
/// to last.
pub open spec fn register_specifiers(state: RewriteState, specs: Seq<ExportSpecifierView>)
    -> RewriteState
    decreases specs.len(),
{
    if specs.len() == 0 {
        state
    } else {
        register_specifier(register_specifiers(state, specs.drop_last()), specs.last())
    }
}

/// What the pass makes of a module declaration, and the state afterwards.
///
/// An export list without a source has every specifier pointed at a wrapped
/// binding. A default-exported expression is passed to the wrapper. A
/// default-exported function or class without a name becomes such an
/// expression; one with a name is declared in front of the body, and its name
/// is passed to the wrapper. Everything else is left alone, and so is every
/// declaration once the pass is switched off.
pub open spec fn step_module_decl(state: RewriteState, decl: ModuleDeclView) -> (
    RewriteState,
    ModuleDeclView,
) {
    if state.disabled {
        (state, decl)
    } else {
        match decl {
            ModuleDeclView::ExportNamed { span, specifiers, src, type_only, with } => {
                if src is Some {
                    (state, decl)
                } else {
                    (
                        register_specifiers(state, specifiers),
                        ModuleDeclView::ExportNamed {
                            span,
                            specifiers: rewrite_specifiers(specifiers),
                            src: None,
                            type_only,
                            with,
                        },
                    )
                }
            },
            ModuleDeclView::ExportDefaultExpr { span, expr } => (
                RewriteState { wrap_triggered: true, ..state },
                ModuleDeclView::ExportDefaultExpr {
                    span,
                    expr: wrapper_call(state.config, span, expr),
                },
            ),
            ModuleDeclView::ExportDefaultDecl { span, decl: DefaultDeclView::Fn { ident, function } } => {
                match ident {
                    None => (
                        RewriteState { wrap_triggered: true, ..state },
                        ModuleDeclView::ExportDefaultExpr {
                            span,
                            expr: wrapper_call(
                                state.config,
                                function.span,
                                ExprView::Fn { ident: None, function },
                            ),
                        },
                    ),
                    Some(name) => (
                        RewriteState {
                            wrap_triggered: true,
                            prepend: state.prepend.push(hoisted_fn(name, false, function)),
                            ..state
                        },
                        ModuleDeclView::ExportDefaultExpr {
                            span,
                            expr: wrapper_call(state.config, dummy_span(), ExprView::Ident(name)),
                        },
                    ),
                }
            },
            ModuleDeclView::ExportDefaultDecl { span, decl: DefaultDeclView::Class { ident, class } } => {
                match ident {
                    None => (
                        RewriteState { wrap_triggered: true, ..state },
                        ModuleDeclView::ExportDefaultExpr {
                            span,
                            expr: wrapper_call(
                                state.config,
                                class.span,
                                ExprView::Class { ident: None, class },
                            ),
                        },
                    ),
                    Some(name) => (
                        RewriteState {
                            wrap_triggered: true,
                            prepend: state.prepend.push(hoisted_class(name, class)),
                            ..state
                        },
                        ModuleDeclView::ExportDefaultExpr {
                            span,
                            expr: wrapper_call(state.config, dummy_span(), ExprView::Ident(name)),
                        },
                    ),
                }
            },
            _ => (state, decl),
        }
    }
}

/// What the pass makes of `export` in front of a declaration, and the state
/// afterwards.
///
/// A `const` declaration has every initializer passed to the wrapper, in
/// place. A function declaration is declared in front of the body without its
/// `export`, its wrapped binding is declared behind the body, and the export
/// of that binding under the function's name takes its place. Every other
/// declaration is left alone.
pub open spec fn step_export_decl(state: RewriteState, span: Span, decl: DeclView) -> (
    RewriteState,
    ModuleItemView,
) {
    match decl {
        DeclView::Var { span: var_span, kind: VarDeclKind::Const, declare, decls } => (
            RewriteState {
                wrap_triggered: state.wrap_triggered || has_initializer(decls),
                ..state
            },
            ModuleItemView::ModuleDecl(
                ModuleDeclView::ExportDecl {
                    span,
                    decl: DeclView::Var {
                        span: var_span,
                        kind: VarDeclKind::Const,
                        declare,
                        decls: wrap_declarators(state.config, decls),
                    },
                },
            ),
        ),
        DeclView::Fn { ident, declare, function } => (
            RewriteState {
                wrap_triggered: true,
                prepend: state.prepend.push(hoisted_fn(ident, declare, function)),
                append: state.append.push(wrapped_fn_const(state.config, ident, function)),
                ..state
            },
            fn_reexport(span, ident),
        ),
        _ => (state, ModuleItemView::ModuleDecl(ModuleDeclView::ExportDecl { span, decl })),
    }
}

/// What the pass makes of a top-level item, and the state afterwards.
///
/// Once the pass is switched off nothing is looked at any more. Until then an
/// expression statement is tested for the directive, an export is rewritten
/// by its shape, and every other item is left alone.
pub open spec fn step_module_item(state: RewriteState, item: ModuleItemView) -> (
    RewriteState,
    ModuleItemView,
) {
    if state.disabled {
        (state, item)
    } else {
        match item {
            ModuleItemView::ModuleDecl(ModuleDeclView::ExportDecl { span, decl }) => {
                step_export_decl(state, span, decl)
            },
            ModuleItemView::ModuleDecl(decl) => {
                let (next, new_decl) = step_module_decl(state, decl);
                (next, ModuleItemView::ModuleDecl(new_decl))
            },
            ModuleItemView::Stmt(StmtView::Expr(stmt)) => (scan_expr_stmt(state, stmt), item),
            ModuleItemView::Stmt(_) => (state, item),
        }
    }
}

/// The walk over the items of a body, first to last: the state afterwards and
/// the body with every item replaced by what the pass made of it.
pub open spec fn walk(state: RewriteState, items: Seq<ModuleItemView>) -> (
    RewriteState,
    Seq<ModuleItemView>,
)
    decreases items.len(),
{
    if items.len() == 0 {
        (state, Seq::empty())
    } else {
        let (before, body) = walk(state, items.drop_last());
        let (after, item) = step_module_item(before, items.last());
        (after, body.push(item))
    }
}

/// Whether the queues are spliced in and the import is added after a walk
/// that ended in `state`.
pub open spec fn splices(state: RewriteState) -> bool {
    !state.disabled && state.wrap_triggered
}

/// The body of the module after a walk that ended in `state` and left `body`:
/// the import of the wrapper, the items queued in front, the body and the
/// items queued behind; or the body alone where nothing is spliced.
pub open spec fn assemble(state: RewriteState, body: Seq<ModuleItemView>) -> Seq<ModuleItemView> {
    if splices(state) {
        seq![wrapper_import(state.config)] + state.prepend + body + state.append
    } else {
        body
    }
}

/// The state after the queues have been spliced in: both are empty.
pub open spec fn drained(state: RewriteState) -> RewriteState {
    if splices(state) {
        RewriteState { prepend: Seq::empty(), append: Seq::empty(), ..state }
    } else {
        state
    }
}

/// The body that the pass makes of the body `items`, from the state `state`.
pub open spec fn rewrite_body(state: RewriteState, items: Seq<ModuleItemView>) -> Seq<
    ModuleItemView,
> {
    let (end, body) = walk(state, items);
    assemble(end, body)
}

/// The body that a fresh pass with the wrapper `config` makes of `items`.
pub open spec fn rewrite_module(config: ConfigView, items: Seq<ModuleItemView>) -> Seq<
    ModuleItemView,
> {
    rewrite_body(fresh_state(config), items)
}

} // verus!
