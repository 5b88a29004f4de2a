//! The syntax tree of a module, as far as the export wrapping reads it.
//!
//! Names, position tags and the shapes of exports are held as plain values.
//! Whatever the pass only carries along (function bodies, class bodies,
//! arbitrary expressions and statements) is held as a `u64` handle that the
//! caller resolves against its own tree.
//!
//! Every node type has a view, its mathematical value, in which a `String`
//! is a `Seq<char>` and a `Vec` is a `Seq`. All contracts of this crate are
//! stated over views.

use vstd::prelude::*;

verus! {

/// A position tag: a byte range of the source text and a hygiene mark.
#[derive(Clone, Copy, Debug, PartialEq, Eq, Hash, Structural)]
pub struct Span {
    pub lo: u32,
    pub hi: u32,
    pub ctxt: u32,
}

/// The tag of a node that has no place in the source text.
pub open spec fn dummy_span() -> Span {
    Span { lo: 0, hi: 0, ctxt: 0 }
}

impl Span {
    /// Returns the tag of a synthesized node.
    pub fn dummy() -> (s: Span)
        ensures
            s == dummy_span(),
    {
        Span { lo: 0, hi: 0, ctxt: 0 }
    }
}

/// The views of the items of a sequence, in order.
pub open spec fn view_seq<T: View>(s: Seq<T>) -> Seq<T::V> {
    Seq::new(s.len(), |i: int| s[i]@)
}

/// The view of an optional value.
pub open spec fn view_opt<T: View>(o: Option<T>) -> Option<T::V> {
    match o {
        Some(t) => Some(t@),
        None => None,
    }
}

/// An identifier.
#[derive(Debug, PartialEq, Eq)]
pub struct Ident {
    pub span: Span,
    pub sym: String,
    pub optional: bool,
}

pub struct IdentView {
    pub span: Span,
    pub sym: Seq<char>,
    pub optional: bool,
}

impl View for Ident {
    type V = IdentView;

    open spec fn view(&self) -> IdentView {
        IdentView { span: self.span, sym: self.sym@, optional: self.optional }
    }
}

impl Clone for Ident {
    fn clone(&self) -> (r: Ident)
        ensures
            r@ == self@,
    {
        Ident { span: self.span, sym: self.sym.clone(), optional: self.optional }
    }
}

/// The view of the identifier that `Ident::new` builds.
pub open spec fn ident_view(sym: Seq<char>, span: Span) -> IdentView {
    IdentView { span, sym, optional: false }
}

impl Ident {
    /// An identifier that is not marked optional.
    pub fn new(sym: String, span: Span) -> (r: Ident)
        ensures
            r@ == ident_view(sym@, span),
    {
        Ident { span, sym, optional: false }
    }
}

/// A string literal: its value and, where it was read from source text, the
/// text as it was written.
#[derive(Debug, PartialEq, Eq)]
pub struct StrLit {
    pub span: Span,
    pub value: String,
    pub raw: Option<String>,
}

pub struct StrLitView {
    pub span: Span,
    pub value: Seq<char>,
    pub raw: Option<Seq<char>>,
}

impl View for StrLit {
    type V = StrLitView;

    open spec fn view(&self) -> StrLitView {
        StrLitView { span: self.span, value: self.value@, raw: view_opt(self.raw) }
    }
}

impl Clone for StrLit {
    fn clone(&self) -> (r: StrLit)
        ensures
            r@ == self@,
    {
        let raw = match &self.raw {
            Some(text) => Some(text.clone()),
            None => None,
        };
        StrLit { span: self.span, value: self.value.clone(), raw }
    }
}

/// A name on either side of `as` in an import or export specifier.
#[derive(Debug, PartialEq, Eq)]
pub enum ModuleExportName {
    Ident(Ident),
    Str(StrLit),
}

pub enum ModuleExportNameView {
    Ident(IdentView),
    Str(StrLitView),
}

impl View for ModuleExportName {
    type V = ModuleExportNameView;

    open spec fn view(&self) -> ModuleExportNameView {
        match self {
            ModuleExportName::Ident(id) => ModuleExportNameView::Ident(id@),
            ModuleExportName::Str(s) => ModuleExportNameView::Str(s@),
        }
    }
}

impl Clone for ModuleExportName {
    fn clone(&self) -> (r: ModuleExportName)
        ensures
            r@ == self@,
    {
        match self {
            ModuleExportName::Ident(id) => ModuleExportName::Ident(id.clone()),
            ModuleExportName::Str(s) => ModuleExportName::Str(s.clone()),
        }
    }
}

/// What a function is besides its name: its position and its body.
#[derive(Clone, Copy, Debug, PartialEq, Eq, Structural)]
pub struct Function {
    pub span: Span,
    pub node: u64,
}

/// What a class is besides its name: its position and its body.
#[derive(Clone, Copy, Debug, PartialEq, Eq, Structural)]
pub struct Class {
    pub span: Span,
    pub node: u64,
}

/// An expression.
#[derive(Debug, PartialEq, Eq)]
pub enum Expr {
    /// A reference to a binding.
    Ident(Ident),
    /// A string literal.
    Str(StrLit),
    /// A call of a named function with one argument.
    Call { span: Span, callee: Ident, arg: Box<Expr> },
    /// A function expression.
    Fn { ident: Option<Ident>, function: Function },
    /// A class expression.
    Class { ident: Option<Ident>, class: Class },
    /// Any other expression.
    Other(u64),
}

pub enum ExprView {
    Ident(IdentView),
    Str(StrLitView),
    Call { span: Span, callee: IdentView, arg: Box<ExprView> },
    Fn { ident: Option<IdentView>, function: Function },
    Class { ident: Option<IdentView>, class: Class },
    Other(u64),
}

impl View for Expr {
    type V = ExprView;

    open spec fn view(&self) -> ExprView
        decreases self,
    {
        match self {
            Expr::Ident(id) => ExprView::Ident(id@),
            Expr::Str(s) => ExprView::Str(s@),
            Expr::Call { span, callee, arg } => ExprView::Call {
                span: *span,
                callee: callee@,
                arg: Box::new((**arg)@),
            },
            Expr::Fn { ident, function } => ExprView::Fn {
                ident: view_opt(*ident),
                function: *function,
            },
            Expr::Class { ident, class } => ExprView::Class {
                ident: view_opt(*ident),
                class: *class,
            },
            Expr::Other(node) => ExprView::Other(*node),
        }
    }
}

/// A copy of an optional identifier.
fn clone_opt_ident(ident: &Option<Ident>) -> (r: Option<Ident>)
    ensures
        view_opt(r) == view_opt(*ident),
{
    match ident {
        Some(id) => Some(id.clone()),
        None => None,
    }
}

impl Clone for Expr {
    fn clone(&self) -> (r: Expr)
        ensures
            r@ == self@,
        decreases self,
    {
        match self {
            Expr::Ident(id) => Expr::Ident(id.clone()),
            Expr::Str(s) => Expr::Str(s.clone()),
            Expr::Call { span, callee, arg } => {
                let inner: Expr = (**arg).clone();
                Expr::Call { span: *span, callee: callee.clone(), arg: Box::new(inner) }
            },
            Expr::Fn { ident, function } => Expr::Fn {
                ident: clone_opt_ident(ident),
                function: *function,
            },
            Expr::Class { ident, class } => Expr::Class {
                ident: clone_opt_ident(ident),
                class: *class,
            },
            Expr::Other(node) => Expr::Other(*node),
        }
    }
}

/// The left-hand side of a variable declarator.
#[derive(Clone, Debug, PartialEq, Eq)]
pub enum Pat {
    /// A plain binding name without a type annotation.
    Ident(Ident),
    /// Any other pattern.
    Other(u64),
}

pub enum PatView {
    Ident(IdentView),
    Other(u64),
}

impl View for Pat {
    type V = PatView;

    open spec fn view(&self) -> PatView {
        match self {
            Pat::Ident(id) => PatView::Ident(id@),
            Pat::Other(node) => PatView::Other(*node),
        }
    }
}

/// One `name = init` of a variable declaration.
#[derive(Clone, Debug, PartialEq, Eq)]
pub struct VarDeclarator {
    pub span: Span,
    pub name: Pat,
    pub init: Option<Expr>,
    pub definite: bool,
}

pub struct VarDeclaratorView {
    pub span: Span,
    pub name: PatView,
    pub init: Option<ExprView>,
    pub definite: bool,
}

impl View for VarDeclarator {
    type V = VarDeclaratorView;

    open spec fn view(&self) -> VarDeclaratorView {
        VarDeclaratorView {
            span: self.span,
            name: self.name@,
            init: view_opt(self.init),
            definite: self.definite,
        }
    }
}

/// The keyword of a variable declaration.
#[derive(Clone, Copy, Debug, PartialEq, Eq, Structural)]
pub enum VarDeclKind {
    Var,
    Let,
    Const,
}

/// A declaration.
#[derive(Clone, Debug, PartialEq, Eq)]
pub enum Decl {
    Var { span: Span, kind: VarDeclKind, declare: bool, decls: Vec<VarDeclarator> },
    Fn { ident: Ident, declare: bool, function: Function },
    Class { ident: Ident, declare: bool, class: Class },
    /// Any other declaration.
    Other(u64),
}

pub enum DeclView {
    Var { span: Span, kind: VarDeclKind, declare: bool, decls: Seq<VarDeclaratorView> },
    Fn { ident: IdentView, declare: bool, function: Function },
    Class { ident: IdentView, declare: bool, class: Class },
    Other(u64),
}

impl View for Decl {
    type V = DeclView;

    open spec fn view(&self) -> DeclView {
        match self {
            Decl::Var { span, kind, declare, decls } => DeclView::Var {
                span: *span,
                kind: *kind,
                declare: *declare,
                decls: view_seq(decls@),
            },
            Decl::Fn { ident, declare, function } => DeclView::Fn {
                ident: ident@,
                declare: *declare,
                function: *function,
            },
            Decl::Class { ident, declare, class } => DeclView::Class {
                ident: ident@,
                declare: *declare,
                class: *class,
            },
            Decl::Other(node) => DeclView::Other(*node),
        }
    }
}

/// A statement that consists of one expression.
#[derive(Clone, Debug, PartialEq, Eq)]
pub struct ExprStmt {
    pub span: Span,
    pub expr: Expr,
}

pub struct ExprStmtView {
    pub span: Span,
    pub expr: ExprView,
}

impl View for ExprStmt {
    type V = ExprStmtView;

    open spec fn view(&self) -> ExprStmtView {
        ExprStmtView { span: self.span, expr: self.expr@ }
    }
}

/// A statement.
#[derive(Clone, Debug, PartialEq, Eq)]
pub enum Stmt {
    Expr(ExprStmt),
    Decl(Decl),
    /// Any other statement.
    Other(u64),
}

pub enum StmtView {
    Expr(ExprStmtView),
    Decl(DeclView),
    Other(u64),
}

impl View for Stmt {
    type V = StmtView;

    open spec fn view(&self) -> StmtView {
        match self {
            Stmt::Expr(e) => StmtView::Expr(e@),
            Stmt::Decl(d) => StmtView::Decl(d@),
            Stmt::Other(node) => StmtView::Other(*node),
        }
    }
}

/// One entry of an export list.
#[derive(Clone, Debug, PartialEq, Eq)]
pub enum ExportSpecifier {
    /// `orig` or `orig as exported`.
    Named { span: Span, orig: ModuleExportName, exported: Option<ModuleExportName>, is_type_only: bool },
    /// A namespace or default specifier.
    Other(u64),
}

pub enum ExportSpecifierView {
    Named {
        span: Span,
        orig: ModuleExportNameView,
        exported: Option<ModuleExportNameView>,
        is_type_only: bool,
    },
    Other(u64),
}

impl View for ExportSpecifier {
    type V = ExportSpecifierView;

    open spec fn view(&self) -> ExportSpecifierView {
        match self {
            ExportSpecifier::Named { span, orig, exported, is_type_only } => {
                ExportSpecifierView::Named {
                    span: *span,
                    orig: orig@,
                    exported: view_opt(*exported),
                    is_type_only: *is_type_only,
                }
            },
            ExportSpecifier::Other(node) => ExportSpecifierView::Other(*node),
        }
    }
}

/// One entry of an import list.
#[derive(Clone, Debug, PartialEq, Eq)]
pub enum ImportSpecifier {
    /// `local` or `imported as local`.
    Named { span: Span, local: Ident, imported: Option<ModuleExportName>, is_type_only: bool },
    /// A default or namespace specifier.
    Other(u64),
}

pub enum ImportSpecifierView {
    Named {
        span: Span,
        local: IdentView,
        imported: Option<ModuleExportNameView>,
        is_type_only: bool,
    },
    Other(u64),
}

impl View for ImportSpecifier {
    type V = ImportSpecifierView;

    open spec fn view(&self) -> ImportSpecifierView {
        match self {
            ImportSpecifier::Named { span, local, imported, is_type_only } => {
                ImportSpecifierView::Named {
                    span: *span,
                    local: local@,
                    imported: view_opt(*imported),
                    is_type_only: *is_type_only,
                }
            },
            ImportSpecifier::Other(node) => ImportSpecifierView::Other(*node),
        }
    }
}

/// The declaration behind `export default`.
#[derive(Clone, Debug, PartialEq, Eq)]
pub enum DefaultDecl {
    Fn { ident: Option<Ident>, function: Function },
    Class { ident: Option<Ident>, class: Class },
    /// Any other declaration.
    Other(u64),
}

pub enum DefaultDeclView {
    Fn { ident: Option<IdentView>, function: Function },
    Class { ident: Option<IdentView>, class: Class },
    Other(u64),
}

impl View for DefaultDecl {
    type V = DefaultDeclView;

    open spec fn view(&self) -> DefaultDeclView {
        match self {
            DefaultDecl::Fn { ident, function } => DefaultDeclView::Fn {
                ident: view_opt(*ident),
                function: *function,
            },
            DefaultDecl::Class { ident, class } => DefaultDeclView::Class {
                ident: view_opt(*ident),
                class: *class,
            },
            DefaultDecl::Other(node) => DefaultDeclView::Other(*node),
        }
    }
}

/// An import or export declaration.
#[derive(Clone, Debug, PartialEq, Eq)]
pub enum ModuleDecl {
    /// `import { .. } from src`.
    Import {
        span: Span,
        specifiers: Vec<ImportSpecifier>,
        src: StrLit,
        type_only: bool,
        with: Option<u64>,
    },
    /// `export` in front of a declaration.
    ExportDecl { span: Span, decl: Decl },
    /// `export { .. }`, with `from src` where `src` is present.
    ExportNamed {
        span: Span,
        specifiers: Vec<ExportSpecifier>,
        src: Option<StrLit>,
        type_only: bool,
        with: Option<u64>,
    },
    /// `export default` in front of a function or class declaration.
    ExportDefaultDecl { span: Span, decl: DefaultDecl },
    /// `export default` in front of an expression.
    ExportDefaultExpr { span: Span, expr: Expr },
    /// Any other module declaration.
    Other(u64),
}

pub enum ModuleDeclView {
    Import {
        span: Span,
        specifiers: Seq<ImportSpecifierView>,
        src: StrLitView,
        type_only: bool,
        with: Option<u64>,
    },
    ExportDecl { span: Span, decl: DeclView },
    ExportNamed {
        span: Span,
        specifiers: Seq<ExportSpecifierView>,
        src: Option<StrLitView>,
        type_only: bool,
        with: Option<u64>,
    },
    ExportDefaultDecl { span: Span, decl: DefaultDeclView },
    ExportDefaultExpr { span: Span, expr: ExprView },
    Other(u64),
}

impl View for ModuleDecl {
    type V = ModuleDeclView;

    open spec fn view(&self) -> ModuleDeclView {
        match self {
            ModuleDecl::Import { span, specifiers, src, type_only, with } => {
                ModuleDeclView::Import {
                    span: *span,
                    specifiers: view_seq(specifiers@),
                    src: src@,
                    type_only: *type_only,
                    with: *with,
                }
            },
            ModuleDecl::ExportDecl { span, decl } => ModuleDeclView::ExportDecl {
                span: *span,
                decl: decl@,
            },
            ModuleDecl::ExportNamed { span, specifiers, src, type_only, with } => {
                ModuleDeclView::ExportNamed {
                    span: *span,
                    specifiers: view_seq(specifiers@),
                    src: view_opt(*src),
                    type_only: *type_only,
                    with: *with,
                }
            },
            ModuleDecl::ExportDefaultDecl { span, decl } => ModuleDeclView::ExportDefaultDecl {
                span: *span,
                decl: decl@,
            },
            ModuleDecl::ExportDefaultExpr { span, expr } => ModuleDeclView::ExportDefaultExpr {
                span: *span,
                expr: expr@,
            },
            ModuleDecl::Other(node) => ModuleDeclView::Other(*node),
        }
    }
}

/// A top-level item of a module.
#[derive(Clone, Debug, PartialEq, Eq)]
pub enum ModuleItem {
    ModuleDecl(ModuleDecl),
    Stmt(Stmt),
}

pub enum ModuleItemView {
    ModuleDecl(ModuleDeclView),
    Stmt(StmtView),
}

impl View for ModuleItem {
    type V = ModuleItemView;

    open spec fn view(&self) -> ModuleItemView {
        match self {
            ModuleItem::ModuleDecl(d) => ModuleItemView::ModuleDecl(d@),
            ModuleItem::Stmt(s) => ModuleItemView::Stmt(s@),
        }
    }
}

/// A module: its top-level items in source order.
#[derive(Clone, Debug, PartialEq, Eq)]
pub struct Module {
    pub body: Vec<ModuleItem>,
}

pub struct ModuleView {
    pub body: Seq<ModuleItemView>,
}

impl View for Module {
    type V = ModuleView;

    open spec fn view(&self) -> ModuleView {
        ModuleView { body: view_seq(self.body@) }
    }
}

} // verus!
