//! What holds of the pass on every module, proved over the rules.

use crate::ast::{
    DeclView, DefaultDeclView, ExportSpecifierView, ModuleDeclView, ModuleExportNameView,
    ModuleItemView, StmtView, VarDeclKind,
};
use crate::config::ConfigView;
use crate::rules::{
    alias_const, alias_ident, export_name_sym, fresh_state, has_initializer, hoisted_class,
    hoisted_fn, is_directive, register_name, register_specifiers, rewrite_module,
    rewrite_specifiers, splices, step_module_item, walk, wrap_declarator, wrap_declarators,
    wrapped_fn_const, wrapper_import, RewriteState,
};
use vstd::prelude::*;

verus! {

/// How a later state of the pass relates to an earlier one: the wrapper is
/// the same, a flag that was set stays set, the queues have grown at their
/// ends, every registered name is still registered, and a pass that was
/// switched off has not changed at all.
pub open spec fn grows(before: RewriteState, after: RewriteState) -> bool {
    &&& after.config == before.config
    &&& before.wrap_triggered ==> after.wrap_triggered
    &&& before.disabled ==> after == before
    &&& before.prepend.is_prefix_of(after.prepend)
    &&& before.append.is_prefix_of(after.append)
    &&& before.registry.submap_of(after.registry)
}

/// Growth is transitive.
pub proof fn lemma_grows_trans(a: RewriteState, b: RewriteState, c: RewriteState)
    requires
        grows(a, b),
        grows(b, c),
    ensures
        grows(a, c),
{
    assert(a.prepend =~= c.prepend.subrange(0, a.prepend.len() as int)) by {
        assert(b.prepend =~= c.prepend.subrange(0, b.prepend.len() as int));
        assert(a.prepend =~= b.prepend.subrange(0, a.prepend.len() as int));
    }
    assert(a.append =~= c.append.subrange(0, a.append.len() as int)) by {
        assert(b.append =~= c.append.subrange(0, b.append.len() as int));
        assert(a.append =~= b.append.subrange(0, a.append.len() as int));
    }
    assert(a.registry.submap_of(c.registry)) by {
        assert forall|k: Seq<char>| #[trigger] a.registry.dom().contains(k) implies (
        #[trigger] c.registry.dom().contains(k)) && a.registry[k] == c.registry[k] by {
            assert(b.registry.dom().contains(k));
        }
    }
}

/// Registering a name keeps the state valid, only adds to it, and leaves the
/// name registered.
pub proof fn lemma_register_name(state: RewriteState, sym: Seq<char>)
    ensures
        register_name(state, sym).config == state.config,
        register_name(state, sym).disabled == state.disabled,
        register_name(state, sym).prepend == state.prepend,
        state.append.is_prefix_of(register_name(state, sym).append),
        state.registry.submap_of(register_name(state, sym).registry),
        state.wrap_triggered ==> register_name(state, sym).wrap_triggered,
        state.valid() ==> register_name(state, sym).valid(),
        register_name(state, sym).registry.dom().contains(sym),
{
    let after = register_name(state, sym);
    assert(state.append =~= after.append.subrange(0, state.append.len() as int));
    assert(state.prepend =~= after.prepend.subrange(0, state.prepend.len() as int));
}

/// Looking at the specifiers of an export list keeps the state valid, only
/// adds to it, and leaves the local name of every named specifier registered.
pub proof fn lemma_register_specifiers(state: RewriteState, specs: Seq<ExportSpecifierView>)
    ensures
        register_specifiers(state, specs).config == state.config,
        register_specifiers(state, specs).disabled == state.disabled,
        register_specifiers(state, specs).prepend == state.prepend,
        state.append.is_prefix_of(register_specifiers(state, specs).append),
        state.registry.submap_of(register_specifiers(state, specs).registry),
        state.wrap_triggered ==> register_specifiers(state, specs).wrap_triggered,
        state.valid() ==> register_specifiers(state, specs).valid(),
        forall|a: int|
            0 <= a < specs.len() ==> (#[trigger] specs[a] matches ExportSpecifierView::Named {
                orig,
                ..
            } ==> register_specifiers(state, specs).registry.dom().contains(
                export_name_sym(orig),
            )),
    decreases specs.len(),
{
    let after = register_specifiers(state, specs);
    if specs.len() == 0 {
        assert(state.append =~= after.append.subrange(0, state.append.len() as int));
    } else {
        let front = specs.drop_last();
        let mid = register_specifiers(state, front);
        lemma_register_specifiers(state, front);
        match specs.last() {
            ExportSpecifierView::Named { orig, .. } => {
                lemma_register_name(mid, export_name_sym(orig));
            },
            ExportSpecifierView::Other(_) => {},
        }
        assert(state.append =~= after.append.subrange(0, state.append.len() as int)) by {
            assert(mid.append =~= after.append.subrange(0, mid.append.len() as int));
            assert(state.append =~= mid.append.subrange(0, state.append.len() as int));
        }
        assert(state.registry.submap_of(after.registry)) by {
            assert forall|k: Seq<char>| #[trigger] state.registry.dom().contains(k) implies (
            #[trigger] after.registry.dom().contains(k)) && state.registry[k]
                == after.registry[k] by {
                assert(mid.registry.dom().contains(k));
            }
        }
        assert forall|a: int| 0 <= a < specs.len() implies (
        #[trigger] specs[a] matches ExportSpecifierView::Named { orig, .. }
            ==> after.registry.dom().contains(export_name_sym(orig))) by {
            if let ExportSpecifierView::Named { orig, .. } = specs[a] {
                if a < specs.len() - 1 {
                    assert(front[a] == specs[a]);
                    assert(mid.registry.dom().contains(export_name_sym(orig)));
                }
            }
        }
    }
}

/// One step of the walk keeps the state valid and lets it grow.
pub proof fn lemma_step_grows(state: RewriteState, item: ModuleItemView)
    ensures
        grows(state, step_module_item(state, item).0),
        state.disabled ==> step_module_item(state, item).1 == item,
        state.valid() ==> step_module_item(state, item).0.valid(),
{
    let after = step_module_item(state, item).0;
    if !state.disabled {
        match item {
            ModuleItemView::ModuleDecl(ModuleDeclView::ExportDecl { span, decl }) => {},
            ModuleItemView::ModuleDecl(ModuleDeclView::ExportNamed { specifiers, src, .. }) => {
                if src is None {
                    lemma_register_specifiers(state, specifiers);
                }
            },
            _ => {},
        }
        assert(state.append =~= after.append.subrange(0, state.append.len() as int));
        assert(state.prepend =~= after.prepend.subrange(0, state.prepend.len() as int));
    }
}

/// The invariants of the walk: the body keeps its length, the state grows
/// and stays valid, and a pass that is switched off changes nothing.
pub proof fn lemma_walk_grows(state: RewriteState, items: Seq<ModuleItemView>)
    ensures
        walk(state, items).1.len() == items.len(),
        grows(state, walk(state, items).0),
        state.disabled ==> walk(state, items).1 == items,
        state.valid() ==> walk(state, items).0.valid(),
    decreases items.len(),
{
    if items.len() == 0 {
        assert(state.append =~= state.append.subrange(0, state.append.len() as int));
        assert(state.prepend =~= state.prepend.subrange(0, state.prepend.len() as int));
        assert(walk(state, items).1 =~= items);
    } else {
        let (before, body) = walk(state, items.drop_last());
        lemma_walk_grows(state, items.drop_last());
        lemma_step_grows(before, items.last());
        lemma_grows_trans(state, before, step_module_item(before, items.last()).0);
        if state.disabled {
            assert(walk(state, items).1 =~= items);
        }
    }
}

/// Walking a body is walking its front part and then, from the state that
/// this ends in, the rest.
pub proof fn lemma_walk_concat(
    state: RewriteState,
    front: Seq<ModuleItemView>,
    rest: Seq<ModuleItemView>,
)
    ensures
        walk(state, front + rest).0 == walk(walk(state, front).0, rest).0,
        walk(state, front + rest).1 == walk(state, front).1 + walk(walk(state, front).0, rest).1,
    decreases rest.len(),
{
    let mid = walk(state, front).0;
    if rest.len() == 0 {
        assert(front + rest =~= front);
        assert(walk(state, front).1 + walk(mid, rest).1 =~= walk(state, front).1);
    } else {
        lemma_walk_concat(state, front, rest.drop_last());
        assert((front + rest).drop_last() =~= front + rest.drop_last());
        assert((front + rest).last() == rest.last());
        let (before, body) = walk(mid, rest.drop_last());
        let item = step_module_item(before, rest.last()).1;
        assert((walk(state, front).1 + body).push(item) =~= walk(state, front).1 + body.push(
            item,
        ));
    }
}

/// Each item of the walked body is what one step makes of the item in its
/// place, from the state that the walk over the items in front of it ends in.
pub proof fn lemma_walk_item(state: RewriteState, items: Seq<ModuleItemView>, i: int)
    requires
        0 <= i < items.len(),
    ensures
        walk(state, items).1.len() == items.len(),
        walk(state, items).1[i] == step_module_item(walk(state, items.take(i)).0, items[i]).1,
        walk(state, items.take(i + 1)).0 == step_module_item(
            walk(state, items.take(i)).0,
            items[i],
        ).0,
        grows(walk(state, items.take(i + 1)).0, walk(state, items).0),
{
    let front = items.take(i + 1);
    let rest = items.skip(i + 1);
    assert(front + rest =~= items);
    lemma_walk_concat(state, front, rest);
    lemma_walk_grows(state, front);
    lemma_walk_grows(state, items);
    lemma_walk_grows(walk(state, front).0, rest);
    assert(front.drop_last() =~= items.take(i));
    assert(front.last() == items[i]);
}

/// Whether a top-level item is an export that the pass knows how to wrap.
pub open spec fn is_export(item: ModuleItemView) -> bool {
    match item {
        ModuleItemView::ModuleDecl(decl) => decl is ExportDecl || decl is ExportNamed
            || decl is ExportDefaultDecl || decl is ExportDefaultExpr,
        ModuleItemView::Stmt(_) => false,
    }
}

/// Whether a top-level item is the directive that switches the pass off.
pub open spec fn is_directive_item(item: ModuleItemView) -> bool {
    match item {
        ModuleItemView::Stmt(StmtView::Expr(stmt)) => is_directive(stmt),
        _ => false,
    }
}

/// Whether no top-level item of a body is the directive.
pub open spec fn has_no_directive(items: Seq<ModuleItemView>) -> bool {
    forall|i: int| 0 <= i < items.len() ==> !is_directive_item(#[trigger] items[i])
}

/// A walk over a body without the directive does not switch the pass off.
pub proof fn lemma_stays_enabled(state: RewriteState, items: Seq<ModuleItemView>)
    requires
        has_no_directive(items),
    ensures
        walk(state, items).0.disabled == state.disabled,
    decreases items.len(),
{
    if items.len() > 0 {
        assert forall|i: int| 0 <= i < items.drop_last().len() implies !is_directive_item(
            #[trigger] items.drop_last()[i],
        ) by {
            assert(items.drop_last()[i] == items[i]);
        }
        lemma_stays_enabled(state, items.drop_last());
        assert(!is_directive_item(items[items.len() - 1]));
        let before = walk(state, items.drop_last()).0;
        match items.last() {
            ModuleItemView::ModuleDecl(ModuleDeclView::ExportNamed { specifiers, src, .. }) => {
                lemma_register_specifiers(before, specifiers);
            },
            _ => {},
        }
    }
}

/// A walk over a body without exports leaves every item as it was, wraps
/// nothing and queues nothing.
pub proof fn lemma_walk_without_exports(state: RewriteState, items: Seq<ModuleItemView>)
    requires
        forall|i: int| 0 <= i < items.len() ==> !is_export(#[trigger] items[i]),
    ensures
        walk(state, items).1 == items,
        walk(state, items).0.wrap_triggered == state.wrap_triggered,
        walk(state, items).0.prepend == state.prepend,
        walk(state, items).0.append == state.append,
        walk(state, items).0.registry == state.registry,
    decreases items.len(),
{
    if items.len() == 0 {
        assert(walk(state, items).1 =~= items);
    } else {
        assert forall|i: int| 0 <= i < items.drop_last().len() implies !is_export(
            #[trigger] items.drop_last()[i],
        ) by {
            assert(items.drop_last()[i] == items[i]);
        }
        lemma_walk_without_exports(state, items.drop_last());
        assert(!is_export(items[items.len() - 1]));
        assert(walk(state, items).1 =~= items);
    }
}

/// A module without exports is left as it is: the body is unchanged, and no
/// import is added.
pub proof fn law_no_exports_unchanged(config: ConfigView, items: Seq<ModuleItemView>)
    requires
        forall|i: int| 0 <= i < items.len() ==> !is_export(#[trigger] items[i]),
    ensures
        rewrite_module(config, items) == items,
{
    lemma_walk_without_exports(fresh_state(config), items);
}

/// A module that begins with the directive is left as it is, whatever
/// exports follow.
pub proof fn law_directive_first_unchanged(config: ConfigView, items: Seq<ModuleItemView>)
    requires
        items.len() > 0,
        is_directive_item(items[0]),
    ensures
        rewrite_module(config, items) == items,
{
    let state = fresh_state(config);
    let front = items.take(1);
    let rest = items.skip(1);
    assert(front + rest =~= items);
    lemma_walk_concat(state, front, rest);
    assert(front.drop_last().len() == 0);
    assert(walk(state, front.drop_last()) == (state, Seq::<ModuleItemView>::empty()));
    assert(front.last() == items[0]);
    let off = walk(state, front).0;
    assert(off.disabled);
    assert(walk(state, front).1 =~= front);
    lemma_walk_grows(off, rest);
}

/// An item that one step leaves without a wrap is left as it was.
pub proof fn lemma_step_unwrapped(state: RewriteState, item: ModuleItemView)
    requires
        state.valid(),
        !step_module_item(state, item).0.wrap_triggered,
    ensures
        step_module_item(state, item).1 == item,
{
    if !state.disabled {
        match item {
            ModuleItemView::ModuleDecl(
                ModuleDeclView::ExportDecl {
                    span,
                    decl: DeclView::Var { kind: VarDeclKind::Const, decls, .. },
                },
            ) => {
                assert forall|k: int| 0 <= k < decls.len() implies wrap_declarator(
                    state.config,
                    #[trigger] decls[k],
                ) == decls[k] by {
                    if decls[k].init is Some {
                        assert(has_initializer(decls));
                    }
                }
                assert(wrap_declarators(state.config, decls) =~= decls);
            },
            ModuleItemView::ModuleDecl(ModuleDeclView::ExportNamed { specifiers, src, .. }) => {
                if src is None {
                    lemma_register_specifiers(state, specifiers);
                    let after = register_specifiers(state, specifiers);
                    assert forall|a: int| 0 <= a < specifiers.len() implies (
                    #[trigger] specifiers[a]) is Other by {
                        if let ExportSpecifierView::Named { orig, .. } = specifiers[a] {
                            lemma_registered_wraps(state, specifiers, a);
                        }
                    }
                    assert(rewrite_specifiers(specifiers) =~= specifiers);
                }
            },
            _ => {},
        }
    }
}

/// An export list with a named specifier leaves the wrap flag set.
pub proof fn lemma_registered_wraps(
    state: RewriteState,
    specs: Seq<ExportSpecifierView>,
    a: int,
)
    requires
        0 <= a < specs.len(),
        specs[a] is Named,
        state.valid(),
    ensures
        register_specifiers(state, specs).wrap_triggered,
{
    lemma_register_specifiers(state, specs);
    let after = register_specifiers(state, specs);
    if let ExportSpecifierView::Named { orig, .. } = specs[a] {
        assert(after.registry.dom().contains(export_name_sym(orig)));
    }
}

/// A walk that wraps nothing leaves every item as it was.
pub proof fn lemma_walk_unwrapped(state: RewriteState, items: Seq<ModuleItemView>)
    requires
        state.valid(),
        !walk(state, items).0.wrap_triggered,
    ensures
        walk(state, items).1 == items,
    decreases items.len(),
{
    if items.len() == 0 {
        assert(walk(state, items).1 =~= items);
    } else {
        let before = walk(state, items.drop_last()).0;
        lemma_walk_grows(state, items.drop_last());
        lemma_step_grows(before, items.last());
        lemma_walk_unwrapped(state, items.drop_last());
        lemma_step_unwrapped(before, items.last());
        assert(walk(state, items).1 =~= items);
    }
}

/// The copy that the pass declares in front of the body for an item: the
/// function of an exported function declaration, or the named function or
/// class of a default export, without its `export`.
pub open spec fn hoisted_copy(item: ModuleItemView) -> Option<ModuleItemView> {
    match item {
        ModuleItemView::ModuleDecl(
            ModuleDeclView::ExportDecl { decl: DeclView::Fn { ident, declare, function }, .. },
        ) => Some(hoisted_fn(ident, declare, function)),
        ModuleItemView::ModuleDecl(
            ModuleDeclView::ExportDefaultDecl {
                decl: DefaultDeclView::Fn { ident: Some(name), function },
                ..
            },
        ) => Some(hoisted_fn(name, false, function)),
        ModuleItemView::ModuleDecl(
            ModuleDeclView::ExportDefaultDecl {
                decl: DefaultDeclView::Class { ident: Some(name), class },
                ..
            },
        ) => Some(hoisted_class(name, class)),
        _ => None,
    }
}

/// The place in the rewritten body of the copy that is declared for the item
/// at `i`: behind the import and the copies declared for the items before it.
pub open spec fn hoist_position(config: ConfigView, items: Seq<ModuleItemView>, i: int) -> int {
    1 + (walk(fresh_state(config), items.take(i)).0.prepend.len() as int)
}

/// The place in the rewritten body where the items of the body begin, when
/// the import and the queued items are spliced in.
pub open spec fn body_offset(config: ConfigView, items: Seq<ModuleItemView>) -> int {
    1 + (walk(fresh_state(config), items).0.prepend.len() as int)
}

/// Hoisting is preserved. Where a module without the directive exports a
/// named function (or a named class by default), the rewritten body declares
/// it, without its `export`, in front of every item of the module: the
/// declaration stands at `hoist_position`, the items of the module follow
/// from `body_offset` on in their order, and the first lies before the second.
pub proof fn law_hoisting_preserved(config: ConfigView, items: Seq<ModuleItemView>, i: int)
    requires
        0 <= i < items.len(),
        has_no_directive(items),
        hoisted_copy(items[i]) is Some,
    ensures
        ({
            let out = rewrite_module(config, items);
            let end = walk(fresh_state(config), items);
            let at = hoist_position(config, items, i);
            let offset = body_offset(config, items);
            &&& 1 <= at < offset
            &&& out.len() == offset + items.len() + end.0.append.len()
            &&& out[at] == hoisted_copy(items[i])->Some_0
            &&& forall|j: int| 0 <= j < items.len() ==> #[trigger] out[offset + j] == end.1[j]
        }),
{
    let start = fresh_state(config);
    let front = items.take(i);
    let before = walk(start, front).0;
    let after = walk(start, items.take(i + 1)).0;
    let end = walk(start, items);
    assert forall|j: int| 0 <= j < front.len() implies !is_directive_item(
        #[trigger] front[j],
    ) by {
        assert(front[j] == items[j]);
    }
    lemma_stays_enabled(start, front);
    lemma_stays_enabled(start, items);
    lemma_walk_item(start, items, i);
    lemma_walk_grows(start, items);
    let copy = hoisted_copy(items[i])->Some_0;
    assert(after.prepend == before.prepend.push(copy));
    assert(after.wrap_triggered);
    assert(after.prepend =~= end.0.prepend.subrange(0, after.prepend.len() as int));
    assert(end.0.prepend[before.prepend.len() as int] == after.prepend[before.prepend.len() as int]);
    assert(splices(end.0));
}

/// The items of a module keep their places relative to each other. The
/// rewritten body holds, in one run and in the order of the module, what the
/// pass made of each item; the run begins at `body_offset` where the import
/// and the queues are spliced in, and makes up the whole body where they are
/// not.
pub proof fn law_order_kept(config: ConfigView, items: Seq<ModuleItemView>)
    ensures
        ({
            let out = rewrite_module(config, items);
            let end = walk(fresh_state(config), items);
            let offset = if splices(end.0) {
                body_offset(config, items)
            } else {
                0
            };
            &&& end.1.len() == items.len()
            &&& offset + items.len() <= out.len()
            &&& out.subrange(offset, offset + items.len()) == end.1
            &&& !splices(end.0) ==> out.len() == items.len()
            &&& forall|j: int|
                0 <= j < items.len() ==> #[trigger] end.1[j] == step_module_item(
                    walk(fresh_state(config), items.take(j)).0,
                    items[j],
                ).1
        }),
{
    let start = fresh_state(config);
    let out = rewrite_module(config, items);
    let end = walk(start, items);
    lemma_walk_grows(start, items);
    let offset = if splices(end.0) {
        body_offset(config, items)
    } else {
        0
    };
    assert(out.subrange(offset, offset + items.len()) =~= end.1);
    assert forall|j: int| 0 <= j < items.len() implies #[trigger] end.1[j] == step_module_item(
        walk(start, items.take(j)).0,
        items[j],
    ).1 by {
        lemma_walk_item(start, items, j);
    }
}

/// Whether the pass has put the import of the wrapper in front of the body:
/// the rewritten body is longer than the body was, and begins with the import.
pub open spec fn import_injected(config: ConfigView, items: Seq<ModuleItemView>) -> bool {
    let out = rewrite_module(config, items);
    out.len() > items.len() && out[0] == wrapper_import(config)
}

/// Whether the pass has wrapped any export of the module.
pub open spec fn wrap_occurred(config: ConfigView, items: Seq<ModuleItemView>) -> bool {
    walk(fresh_state(config), items).0.wrap_triggered
}

/// Whether the pass has met the directive in the module.
pub open spec fn switched_off(config: ConfigView, items: Seq<ModuleItemView>) -> bool {
    walk(fresh_state(config), items).0.disabled
}

/// The import is added exactly if a wrap occurred. This is stated of the
/// modules in which the directive does not follow a wrap: in those the
/// wrapped exports stay, and no import is added. Where the module did not
/// hold the very same import before, the rewritten body holds it exactly if a
/// wrap occurred.
pub proof fn law_import_gate(config: ConfigView, items: Seq<ModuleItemView>)
    requires
        !(switched_off(config, items) && wrap_occurred(config, items)),
    ensures
        import_injected(config, items) <==> wrap_occurred(config, items),
        !wrap_occurred(config, items) ==> rewrite_module(config, items) == items,
        !items.contains(wrapper_import(config)) ==> (rewrite_module(config, items).contains(
            wrapper_import(config),
        ) <==> wrap_occurred(config, items)),
{
    let start = fresh_state(config);
    let end = walk(start, items);
    let out = rewrite_module(config, items);
    lemma_walk_grows(start, items);
    if end.0.wrap_triggered {
        assert(out[0] == wrapper_import(config));
    } else {
        lemma_walk_unwrapped(start, items);
    }
}

/// How often an item occurs in a sequence of items.
pub open spec fn occurrences(items: Seq<ModuleItemView>, item: ModuleItemView) -> nat
    decreases items.len(),
{
    if items.len() == 0 {
        0
    } else {
        occurrences(items.drop_last(), item) + if items.last() == item {
            1nat
        } else {
            0nat
        }
    }
}

/// Pushing an item adds one occurrence of that item and none of any other.
pub proof fn lemma_occurrences_push(
    items: Seq<ModuleItemView>,
    pushed: ModuleItemView,
    item: ModuleItemView,
)
    ensures
        occurrences(items.push(pushed), item) == occurrences(items, item) + if pushed == item {
            1nat
        } else {
            0nat
        },
{
    assert(items.push(pushed).drop_last() =~= items);
}

/// The declarations of the wrapped bindings of two local names differ
/// unless the names are the same.
pub proof fn lemma_alias_const_injective(config: ConfigView, first: Seq<char>, second: Seq<char>)
    requires
        alias_const(config, first) == alias_const(config, second),
    ensures
        first == second,
{
    let one = alias_const(config, first);
    let two = alias_const(config, second);
    match (one, two) {
        (
            ModuleItemView::Stmt(StmtView::Decl(DeclView::Var { decls: left, .. })),
            ModuleItemView::Stmt(StmtView::Decl(DeclView::Var { decls: right, .. })),
        ) => {
            assert(left[0] == right[0]);
        },
        _ => {},
    }
}

/// Whether the specifier at `a` of an item is a named specifier of an export
/// list without a source, with the local name `sym`.
pub open spec fn exports_local(item: ModuleItemView, a: int, sym: Seq<char>) -> bool {
    match item {
        ModuleItemView::ModuleDecl(ModuleDeclView::ExportNamed { specifiers, src: None, .. }) => {
            0 <= a < specifiers.len() && match specifiers[a] {
                ExportSpecifierView::Named { orig, .. } => export_name_sym(orig) == sym,
                ExportSpecifierView::Other(_) => false,
            }
        },
        _ => false,
    }
}

/// The binding that the specifier at `a` of an export list refers to.
pub open spec fn specifier_orig(item: ModuleItemView, a: int) -> Option<ModuleExportNameView> {
    match item {
        ModuleItemView::ModuleDecl(ModuleDeclView::ExportNamed { specifiers, .. }) => {
            if 0 <= a < specifiers.len() {
                match specifiers[a] {
                    ExportSpecifierView::Named { orig, .. } => Some(orig),
                    ExportSpecifierView::Other(_) => None,
                }
            } else {
                None
            }
        },
        _ => None,
    }
}

/// Whether an item is an exported function declaration for which the pass
/// queues the very declaration that it queues for the local name `sym` of an
/// export list: a function of that name whose position tags are all dummies.
pub open spec fn clashes(config: ConfigView, item: ModuleItemView, sym: Seq<char>) -> bool {
    match item {
        ModuleItemView::ModuleDecl(
            ModuleDeclView::ExportDecl { decl: DeclView::Fn { ident, function, .. }, .. },
        ) => wrapped_fn_const(config, ident, function) == alias_const(config, sym),
        _ => false,
    }
}

/// Whether the declaration of the wrapped binding of `sym` is queued once if
/// `sym` is registered, and not at all if it is not.
pub open spec fn queued_once(state: RewriteState, sym: Seq<char>) -> bool {
    occurrences(state.append, alias_const(state.config, sym)) == if state.registry.dom().contains(
        sym,
    ) {
        1nat
    } else {
        0nat
    }
}

/// Registering a name keeps every declaration queued once.
pub proof fn lemma_register_name_once(state: RewriteState, name: Seq<char>, sym: Seq<char>)
    requires
        queued_once(state, sym),
    ensures
        queued_once(register_name(state, name), sym),
{
    if !state.registry.dom().contains(name) {
        lemma_occurrences_push(
            state.append,
            alias_const(state.config, name),
            alias_const(state.config, sym),
        );
        if alias_const(state.config, name) == alias_const(state.config, sym) {
            lemma_alias_const_injective(state.config, name, sym);
        }
    }
}

/// Looking at the specifiers of an export list keeps every declaration queued
/// once.
pub proof fn lemma_register_specifiers_once(
    state: RewriteState,
    specs: Seq<ExportSpecifierView>,
    sym: Seq<char>,
)
    requires
        queued_once(state, sym),
    ensures
        queued_once(register_specifiers(state, specs), sym),
    decreases specs.len(),
{
    if specs.len() > 0 {
        lemma_register_specifiers_once(state, specs.drop_last(), sym);
        let mid = register_specifiers(state, specs.drop_last());
        match specs.last() {
            ExportSpecifierView::Named { orig, .. } => {
                lemma_register_name_once(mid, export_name_sym(orig), sym);
            },
            ExportSpecifierView::Other(_) => {},
        }
    }
}

/// A walk keeps the declaration of the wrapped binding of `sym` queued once,
/// where no exported function declaration clashes with it.
pub proof fn lemma_walk_once(state: RewriteState, items: Seq<ModuleItemView>, sym: Seq<char>)
    requires
        queued_once(state, sym),
        forall|k: int| 0 <= k < items.len() ==> !clashes(state.config, #[trigger] items[k], sym),
    ensures
        queued_once(walk(state, items).0, sym),
    decreases items.len(),
{
    if items.len() > 0 {
        let front = items.drop_last();
        assert forall|k: int| 0 <= k < front.len() implies !clashes(
            state.config,
            #[trigger] front[k],
            sym,
        ) by {
            assert(front[k] == items[k]);
        }
        lemma_walk_once(state, front, sym);
        lemma_walk_grows(state, front);
        let before = walk(state, front).0;
        assert(!clashes(state.config, items[items.len() - 1], sym));
        if !before.disabled {
            match items.last() {
                ModuleItemView::ModuleDecl(
                    ModuleDeclView::ExportDecl { decl: DeclView::Fn { ident, function, .. }, .. },
                ) => {
                    lemma_occurrences_push(
                        before.append,
                        wrapped_fn_const(before.config, ident, function),
                        alias_const(before.config, sym),
                    );
                },
                ModuleItemView::ModuleDecl(
                    ModuleDeclView::ExportNamed { specifiers, src: None, .. },
                ) => {
                    lemma_register_specifiers_once(before, specifiers, sym);
                },
                _ => {},
            }
        }
    }
}

/// Wrapped bindings are not declared twice. Where two specifiers of export
/// lists without a source refer to the same local name, in one list or in
/// two, the pass queues the declaration of the wrapped binding of that name
/// exactly once behind the body, and both specifiers come to refer to that
/// binding. This is stated of the modules without the directive in which no
/// exported function declaration clashes with the name.
pub proof fn law_wrapped_once(
    config: ConfigView,
    items: Seq<ModuleItemView>,
    sym: Seq<char>,
    i: int,
    a: int,
    j: int,
    b: int,
)
    requires
        has_no_directive(items),
        forall|k: int| 0 <= k < items.len() ==> !clashes(config, #[trigger] items[k], sym),
        0 <= i < items.len(),
        0 <= j < items.len(),
        exports_local(items[i], a, sym),
        exports_local(items[j], b, sym),
    ensures
        ({
            let end = walk(fresh_state(config), items);
            let out = rewrite_module(config, items);
            &&& occurrences(end.0.append, alias_const(config, sym)) == 1
            &&& end.0.append.len() <= out.len()
            &&& out.subrange(out.len() - end.0.append.len(), out.len() as int) == end.0.append
            &&& specifier_orig(end.1[i], a) == Some(ModuleExportNameView::Ident(alias_ident(sym)))
            &&& specifier_orig(end.1[j], b) == Some(ModuleExportNameView::Ident(alias_ident(sym)))
        }),
{
    let start = fresh_state(config);
    let end = walk(start, items);
    let out = rewrite_module(config, items);
    lemma_walk_once(start, items, sym);
    lemma_walk_grows(start, items);
    lemma_stays_enabled(start, items);
    lemma_wrapped_specifier(config, items, sym, i, a);
    lemma_wrapped_specifier(config, items, sym, j, b);
    assert(splices(end.0));
    assert(out.subrange(out.len() - end.0.append.len(), out.len() as int) =~= end.0.append);
}

/// A named specifier of an export list without a source comes to refer to the
/// wrapped binding of its local name, and leaves that name registered.
pub proof fn lemma_wrapped_specifier(
    config: ConfigView,
    items: Seq<ModuleItemView>,
    sym: Seq<char>,
    i: int,
    a: int,
)
    requires
        has_no_directive(items),
        0 <= i < items.len(),
        exports_local(items[i], a, sym),
    ensures
        walk(fresh_state(config), items).0.registry.dom().contains(sym),
        walk(fresh_state(config), items).0.wrap_triggered,
        specifier_orig(walk(fresh_state(config), items).1[i], a) == Some(
            ModuleExportNameView::Ident(alias_ident(sym)),
        ),
{
    let start = fresh_state(config);
    let front = items.take(i);
    let before = walk(start, front).0;
    assert forall|k: int| 0 <= k < front.len() implies !is_directive_item(
        #[trigger] front[k],
    ) by {
        assert(front[k] == items[k]);
    }
    lemma_stays_enabled(start, front);
    lemma_walk_item(start, items, i);
    lemma_walk_grows(start, front);
    match items[i] {
        ModuleItemView::ModuleDecl(ModuleDeclView::ExportNamed { specifiers, .. }) => {
            lemma_register_specifiers(before, specifiers);
            let after = register_specifiers(before, specifiers);
            assert(specifiers[a] is Named);
            assert(after.registry.dom().contains(sym));
            assert(after == walk(start, items.take(i + 1)).0);
        },
        _ => {},
    }
}

/// Whether the pass wraps an item that it looks at: an exported `const`
/// declaration with an initializer, an exported function declaration, an
/// export list without a source that has a named specifier, or a default
/// export of an expression, a function or a class.
pub open spec fn is_wrappable(item: ModuleItemView) -> bool {
    match item {
        ModuleItemView::ModuleDecl(
            ModuleDeclView::ExportDecl {
                decl: DeclView::Var { kind: VarDeclKind::Const, decls, .. },
                ..
            },
        ) => has_initializer(decls),
        ModuleItemView::ModuleDecl(
            ModuleDeclView::ExportDecl { decl: DeclView::Fn { .. }, .. },
        ) => true,
        ModuleItemView::ModuleDecl(ModuleDeclView::ExportNamed { specifiers, src: None, .. }) => {
            exists|a: int| 0 <= a < specifiers.len() && (#[trigger] specifiers[a]) is Named
        },
        ModuleItemView::ModuleDecl(ModuleDeclView::ExportDefaultExpr { .. }) => true,
        ModuleItemView::ModuleDecl(ModuleDeclView::ExportDefaultDecl { decl, .. }) => decl is Fn
            || decl is Class,
        _ => false,
    }
}

/// Whether the pass looks at the item at `i`: no item in front of it is the
/// directive.
pub open spec fn is_reached(items: Seq<ModuleItemView>, i: int) -> bool {
    forall|j: int| 0 <= j < i ==> !is_directive_item(#[trigger] items[j])
}

/// Looking at the specifiers of an export list without a named specifier
/// changes nothing.
pub proof fn lemma_register_nothing(state: RewriteState, specs: Seq<ExportSpecifierView>)
    requires
        forall|a: int| 0 <= a < specs.len() ==> (#[trigger] specs[a]) is Other,
    ensures
        register_specifiers(state, specs) == state,
    decreases specs.len(),
{
    if specs.len() > 0 {
        assert forall|a: int| 0 <= a < specs.drop_last().len() implies (
        #[trigger] specs.drop_last()[a]) is Other by {
            assert(specs.drop_last()[a] == specs[a]);
        }
        lemma_register_nothing(state, specs.drop_last());
        assert(specs[specs.len() - 1] is Other);
    }
}

/// One step of a pass that is switched on sets the wrap flag exactly if the
/// flag was set or the item is one that the pass wraps.
pub proof fn lemma_step_wraps(state: RewriteState, item: ModuleItemView)
    requires
        state.valid(),
        !state.disabled,
    ensures
        step_module_item(state, item).0.wrap_triggered <==> state.wrap_triggered || is_wrappable(
            item,
        ),
        step_module_item(state, item).0.disabled <==> is_directive_item(item),
{
    match item {
        ModuleItemView::ModuleDecl(ModuleDeclView::ExportNamed { specifiers, src: None, .. }) => {
            lemma_register_specifiers(state, specifiers);
            if is_wrappable(item) {
                let a = choose|a: int|
                    0 <= a < specifiers.len() && (#[trigger] specifiers[a]) is Named;
                lemma_registered_wraps(state, specifiers, a);
            } else {
                lemma_register_nothing(state, specifiers);
            }
        },
        _ => {},
    }
}

/// A wrap occurs exactly in the modules that hold an item which the pass
/// wraps and which it reaches before any directive.
pub proof fn law_wrap_occurs(config: ConfigView, items: Seq<ModuleItemView>)
    ensures
        wrap_occurred(config, items) <==> exists|i: int|
            0 <= i < items.len() && is_wrappable(#[trigger] items[i]) && is_reached(items, i),
        switched_off(config, items) <==> !has_no_directive(items),
    decreases items.len(),
{
    let start = fresh_state(config);
    if items.len() > 0 {
        let front = items.drop_last();
        let last = items.len() - 1;
        let before = walk(start, front).0;
        law_wrap_occurs(config, front);
        lemma_walk_grows(start, front);
        lemma_step_grows(before, items.last());
        if !before.disabled {
            lemma_step_wraps(before, items.last());
            assert(has_no_directive(front));
            assert(is_reached(items, last)) by {
                assert forall|j: int| 0 <= j < last implies !is_directive_item(
                    #[trigger] items[j],
                ) by {
                    assert(front[j] == items[j]);
                }
            }
        } else {
            let j = choose|j: int| 0 <= j < front.len() && is_directive_item(#[trigger] front[j]);
            assert(is_directive_item(items[j]));
            assert(!is_reached(items, last));
        }
        if wrap_occurred(config, front) {
            let i = choose|i: int|
                0 <= i < front.len() && is_wrappable(#[trigger] front[i]) && is_reached(front, i);
            assert(items[i] == front[i]);
            assert(is_reached(items, i)) by {
                assert forall|j: int| 0 <= j < i implies !is_directive_item(
                    #[trigger] items[j],
                ) by {
                    assert(front[j] == items[j]);
                }
            }
        }
        if exists|i: int|
            0 <= i < items.len() && is_wrappable(#[trigger] items[i]) && is_reached(items, i) {
            let i = choose|i: int|
                0 <= i < items.len() && is_wrappable(#[trigger] items[i]) && is_reached(items, i);
            if i < last {
                assert(front[i] == items[i]);
                assert(is_reached(front, i)) by {
                    assert forall|j: int| 0 <= j < i implies !is_directive_item(
                        #[trigger] front[j],
                    ) by {
                        assert(front[j] == items[j]);
                    }
                }
            }
        }
        if !has_no_directive(items) {
            let j = choose|j: int| 0 <= j < items.len() && is_directive_item(#[trigger] items[j]);
            if j < last {
                assert(front[j] == items[j]);
            }
        }
        if !has_no_directive(front) {
            let j = choose|j: int| 0 <= j < front.len() && is_directive_item(#[trigger] front[j]);
            assert(items[j] == front[j]);
        }
    }
}

} // verus!
