//! Lemmas on how the invariants of a library survive its growth.

use vstd::prelude::*;
use crate::types::{ReturnType, Type};
use crate::model::{CallbackFunctionView, CallbackParameterView, ClassView, InterfaceElementView, InterfaceView, ItemView, IteratorDefView, NativeFunctionView};
use crate::library::LibraryView;

verus! {

pub proof fn lemma_resolves_kept(old: LibraryView, new: LibraryView, t: Type)
    requires
        old.extended_by(new),
        old.resolves(t),
    ensures
        new.resolves(t),
{
    match t {
        Type::Enum(h) => {
            assert(new.decls[h.id as int] == old.decls[h.id as int]);
        },
        Type::Struct(h) => {
            assert(new.decls[h.id as int] == old.decls[h.id as int]);
        },
        Type::StructRef(h) => {
            assert(new.decls[h.id as int].declared_at == old.decls[h.id as int].declared_at);
        },
        Type::ClassRef(h) => {
            assert(new.decls[h.id as int].declared_at == old.decls[h.id as int].declared_at);
        },
        Type::Interface(h) => {
            assert(new.decls[h.id as int] == old.decls[h.id as int]);
        },
        Type::Iterator(h) => {
            assert(new.decls[h.id as int] == old.decls[h.id as int]);
        },
        _ => {},
    }
}

pub proof fn lemma_return_resolves_kept(old: LibraryView, new: LibraryView, r: ReturnType)
    requires
        old.extended_by(new),
        old.return_resolves(r),
    ensures
        new.return_resolves(r),
{
    if let ReturnType::Type(t) = r {
        lemma_resolves_kept(old, new, t);
    }
}

pub proof fn lemma_function_kept(old: LibraryView, new: LibraryView, id: usize)
    requires
        old.extended_by(new),
        old.is_function(id),
    ensures
        new.is_function(id),
        new.decls[id as int] == old.decls[id as int],
{
    assert(new.decls[id as int] == old.decls[id as int]);
}

pub proof fn lemma_function_ok_kept(old: LibraryView, new: LibraryView, f: NativeFunctionView)
    requires
        old.extended_by(new),
        old.function_ok(f),
    ensures
        new.function_ok(f),
{
    assert forall|i: int| 0 <= i < f.parameters.len() implies new.resolves(
        (#[trigger] f.parameters[i]).param_type,
    ) by {
        lemma_resolves_kept(old, new, f.parameters[i].param_type);
    }
    lemma_return_resolves_kept(old, new, f.return_type);
}

pub proof fn lemma_callback_ok_kept(
    old: LibraryView,
    new: LibraryView,
    cb: CallbackFunctionView,
    arg: Seq<char>,
)
    requires
        old.extended_by(new),
        old.callback_ok(cb, arg),
    ensures
        new.callback_ok(cb, arg),
{
    lemma_return_resolves_kept(old, new, cb.return_type);
    assert forall|k: int| 0 <= k < cb.parameters.len() implies ((
    #[trigger] cb.parameters[k]) matches CallbackParameterView::Parameter(p)
        ==> new.resolves(p.param_type)) by {
        if let CallbackParameterView::Parameter(p) = cb.parameters[k] {
            lemma_resolves_kept(old, new, p.param_type);
        }
    }
}

pub proof fn lemma_interface_ok_kept(old: LibraryView, new: LibraryView, i: InterfaceView)
    requires
        old.extended_by(new),
        old.interface_ok(i),
    ensures
        new.interface_ok(i),
{
    assert forall|k: int| 0 <= k < i.elements.len() implies match #[trigger] i.elements[k] {
        InterfaceElementView::Arg(name) => name == i.arg_name,
        InterfaceElementView::DestroyFunction(name) => name == i.destroy_name,
        InterfaceElementView::CallbackFunction(cb) => new.callback_ok(
            cb,
            i.arg_name,
        ),
    } by {
        if let InterfaceElementView::CallbackFunction(cb) = i.elements[k] {
            lemma_callback_ok_kept(old, new, cb, i.arg_name);
        }
    }
}

pub proof fn lemma_iterator_ok_kept(old: LibraryView, new: LibraryView, it: IteratorDefView)
    requires
        old.extended_by(new),
        old.iterator_ok(it),
    ensures
        new.iterator_ok(it),
{
    lemma_function_kept(old, new, it.native_func.id);
    assert(new.decls[it.item_type.id as int] == old.decls[it.item_type.id as int]);
}

/// The members of a class keep their signatures.
pub proof fn lemma_members_kept(old: LibraryView, new: LibraryView, id: usize, c: ClassView)
    requires
        old.extended_by(new),
        c.destructor matches Some(h) ==> old.destructor_ok(id, h),
        forall|k: int|
            0 <= k < c.constructors.len() ==> old.constructor_ok(id, #[trigger] c.constructors[k]),
        forall|k: int|
            0 <= k < c.methods.len() ==> old.method_ok(
                id,
                (#[trigger] c.methods[k]).native_function,
            ),
    ensures
        c.destructor matches Some(h) ==> new.destructor_ok(id, h),
        forall|k: int|
            0 <= k < c.constructors.len() ==> new.constructor_ok(id, #[trigger] c.constructors[k]),
        forall|k: int|
            0 <= k < c.methods.len() ==> new.method_ok(
                id,
                (#[trigger] c.methods[k]).native_function,
            ),
{
    if let Some(h) = c.destructor {
        lemma_function_kept(old, new, h.id);
    }
    assert forall|k: int| 0 <= k < c.constructors.len() implies new.constructor_ok(
        id,
        #[trigger] c.constructors[k],
    ) by {
        lemma_function_kept(old, new, c.constructors[k].id);
    }
    assert forall|k: int| 0 <= k < c.methods.len() implies new.method_ok(
        id,
        (#[trigger] c.methods[k]).native_function,
    ) by {
        lemma_function_kept(old, new, c.methods[k].native_function.id);
    }
}

/// A declaration that the growth left as it was still satisfies its
/// invariant.
pub proof fn lemma_decl_kept(old: LibraryView, new: LibraryView, id: int)
    requires
        old.extended_by(new),
        old.consistent(),
        0 <= id < old.decls.len(),
        new.decls[id] == old.decls[id],
    ensures
        new.decl_ok(id),
{
    assert(old.decl_ok(id));
    match old.decls[id].item {
        ItemView::Enum(e) => {},
        ItemView::Struct(s) => {
            assert forall|i: int| 0 <= i < s.fields.len() implies new.resolves(
                (#[trigger] s.fields[i]).field_type,
            ) by {
                lemma_resolves_kept(old, new, s.fields[i].field_type);
            }
            assert forall|i: int| 0 <= i < s.fields.len() implies ((
            #[trigger] s.fields[i]).field_type matches Type::Struct(h) ==> new.decls[id].defined_at is Some
                && new.decls[h.id as int].defined_at->0 < new.decls[id].defined_at->0) by {
                if let Type::Struct(h) = s.fields[i].field_type {
                    assert(old.resolves(s.fields[i].field_type));
                    assert(new.decls[h.id as int] == old.decls[h.id as int]);
                }
            }
        },
        ItemView::Interface(i) => {
            lemma_interface_ok_kept(old, new, i);
        },
        ItemView::Iterator(it) => {
            lemma_iterator_ok_kept(old, new, it);
        },
        ItemView::Class(c) => {
            lemma_members_kept(old, new, id as usize, c);
        },
        ItemView::Function(f) => {
            lemma_function_ok_kept(old, new, f);
        },
    }
    assert(new.statements[old.decls[id].declared_at as int] == old.statements[old.decls[id].declared_at as int]);
    if let Some(at) = old.decls[id].defined_at {
        assert(new.statements[at as int] == old.statements[at as int]);
    }
}

/// A statement that was there before the growth still satisfies its
/// invariant.
pub proof fn lemma_stmt_kept(old: LibraryView, new: LibraryView, s: int)
    requires
        old.extended_by(new),
        old.consistent(),
        0 <= s < old.statements.len(),
    ensures
        new.stmt_ok(s),
{
    assert(old.stmt_ok(s));
    assert(new.statements[s] == old.statements[s]);
    let id = old.statements[s].id() as int;
    assert(new.decls[id].declared_at == old.decls[id].declared_at);
    assert(old.decl_ok(id));
}

/// Declaring an item under an unused name keeps a library consistent.
pub proof fn lemma_declare(old: LibraryView, item: ItemView)
    requires
        old.consistent(),
        !old.name_used(item.name()),
        old.fits(item),
        old.statements.len() < usize::MAX,
        old.decls.len() < usize::MAX,
    ensures
        old.extended_by(old.declare(item)),
        old.declare(item).consistent(),
{
    let new = old.declare(item);
    let id = old.decls.len() as int;
    assert(old.extended_by(new));
    assert forall|i: int, j: int| 0 <= i < j < new.decls.len() implies (
    #[trigger] new.decls[i]).item.name() != (#[trigger] new.decls[j]).item.name() by {
        if j < old.decls.len() {
            assert(old.decls[i].item.name() != old.decls[j].item.name());
        } else {
            assert(old.decls[i].item.name() != item.name());
        }
    }
    assert forall|i: int| 0 <= i < new.decls.len() implies #[trigger] new.decl_ok(i) by {
        if i < old.decls.len() {
            lemma_decl_kept(old, new, i);
        } else {
            match item {
                ItemView::Enum(e) => {},
                ItemView::Struct(s) => {},
                ItemView::Interface(x) => {
                    lemma_interface_ok_kept(old, new, x);
                },
                ItemView::Iterator(it) => {
                    lemma_iterator_ok_kept(old, new, it);
                },
                ItemView::Class(c) => {},
                ItemView::Function(f) => {
                    lemma_function_ok_kept(old, new, f);
                },
            }
        }
    }
    assert forall|s: int| 0 <= s < new.statements.len() implies #[trigger] new.stmt_ok(s) by {
        if s < old.statements.len() {
            lemma_stmt_kept(old, new, s);
        }
    }
}

/// Giving a declared structure or class its body keeps a library consistent.
pub proof fn lemma_define(old: LibraryView, id: int, item: ItemView)
    requires
        old.consistent(),
        old.body_fits(id, item),
        old.statements.len() < usize::MAX,
        old.decls.len() <= usize::MAX,
    ensures
        old.extended_by(old.define(id, item)),
        old.define(id, item).consistent(),
{
    let new = old.define(id, item);
    assert(old.decl_ok(id));
    assert(old.extended_by(new));
    assert forall|i: int, j: int| 0 <= i < j < new.decls.len() implies (
    #[trigger] new.decls[i]).item.name() != (#[trigger] new.decls[j]).item.name() by {
        assert(old.decls[i].item.name() != old.decls[j].item.name());
    }
    assert forall|i: int| 0 <= i < new.decls.len() implies #[trigger] new.decl_ok(i) by {
        if i != id {
            lemma_decl_kept(old, new, i);
        } else {
            match item {
                ItemView::Struct(s) => {
                    assert forall|k: int| 0 <= k < s.fields.len() implies new.resolves(
                        (#[trigger] s.fields[k]).field_type,
                    ) by {
                        lemma_resolves_kept(old, new, s.fields[k].field_type);
                    }
                    assert forall|k: int| 0 <= k < s.fields.len() implies ((
                    #[trigger] s.fields[k]).field_type matches Type::Struct(h)
                        ==> new.decls[id].defined_at is Some && new.decls[h.id as int].defined_at->0
                        < new.decls[id].defined_at->0) by {
                        if let Type::Struct(h) = s.fields[k].field_type {
                            assert(old.resolves(s.fields[k].field_type));
                            assert(old.decl_ok(h.id as int));
                        }
                    }
                },
                ItemView::Class(c) => {
                    lemma_members_kept(old, new, id as usize, c);
                },
                _ => {},
            }
        }
    }
    assert forall|s: int| 0 <= s < new.statements.len() implies #[trigger] new.stmt_ok(s) by {
        if s < old.statements.len() {
            lemma_stmt_kept(old, new, s);
        }
    }
}

/// After a declaration, the names in use are those that were, and the new
/// one.
pub proof fn lemma_used_declare(l: LibraryView, item: ItemView)
    ensures
        forall|n: Seq<char>| #[trigger]
            l.declare(item).name_used(n) <==> l.name_used(n) || item.name() == n,
{
    let new = l.declare(item);
    assert forall|n: Seq<char>| #[trigger] new.name_used(n) <==> l.name_used(n) || item.name()
        == n by {
        if l.name_used(n) {
            let i = choose|i: int| 0 <= i < l.decls.len() && (#[trigger] l.decls[i]).item.name() == n;
            assert(new.decls[i].item.name() == n);
        }
        if item.name() == n {
            assert(new.decls[l.decls.len() as int].item.name() == n);
        }
        if new.name_used(n) {
            let i = choose|i: int|
                0 <= i < new.decls.len() && (#[trigger] new.decls[i]).item.name() == n;
            if i < l.decls.len() {
                assert(l.decls[i].item.name() == n);
            }
        }
    }
}

/// Giving a declaration its body takes no name and frees none.
pub proof fn lemma_used_define(l: LibraryView, id: int, item: ItemView)
    requires
        0 <= id < l.decls.len(),
        item.name() == l.decls[id].item.name(),
    ensures
        forall|n: Seq<char>| #[trigger] l.define(id, item).name_used(n) <==> l.name_used(n),
{
    let new = l.define(id, item);
    assert forall|n: Seq<char>| #[trigger] new.name_used(n) <==> l.name_used(n) by {
        if l.name_used(n) {
            let i = choose|i: int| 0 <= i < l.decls.len() && (#[trigger] l.decls[i]).item.name() == n;
            assert(new.decls[i].item.name() == n);
        }
        if new.name_used(n) {
            let i = choose|i: int|
                0 <= i < new.decls.len() && (#[trigger] new.decls[i]).item.name() == n;
            assert(l.decls[i].item.name() == n);
        }
    }
}

/// Growth composes.
pub proof fn lemma_extended_trans(a: LibraryView, b: LibraryView, c: LibraryView)
    requires
        a.extended_by(b),
        b.extended_by(c),
    ensures
        a.extended_by(c),
{
    assert forall|s: int| 0 <= s < a.statements.len() implies #[trigger] c.statements[s]
        == a.statements[s] by {
        assert(b.statements[s] == a.statements[s]);
    }
    assert forall|i: int| 0 <= i < a.decls.len() implies ({
        let o = a.decls[i];
        let n = #[trigger] c.decls[i];
        &&& n.declared_at == o.declared_at
        &&& n.item.name() == o.item.name()
        &&& (o.defined_at is Some || !a.two_phase(i)) ==> n == o
        &&& a.two_phase(i) ==> c.two_phase(i) && (n.item is Struct <==> o.item is Struct)
    }) by {
        let m = b.decls[i];
        assert(m.declared_at == a.decls[i].declared_at);
    }
}

} // verus!
