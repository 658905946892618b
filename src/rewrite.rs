//! The method rewriter: replaces a method's body by one call that forwards to
//! the shared base instance.
use vstd::prelude::*;
use crate::syntax::{
    Block, CallTarget, DelegatingCall, FnArg, ImplItem, ImplItemFn, PathSegment, Receiver,
    Referent, ReturnType, Signature, Statement, Type,
};

verus! {

/// The language's own alias for the enclosing type.
pub open spec fn self_alias() -> Seq<char> {
    seq!['S', 'e', 'l', 'f']
}

/// How a method receives its instance.
#[derive(Clone, Copy, Debug, PartialEq, Eq)]
pub enum ReceiverKind {
    Static,
    ByRef,
    ByMutRef,
}

/// What a method's return-type annotation denotes.
#[derive(Clone, Copy, Debug, PartialEq, Eq)]
pub enum ReturnShape {
    NoValue,
    OpaqueValue,
    SelfValue,
    SelfRefValue,
}

/// The first receiver in an argument list.
pub open spec fn receiver_of(inputs: Seq<FnArg>) -> Option<Receiver>
    decreases inputs.len(),
{
    if inputs.len() == 0 {
        None
    } else {
        match inputs[0] {
            FnArg::Receiver(r) => Some(r),
            FnArg::Typed(_) => receiver_of(inputs.drop_first()),
        }
    }
}

/// The receiver kind, read from the receiver's mutability flag.
pub open spec fn receiver_kind(inputs: Seq<FnArg>) -> ReceiverKind {
    match receiver_of(inputs) {
        None => ReceiverKind::Static,
        Some(r) => if r.mutability {
            ReceiverKind::ByMutRef
        } else {
            ReceiverKind::ByRef
        },
    }
}

/// The typed arguments of a list, in order: the list without its receiver.
pub open spec fn typed_args(inputs: Seq<FnArg>) -> Seq<FnArg>
    decreases inputs.len(),
{
    if inputs.len() == 0 {
        Seq::empty()
    } else {
        let kept = typed_args(inputs.drop_last());
        if inputs.last() is Typed {
            kept.push(inputs.last())
        } else {
            kept
        }
    }
}

/// Whether a path's terminal segment names the enclosing type, by the alias
/// or by the structure's own name.
pub open spec fn names_self(segs: Seq<PathSegment>, name: Seq<char>) -> bool {
    segs.len() > 0 && (segs.last().ident@ == self_alias() || segs.last().ident@ == name)
}

/// The shape of a return-type annotation.
pub open spec fn return_shape(output: ReturnType, name: Seq<char>) -> ReturnShape {
    match output {
        ReturnType::Default => ReturnShape::NoValue,
        ReturnType::Type(Type::Path(segs)) => if names_self(segs@, name) {
            ReturnShape::SelfValue
        } else {
            ReturnShape::OpaqueValue
        },
        ReturnType::Type(Type::Reference { elem: Referent::Path(segs), .. }) => if names_self(
            segs@,
            name,
        ) {
            ReturnShape::SelfRefValue
        } else {
            ReturnShape::OpaqueValue
        },
        ReturnType::Type(_) => ReturnShape::OpaqueValue,
    }
}

/// Whether the annotation is a path that ends in the structure's literal name
/// (and not in the alias): the one case where the signature is rewritten.
pub open spec fn needs_alias(output: ReturnType, name: Seq<char>) -> bool {
    match output {
        ReturnType::Type(Type::Path(segs)) => segs@.len() > 0 && segs@.last().ident@
            != self_alias() && segs@.last().ident@ == name,
        _ => false,
    }
}

/// `after` is `before` with the terminal segment renamed to the alias where
/// `needs_alias` holds, and `before` itself otherwise.
pub open spec fn canonical_output(before: ReturnType, after: ReturnType, name: Seq<char>) -> bool {
    if needs_alias(before, name) {
        match (before, after) {
            (ReturnType::Type(Type::Path(a)), ReturnType::Type(Type::Path(b))) => {
                &&& b@.len() == a@.len()
                &&& b@.drop_last() == a@.drop_last()
                &&& b@.last().ident@ == self_alias()
                &&& b@.last().arguments == a@.last().arguments
            },
            _ => false,
        }
    } else {
        after == before
    }
}

/// Where the call synthesized for a signature is sent.
pub open spec fn call_target(sig: Signature, name: Seq<char>) -> CallTarget {
    match receiver_kind(sig.inputs@) {
        ReceiverKind::ByMutRef => CallTarget::LockedBase,
        ReceiverKind::ByRef => CallTarget::SharedBase,
        ReceiverKind::Static => if return_shape(sig.output, name) == ReturnShape::SelfValue {
            CallTarget::WrappedBaseType
        } else {
            CallTarget::BaseType
        },
    }
}

/// `stmt` is the delegating call owed to a method with signature `sig`: sent
/// by `call_target`, under the same name, with the typed arguments, and
/// terminated exactly when there is no return-type annotation.
pub open spec fn delegates(stmt: Statement, sig: Signature, name: Seq<char>) -> bool {
    match stmt {
        Statement::Delegate(c) => {
            &&& c.target == call_target(sig, name)
            &&& c.ident == sig.ident
            &&& c.args@ == typed_args(sig.inputs@)
            &&& c.terminated == !(sig.output is Type)
        },
        Statement::Source(_) => false,
    }
}

/// `r` is what the rewriter owes for `item` in a structure named `name`.
pub open spec fn rewritten(item: ImplItem, r: ImplItem, name: Seq<char>) -> bool {
    match item {
        ImplItem::Fn(m) => match r {
            ImplItem::Fn(n) => {
                &&& n.attrs == m.attrs
                &&& n.vis == m.vis
                &&& n.defaultness == m.defaultness
                &&& n.sig.ident == m.sig.ident
                &&& n.sig.inputs == m.sig.inputs
                &&& if receiver_of(m.sig.inputs@) is None {
                    canonical_output(m.sig.output, n.sig.output, name)
                } else {
                    n.sig.output == m.sig.output
                }
                &&& n.block.stmts@.len() == 1
                &&& delegates(n.block.stmts@[0], m.sig, name)
            },
            ImplItem::Other(_) => false,
        },
        ImplItem::Other(_) => r == item,
    }
}

/// A method taking `&mut self` with no return-type annotation becomes exactly
/// one statement: the exclusive lock is taken and the same-named method is
/// called with the typed arguments, terminated so that no value is produced.
pub proof fn lemma_exclusive_statement(m: ImplItemFn, name: Seq<char>, r: ImplItem)
    requires
        rewritten(ImplItem::Fn(m), r, name),
        receiver_kind(m.sig.inputs@) == ReceiverKind::ByMutRef,
        m.sig.output is Default,
    ensures
        r is Fn,
        r->Fn_0.block.stmts@.len() == 1,
        r->Fn_0.block.stmts@[0] is Delegate,
        r->Fn_0.block.stmts@[0]->Delegate_0.target == CallTarget::LockedBase,
        r->Fn_0.block.stmts@[0]->Delegate_0.ident == m.sig.ident,
        r->Fn_0.block.stmts@[0]->Delegate_0.args@ == typed_args(m.sig.inputs@),
        r->Fn_0.block.stmts@[0]->Delegate_0.terminated,
{
}

/// A method without receiver whose return type is the structure's literal
/// name has that segment renamed to the alias, and its body wraps the base
/// call's result in a fresh shared, lock-guarded handle, as the tail value.
pub proof fn lemma_named_constructor_wrapped(
    m: ImplItemFn,
    name: Seq<char>,
    r: ImplItem,
    segs: Vec<PathSegment>,
)
    requires
        rewritten(ImplItem::Fn(m), r, name),
        receiver_kind(m.sig.inputs@) == ReceiverKind::Static,
        m.sig.output == ReturnType::Type(Type::Path(segs)),
        segs@.len() > 0,
        segs@.last().ident@ == name,
    ensures
        r is Fn,
        r->Fn_0.sig.output is Type,
        r->Fn_0.sig.output->Type_0 is Path,
        r->Fn_0.sig.output->Type_0->Path_0@.len() == segs@.len(),
        r->Fn_0.sig.output->Type_0->Path_0@.last().ident@ == self_alias(),
        r->Fn_0.block.stmts@.len() == 1,
        r->Fn_0.block.stmts@[0] is Delegate,
        r->Fn_0.block.stmts@[0]->Delegate_0.target == CallTarget::WrappedBaseType,
        !r->Fn_0.block.stmts@[0]->Delegate_0.terminated,
{
}

/// A method without receiver whose return type names neither the alias nor
/// the structure keeps its signature, and its body is a bare call of the base
/// type's function, unwrapped, as the tail value.
pub proof fn lemma_static_call_unwrapped(m: ImplItemFn, name: Seq<char>, r: ImplItem, ty: Type)
    requires
        rewritten(ImplItem::Fn(m), r, name),
        receiver_kind(m.sig.inputs@) == ReceiverKind::Static,
        m.sig.output == ReturnType::Type(ty),
        !(ty is Path && names_self(ty->Path_0@, name)),
    ensures
        r is Fn,
        r->Fn_0.sig == m.sig,
        r->Fn_0.block.stmts@.len() == 1,
        r->Fn_0.block.stmts@[0] is Delegate,
        r->Fn_0.block.stmts@[0]->Delegate_0.target == CallTarget::BaseType,
        !r->Fn_0.block.stmts@[0]->Delegate_0.terminated,
{
}

/// The receiver of a signature, if it has one.
fn find_self(signature: &Signature) -> (r: Option<Receiver>)
    ensures
        r == receiver_of(signature.inputs@),
{
    let inputs = &signature.inputs;
    let mut i: usize = 0;
    proof {
        assert(inputs@.subrange(0, inputs@.len() as int) =~= inputs@);
    }
    while i < inputs.len()
        invariant
            i <= inputs@.len(),
            inputs@ == signature.inputs@,
            receiver_of(inputs@) == receiver_of(inputs@.subrange(i as int, inputs@.len() as int)),
        decreases inputs@.len() - i,
    {
        let ghost rest = inputs@.subrange(i as int, inputs@.len() as int);
        proof {
            assert(rest[0] == inputs@[i as int]);
        }
        match &inputs[i] {
            FnArg::Receiver(rc) => {
                proof {
                    assert(receiver_of(rest) == Some(*rc));
                }
                return Some(Receiver { reference: rc.reference, mutability: rc.mutability });
            },
            FnArg::Typed(_) => {
                proof {
                    assert(rest.drop_first() =~= inputs@.subrange(i + 1, inputs@.len() as int));
                }
            },
        }
        i += 1;
    }
    proof {
        assert(inputs@.subrange(i as int, inputs@.len() as int).len() == 0);
    }
    None
}

/// Whether a signature has a return-type annotation.
fn there_is_output(sig: &Signature) -> (r: bool)
    ensures
        r == (sig.output is Type),
{
    match sig.output {
        ReturnType::Default => false,
        ReturnType::Type(_) => true,
    }
}

/// Drops the receiver from an argument list, keeping the typed arguments in
/// order.
fn filter_inputs(inputs: &mut Vec<FnArg>)
    ensures
        final(inputs)@ == typed_args(old(inputs)@),
{
    let mut kept: Vec<FnArg> = Vec::new();
    let mut i: usize = 0;
    while i < inputs.len()
        invariant
            i <= inputs@.len(),
            kept@ == typed_args(inputs@.subrange(0, i as int)),
        decreases inputs@.len() - i,
    {
        let arg = &inputs[i];
        proof {
            assert(inputs@.subrange(0, i + 1).drop_last() =~= inputs@.subrange(0, i as int));
        }
        if let FnArg::Typed(_) = arg {
            kept.push(arg.duplicate());
        }
        i += 1;
    }
    proof {
        assert(inputs@.subrange(0, inputs@.len() as int) =~= inputs@);
    }
    *inputs = kept;
}

/// Whether the return type names the enclosing type: its terminal path segment
/// is the alias, or the structure's name, which is then renamed to the alias.
fn check_return_type_is_self(signature: &mut Signature, name_structure: &String) -> (r: bool)
    ensures
        r == (return_shape(old(signature).output, name_structure@) == ReturnShape::SelfValue),
        final(signature).ident == old(signature).ident,
        final(signature).inputs == old(signature).inputs,
        canonical_output(old(signature).output, final(signature).output, name_structure@),
{
    let alias = String::from_str("Self");
    proof {
        reveal_strlit("Self");
        assert(alias@ =~= self_alias());
    }
    match &mut signature.output {
        ReturnType::Type(Type::Path(segs)) => {
            let n = segs.len();
            if n == 0 {
                return false;
            }
            if segs[n - 1].ident == alias {
                return true;
            }
            if segs[n - 1].ident == *name_structure {
                let ghost before = segs@;
                let arguments = segs[n - 1].arguments.clone();
                segs.set(n - 1, PathSegment { ident: alias, arguments });
                proof {
                    assert(segs@.drop_last() =~= before.drop_last());
                }
                return true;
            }
            false
        },
        _ => false,
    }
}

/// Replaces a method's body by a single call forwarding to the base instance;
/// any other item is returned unchanged.
pub fn change_block_method(item: ImplItem, name_structure: String) -> (r: ImplItem)
    ensures
        rewritten(item, r, name_structure@),
{
    match item {
        ImplItem::Fn(method) => {
            let ImplItemFn { attrs, vis, defaultness, sig, block } = method;
            let ghost declared = sig;
            let mut sig = sig;
            let mut block = block;
            let ident = sig.ident.clone();
            let mut inputs = Vec::new();
            let mut i: usize = 0;
            while i < sig.inputs.len()
                invariant
                    i <= sig.inputs@.len(),
                    inputs@ == sig.inputs@.subrange(0, i as int),
                decreases sig.inputs@.len() - i,
            {
                inputs.push(sig.inputs[i].duplicate());
                i += 1;
                proof {
                    assert(inputs@ =~= sig.inputs@.subrange(0, i as int));
                }
            }
            proof {
                assert(inputs@ =~= sig.inputs@);
            }
            filter_inputs(&mut inputs);
            block.stmts.clear();
            let possible_self = find_self(&sig);
            let terminated = !there_is_output(&sig);
            let target = match possible_self {
                Some(receiver) => {
                    if receiver.mutability {
                        CallTarget::LockedBase
                    } else {
                        CallTarget::SharedBase
                    }
                },
                None => {
                    if check_return_type_is_self(&mut sig, &name_structure) {
                        CallTarget::WrappedBaseType
                    } else {
                        CallTarget::BaseType
                    }
                },
            };
            block.stmts.push(Statement::Delegate(DelegatingCall { target, ident, args: inputs, terminated }));
            proof {
                assert(delegates(block.stmts@[0], declared, name_structure@));
            }
            ImplItem::Fn(ImplItemFn { attrs, vis, defaultness, sig, block })
        },
        ImplItem::Other(text) => ImplItem::Other(text),
    }
}

} // verus!
