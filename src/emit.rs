//! Source text of the synthesized statements, and its parse into syn's tree.
use vstd::prelude::*;
use crate::parse::{convert_to_stmt, convert_to_tail};
use crate::syntax::{CallTarget, DelegatingCall, FnArg, Statement};

verus! {

/// The text of an argument at a call site: the pattern of a typed argument.
pub open spec fn arg_text(a: FnArg) -> Seq<char> {
    match a {
        FnArg::Receiver(_) => "self"@,
        FnArg::Typed(p) => p.pat@,
    }
}

/// The arguments of a call, comma-separated; empty for an empty list.
pub open spec fn args_text(args: Seq<FnArg>) -> Seq<char>
    decreases args.len(),
{
    if args.len() == 0 {
        Seq::empty()
    } else if args.len() == 1 {
        arg_text(args[0])
    } else {
        args_text(args.drop_last()) + ", "@ + arg_text(args.last())
    }
}

/// The expression of a delegating call, `base` naming the base type.
pub open spec fn call_expr_text(c: DelegatingCall, base: Seq<char>) -> Seq<char> {
    let call = c.ident@ + "("@ + args_text(c.args@) + ")"@;
    match c.target {
        CallTarget::LockedBase => "self.base.lock().unwrap()."@ + call,
        CallTarget::SharedBase => "self.base."@ + call,
        CallTarget::BaseType => base + "::"@ + call,
        CallTarget::WrappedBaseType => "Self { base: std::sync::Arc::new(std::sync::Mutex::new("@
            + base + "::"@ + call + ")) }"@,
    }
}

/// The source text of a statement; a delegating call ends in `;` when it is
/// terminated.
pub open spec fn stmt_text(s: Statement, base: Seq<char>) -> Seq<char> {
    match s {
        Statement::Source(t) => t@,
        Statement::Delegate(c) => if c.terminated {
            call_expr_text(c, base) + ";"@
        } else {
            call_expr_text(c, base)
        },
    }
}

/// Appends the call-site arguments of `args` to `out`.
fn push_args(out: &mut String, args: &Vec<FnArg>)
    ensures
        final(out)@ == old(out)@ + args_text(args@),
{
    let ghost start = out@;
    let mut i: usize = 0;
    while i < args.len()
        invariant
            i <= args@.len(),
            out@ == start + args_text(args@.subrange(0, i as int)),
        decreases args@.len() - i,
    {
        let ghost before = out@;
        proof {
            let next = args@.subrange(0, i + 1);
            assert(next.drop_last() =~= args@.subrange(0, i as int));
            assert(next.last() == args@[i as int]);
        }
        if i > 0 {
            out.append(", ");
        }
        match &args[i] {
            FnArg::Receiver(_) => out.append("self"),
            FnArg::Typed(p) => out.append(p.pat.as_str()),
        }
        proof {
            assert(out@ =~= start + args_text(args@.subrange(0, i + 1)));
        }
        i += 1;
    }
    proof {
        assert(args@.subrange(0, args@.len() as int) =~= args@);
    }
}

/// Appends the expression of a delegating call to `out`.
fn push_call_expr(out: &mut String, c: &DelegatingCall, base_type: &String)
    ensures
        final(out)@ == old(out)@ + call_expr_text(*c, base_type@),
{
    let ghost start = out@;
    match c.target {
        CallTarget::LockedBase => out.append("self.base.lock().unwrap()."),
        CallTarget::SharedBase => out.append("self.base."),
        CallTarget::BaseType => {
            out.append(base_type.as_str());
            out.append("::");
        },
        CallTarget::WrappedBaseType => {
            out.append("Self { base: std::sync::Arc::new(std::sync::Mutex::new(");
            out.append(base_type.as_str());
            out.append("::");
        },
    }
    let ghost head = out@;
    out.append(c.ident.as_str());
    out.append("(");
    push_args(out, &c.args);
    out.append(")");
    if let CallTarget::WrappedBaseType = c.target {
        out.append(")) }");
    }
    proof {
        let call = c.ident@ + "("@ + args_text(c.args@) + ")"@;
        match c.target {
            CallTarget::WrappedBaseType => {
                assert(out@ =~= start + ("Self { base: std::sync::Arc::new(std::sync::Mutex::new("@
                    + base_type@ + "::"@ + call + ")) }"@));
            },
            CallTarget::BaseType => {
                assert(out@ =~= start + (base_type@ + "::"@ + call));
            },
            _ => {
                assert(out@ =~= head + call);
            },
        }
    }
}

/// The source text of a statement, `base_type` naming the base type that
/// the delegating calls reach.
pub fn render_stmt(stmt: &Statement, base_type: &String) -> (r: String)
    ensures
        r@ == stmt_text(*stmt, base_type@),
{
    match stmt {
        Statement::Source(t) => t.clone(),
        Statement::Delegate(c) => {
            let mut out = String::new();
            push_call_expr(&mut out, c, base_type);
            if c.terminated {
                out.append(";");
            }
            proof {
                assert(out@ =~= stmt_text(*stmt, base_type@));
            }
            out
        },
    }
}

/// The statement in syn's tree: a tail call is parsed as an expression, any
/// other statement as a statement, from the text that `render_stmt` gives.
/// `None` when that text does not parse, in which case the method is left
/// without that statement.
pub fn synthesize(stmt: &Statement, base_type: &String) -> (r: Option<syn::Stmt>) {
    let code = render_stmt(stmt, base_type);
    match stmt {
        Statement::Delegate(c) => {
            if c.terminated {
                convert_to_stmt(&code)
            } else {
                convert_to_tail(&code)
            }
        },
        Statement::Source(_) => convert_to_stmt(&code),
    }
}

} // verus!
