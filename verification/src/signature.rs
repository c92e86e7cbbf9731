//! Rendering of a function-like declaration's signature text: parameters
//! joined by `, `, wrapped in parentheses, followed by the rendered return
//! type when one is present.

use vstd::prelude::*;
use vstd::string::StringExecFns;
use crate::decl::{FnArg, FnSig};

verus! {

/// The text of one parameter: the fixed receiver token, or a `name: type`
/// pair.
pub open spec fn arg_text(a: FnArg) -> Seq<char> {
    match a {
        FnArg::Receiver => "self"@,
        FnArg::Typed { pat, ty } => pat@ + ": "@ + ty@,
    }
}

/// The first `n` parameter texts, joined by `, `.
pub open spec fn args_prefix_text(args: Seq<FnArg>, n: int) -> Seq<char>
    decreases n,
{
    if n <= 0 {
        Seq::empty()
    } else if n == 1 {
        arg_text(args[0])
    } else {
        args_prefix_text(args, n - 1) + ", "@ + arg_text(args[n - 1])
    }
}

/// All parameter texts, joined by `, `.
pub open spec fn args_text(args: Seq<FnArg>) -> Seq<char> {
    args_prefix_text(args, args.len() as int)
}

/// The rendered signature of a function-like declaration.
pub open spec fn sig_text(sig: FnSig) -> Seq<char> {
    "("@ + args_text(sig.inputs@) + ")"@ + match sig.output {
        Some(ty) => " -> "@ + ty@,
        None => Seq::<char>::empty(),
    }
}

/// Render a function-like declaration's signature.
pub fn get_fn_signature(sig: &FnSig) -> (r: String)
    ensures
        r@ == sig_text(*sig),
{
    let mut r = String::new();
    r.append("(");
    proof {
        assert(r@ =~= "("@ + args_prefix_text(sig.inputs@, 0));
    }
    let mut i: usize = 0;
    while i < sig.inputs.len()
        invariant
            i <= sig.inputs@.len(),
            r@ == "("@ + args_prefix_text(sig.inputs@, i as int),
        decreases sig.inputs@.len() - i,
    {
        if i > 0 {
            r.append(", ");
        }
        match &sig.inputs[i] {
            FnArg::Receiver => {
                r.append("self");
            },
            FnArg::Typed { pat, ty } => {
                r.append(pat.as_str());
                r.append(": ");
                r.append(ty.as_str());
            },
        }
        proof {
            assert(r@ =~= "("@ + args_prefix_text(sig.inputs@, i + 1));
        }
        i += 1;
    }
    r.append(")");
    match &sig.output {
        Some(ty) => {
            r.append(" -> ");
            r.append(ty.as_str());
        },
        None => {},
    }
    proof {
        assert(r@ =~= sig_text(*sig));
    }
    r
}

} // verus!
