//! Laws of the dispatch pipeline that relate several of its functions:
//! the height default, the uniformity of the unknown-command error, the
//! facade-owned quota default, and determinism of dispatch.

use vstd::prelude::*;

verus! {

use vstd::string::StringSliceAdditionalSpecFns;
use crate::args::{lemma_lookup_all_push, lemma_lookup_push, lookup};
use crate::command::{cmd_quota_s, lemma_build_quota, CmdS};
use crate::dispatch::dispatch_s;
use crate::errors::ErrorS;
use crate::resolve::{
    lemma_resolve_ok, opt_u64_s, resolve_one_s, resolve_params_s, ValueS,
};
use crate::schema::{
    group_of, lemma_quota_index, lemma_registry_height, lemma_registry_wf, op_of, op_params_s,
    ps_height_s, ps_quota_s, quota_index, ParamSpecS,
};

proof fn lemma_resolve_one_push_height(p: ParamSpecS, args: Seq<(Seq<u8>, Seq<u8>)>)
    requires
        lookup(args, "height".spec_bytes()) is None,
        p.name == "height".spec_bytes() ==> p == ps_height_s(),
    ensures
        resolve_one_s(p, args.push(("height".spec_bytes(), "latest".spec_bytes())))
            == resolve_one_s(p, args),
{
    let pair = ("height".spec_bytes(), "latest".spec_bytes());
    lemma_lookup_push(args, p.name, pair);
    if p.kind is TxList {
        assert(p.name != "height".spec_bytes());
        lemma_lookup_all_push(args, p.name, pair);
    }
}

proof fn lemma_resolve_params_push_height(ps: Seq<ParamSpecS>, args: Seq<(Seq<u8>, Seq<u8>)>)
    requires
        lookup(args, "height".spec_bytes()) is None,
        forall|i: int|
            0 <= i < ps.len() ==> ((#[trigger] ps[i]).name == "height".spec_bytes() ==> ps[i]
                == ps_height_s()),
    ensures
        resolve_params_s(ps, args.push(("height".spec_bytes(), "latest".spec_bytes())))
            == resolve_params_s(ps, args),
    decreases ps.len(),
{
    if ps.len() > 0 {
        lemma_resolve_one_push_height(ps[0], args);
        assert(forall|i: int|
            0 <= i < ps.skip(1).len() ==> ((#[trigger] ps.skip(1)[i]).name
                == "height".spec_bytes() ==> ps.skip(1)[i] == ps_height_s())) by {
            assert(forall|i: int| 0 <= i < ps.skip(1).len() ==> ps.skip(1)[i] == ps[i + 1]);
        }
        lemma_resolve_params_push_height(ps.skip(1), args);
    }
}

/// Omitting `--height` is equivalent to supplying `--height latest`: the
/// dispatch of any command path over any argument bag without a height
/// flag decides exactly as it does with `("height", "latest")` appended.
pub proof fn lemma_height_default(g: Seq<u8>, o: Seq<u8>, args: Seq<(Seq<u8>, Seq<u8>)>)
    requires
        lookup(args, "height".spec_bytes()) is None,
    ensures
        dispatch_s(g, o, args.push(("height".spec_bytes(), "latest".spec_bytes())))
            == dispatch_s(g, o, args),
{
    match group_of(g) {
        None => {},
        Some(gr) => match op_of(gr, o) {
            None => {},
            Some(op) => {
                lemma_registry_height(op);
                lemma_resolve_params_push_height(op_params_s(op), args);
            },
        },
    }
}

proof fn lemma_resolve_no_unknown(ps: Seq<ParamSpecS>, args: Seq<(Seq<u8>, Seq<u8>)>)
    ensures
        match resolve_params_s(ps, args) {
            Err(e) => !(e is UnknownCommand),
            Ok(_) => true,
        },
    decreases ps.len(),
{
    if ps.len() > 0 {
        lemma_resolve_no_unknown(ps.skip(1), args);
    }
}

/// Dispatching an unknown (group, operation) pair always fails with
/// `UnknownCommand` carrying the attempted path, and only then: a partial
/// match (known group, unknown operation) is indistinguishable from a
/// wholly unknown path, and no other stage ever reports this error.
pub proof fn lemma_unknown_command(g: Seq<u8>, o: Seq<u8>, args: Seq<(Seq<u8>, Seq<u8>)>)
    ensures
        (group_of(g) is None || (group_of(g) matches Some(gr) && op_of(gr, o) is None))
            <==> dispatch_s(g, o, args) == Err::<CmdS, ErrorS>(
            ErrorS::UnknownCommand { group: g, operation: o },
        ),
{
    match group_of(g) {
        None => {},
        Some(gr) => match op_of(gr, o) {
            None => {},
            Some(op) => {
                lemma_resolve_no_unknown(op_params_s(op), args);
            },
        },
    }
}

/// A write operation invoked without `--quota` builds a command whose
/// quota field is empty: the facade applies its own declared default, and
/// the dispatcher never invents a quota value (in particular never zero).
pub proof fn lemma_quota_default(g: Seq<u8>, o: Seq<u8>, args: Seq<(Seq<u8>, Seq<u8>)>, c: CmdS)
    requires
        lookup(args, "quota".spec_bytes()) is None,
        dispatch_s(g, o, args) == Ok::<CmdS, ErrorS>(c),
    ensures
        cmd_quota_s(c) is None || cmd_quota_s(c) == Some(None::<u64>),
{
    let gr = group_of(g)->Some_0;
    let op = op_of(gr, o)->Some_0;
    let vs = resolve_params_s(op_params_s(op), args)->Ok_0;
    lemma_registry_wf(op);
    lemma_resolve_ok(op_params_s(op), args, vs);
    lemma_quota_index(op);
    lemma_build_quota(op, vs);
    match quota_index(op) {
        None => {},
        Some(k) => {
            assert(op_params_s(op)[k] == ps_quota_s());
            assert(resolve_one_s(ps_quota_s(), args) == Ok::<ValueS, ErrorS>(vs[k]));
            assert(vs[k] is Absent);
            assert(cmd_quota_s(c) == Some(opt_u64_s(vs[k])));
        },
    }
}

/// Dispatch is a pure function of the command path and the argument bag:
/// two invocations with identical inputs decide the identical typed call.
/// A repeated read-only query therefore issues the same single RPC call,
/// and an unchanged chain answers it with the same decoded result; reads
/// also leave the client context untouched, so no state of this core can
/// differ between the two invocations.
pub proof fn lemma_dispatch_deterministic(
    g1: Seq<u8>,
    o1: Seq<u8>,
    a1: Seq<(Seq<u8>, Seq<u8>)>,
    g2: Seq<u8>,
    o2: Seq<u8>,
    a2: Seq<(Seq<u8>, Seq<u8>)>,
)
    requires
        g1 == g2,
        o1 == o2,
        a1 == a2,
    ensures
        dispatch_s(g1, o1, a1) == dispatch_s(g2, o2, a2),
{
}

} // verus!
