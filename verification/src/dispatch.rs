//! The dispatcher: given a (group, operation) path and the raw argument
//! bag of one invocation, produce exactly one typed contract call or one
//! error.  The path is matched against the registry before any argument is
//! read; arguments are then resolved against the operation's declared
//! parameter list; a write installs its resolved signing key into the
//! client context immediately before the call would be made.

use vstd::prelude::*;

verus! {

use vstd::string::StringSliceAdditionalSpecFns;
use crate::args::args_view;
use crate::command::{build_cmd, build_s, cmd_key_s, take_key, Cmd, CmdS};
use crate::errors::{string_bytes, Error, ErrorS};
use crate::resolve::{lemma_resolve_ok, resolve_params, resolve_params_s, vals_deep, ValueS};
use crate::schema::{
    group_of, lemma_registry_wf, op_of, op_params, op_params_s, parse_group, parse_operation,
};
use crate::validate::HashScheme;

/// The shared client state a dispatch works against: RPC endpoint, debug
/// flag, the signature scheme selected once per process, and the signing
/// key installed for the current write, if any.
#[derive(Clone, Debug, PartialEq, Eq)]
pub struct ClientContext {
    pub uri: String,
    pub debug: bool,
    pub scheme: HashScheme,
    pub key: Option<String>,
}

/// The mathematical shape of a [`ClientContext`].
pub struct ClientContextS {
    pub uri: Seq<u8>,
    pub debug: bool,
    pub scheme: HashScheme,
    pub key: Option<Seq<u8>>,
}

impl View for ClientContext {
    type V = ClientContextS;

    open spec fn view(&self) -> ClientContextS {
        ClientContextS {
            uri: string_bytes(self.uri),
            debug: self.debug,
            scheme: self.scheme,
            key: match self.key {
                Some(k) => Some(string_bytes(k)),
                None => None,
            },
        }
    }
}

/// What a dispatch decides, as a function of the command path and the raw
/// argument bag alone: the typed contract call to make, or the first error
/// found.  An unmatched path fails with `UnknownCommand` before any
/// argument is read; a known group with an unknown operation fails with
/// the same error, indistinguishable from a wholly unknown path.
pub open spec fn dispatch_s(g: Seq<u8>, o: Seq<u8>, args: Seq<(Seq<u8>, Seq<u8>)>) -> Result<
    CmdS,
    ErrorS,
> {
    match group_of(g) {
        Some(gr) => match op_of(gr, o) {
            Some(op) => match resolve_params_s(op_params_s(op), args) {
                Ok(vs) => Ok(build_s(op, vs)),
                Err(e) => Err(e),
            },
            None => Err(ErrorS::UnknownCommand { group: g, operation: o }),
        },
        None => Err(ErrorS::UnknownCommand { group: g, operation: o }),
    }
}

/// Dispatches one invocation: looks the path up in the registry, resolves
/// and validates every declared parameter, and builds the typed command.
/// A write installs its resolved signing key into the context, overwriting
/// any previously installed key; a read, or any failure, leaves the
/// context untouched.
pub fn dispatch(
    ctx: &mut ClientContext,
    group: &str,
    operation: &str,
    args: &Vec<(String, String)>,
) -> (r: Result<Cmd, Error>)
    ensures
        (match r {
            Ok(c) => dispatch_s(group.spec_bytes(), operation.spec_bytes(), args_view(args@))
                == Ok::<CmdS, ErrorS>(c@),
            Err(e) => dispatch_s(group.spec_bytes(), operation.spec_bytes(), args_view(args@))
                == Err::<CmdS, ErrorS>(e@),
        }),
        (match r {
            Ok(c) => match cmd_key_s(c@) {
                Some(k) => final(ctx)@ == (ClientContextS { key: Some(k), ..old(ctx)@ }),
                None => *final(ctx) == *old(ctx),
            },
            Err(_) => *final(ctx) == *old(ctx),
        }),
{
    let gr = match parse_group(group) {
        Some(gr) => gr,
        None => {
            return Err(
                Error::UnknownCommand {
                    group: group.to_owned(),
                    operation: operation.to_owned(),
                },
            );
        },
    };
    let op = match parse_operation(gr, operation) {
        Some(op) => op,
        None => {
            return Err(
                Error::UnknownCommand {
                    group: group.to_owned(),
                    operation: operation.to_owned(),
                },
            );
        },
    };
    let specs = op_params(op);
    let vals = match resolve_params(&specs, args, ctx.scheme) {
        Ok(vals) => vals,
        Err(e) => {
            return Err(e);
        },
    };
    proof {
        lemma_registry_wf(op);
        lemma_resolve_ok(op_params_s(op), args_view(args@), vals_deep(vals@));
    }
    let cmd = build_cmd(op, &vals);
    match take_key(&cmd) {
        Some(k) => {
            ctx.key = Some(k);
        },
        None => {},
    }
    Ok(cmd)
}

} // verus!
