//! Argument resolution: for each declared parameter of an operation, fetch
//! the raw value (or its default), run it through the matching validator,
//! and collect the typed results in declaration order.  Missing required
//! parameters and validator failures short-circuit with the first error,
//! before any network call.

use vstd::prelude::*;

verus! {

use crate::args::{args_view, find_arg, find_args, lookup, lookup_all};
use crate::errors::{string_bytes, strings_bytes, Error, ErrorS};
use crate::schema::{specs_deep, ParamKind, ParamSpec, ParamSpecS};
use crate::validate::{
    addr_str_ok, bool_of, check_address, check_hex, check_privkey, dec_val, height_of,
    hex_str_ok, parse_bool_str, parse_height, parse_u64_str, privkey_str_ok, u64_str_ok,
    BlockHeight, HashScheme,
};

/// A validated, typed argument value.
#[derive(Clone, Debug, PartialEq, Eq)]
pub enum Value {
    Addr(String),
    Hex(String),
    U64(u64),
    Key(String),
    Height(BlockHeight),
    Bool(bool),
    Text(String),
    HexList(Vec<String>),
    /// An optional parameter the invocation did not supply.
    Absent,
}

/// The mathematical shape of a [`Value`].
pub enum ValueS {
    Addr(Seq<u8>),
    Hex(Seq<u8>),
    U64(u64),
    Key(Seq<u8>),
    Height(BlockHeight),
    Bool(bool),
    Text(Seq<u8>),
    HexList(Seq<Seq<u8>>),
    Absent,
}

impl View for Value {
    type V = ValueS;

    open spec fn view(&self) -> ValueS {
        match self {
            Value::Addr(s) => ValueS::Addr(string_bytes(*s)),
            Value::Hex(s) => ValueS::Hex(string_bytes(*s)),
            Value::U64(v) => ValueS::U64(*v),
            Value::Key(s) => ValueS::Key(string_bytes(*s)),
            Value::Height(h) => ValueS::Height(*h),
            Value::Bool(b) => ValueS::Bool(*b),
            Value::Text(s) => ValueS::Text(string_bytes(*s)),
            Value::HexList(v) => ValueS::HexList(strings_bytes(v@)),
            Value::Absent => ValueS::Absent,
        }
    }
}

pub open spec fn vals_deep(s: Seq<Value>) -> Seq<ValueS> {
    s.map(|i: int, v: Value| v@)
}

pub open spec fn opt_u64_s(v: ValueS) -> Option<u64> {
    match v {
        ValueS::U64(x) => Some(x),
        _ => None,
    }
}

/// What the validator of kind `k` yields on a raw value, if it accepts it.
pub open spec fn validate_one_s(k: ParamKind, raw: Seq<u8>) -> Option<ValueS> {
    match k {
        ParamKind::Address => if addr_str_ok(raw) {
            Some(ValueS::Addr(raw))
        } else {
            None
        },
        ParamKind::HexStr => if hex_str_ok(raw) {
            Some(ValueS::Hex(raw))
        } else {
            None
        },
        ParamKind::HexList => if hex_str_ok(raw) {
            Some(ValueS::Hex(raw))
        } else {
            None
        },
        ParamKind::U64Dec => if u64_str_ok(raw) {
            Some(ValueS::U64(dec_val(raw) as u64))
        } else {
            None
        },
        ParamKind::PrivateKey => if privkey_str_ok(raw) {
            Some(ValueS::Key(raw))
        } else {
            None
        },
        ParamKind::Height => match height_of(raw) {
            Some(h) => Some(ValueS::Height(h)),
            None => None,
        },
        ParamKind::BoolFlag => match bool_of(raw) {
            Some(b) => Some(ValueS::Bool(b)),
            None => None,
        },
        ParamKind::FreeText => Some(ValueS::Text(raw)),
        ParamKind::TxList => None,
    }
}

/// The error a failed validator reports for a parameter of kind `k`.
pub open spec fn fail_err_s(k: ParamKind, name: Seq<u8>) -> ErrorS {
    match k {
        ParamKind::PrivateKey => ErrorS::InvalidKey { param: name },
        ParamKind::Height => ErrorS::InvalidHeight { param: name },
        _ => ErrorS::InvalidFormat { param: name },
    }
}

pub open spec fn all_hex_list(vs: Seq<Seq<u8>>) -> bool {
    forall|i: int| 0 <= i < vs.len() ==> hex_str_ok(#[trigger] vs[i])
}

/// Resolution of one declared parameter against the argument bag.
pub open spec fn resolve_one_s(p: ParamSpecS, args: Seq<(Seq<u8>, Seq<u8>)>) -> Result<
    ValueS,
    ErrorS,
> {
    if p.kind is TxList {
        let vs = lookup_all(args, p.name);
        if vs.len() == 0 {
            if p.required {
                Err(ErrorS::MissingRequiredParameter { param: p.name })
            } else {
                Ok(ValueS::Absent)
            }
        } else if all_hex_list(vs) {
            Ok(ValueS::HexList(vs))
        } else {
            Err(fail_err_s(p.kind, p.name))
        }
    } else {
        match lookup(args, p.name) {
            Some(raw) => match validate_one_s(p.kind, raw) {
                Some(v) => Ok(v),
                None => Err(fail_err_s(p.kind, p.name)),
            },
            None => match p.default {
                Some(d) => match validate_one_s(p.kind, d) {
                    Some(v) => Ok(v),
                    None => Err(fail_err_s(p.kind, p.name)),
                },
                None => if p.required {
                    Err(ErrorS::MissingRequiredParameter { param: p.name })
                } else {
                    Ok(ValueS::Absent)
                },
            },
        }
    }
}

/// Resolution of a whole parameter list, left to right, first error wins.
pub open spec fn resolve_params_s(
    ps: Seq<ParamSpecS>,
    args: Seq<(Seq<u8>, Seq<u8>)>,
) -> Result<Seq<ValueS>, ErrorS>
    decreases ps.len(),
{
    if ps.len() == 0 {
        Ok(Seq::empty())
    } else {
        match resolve_one_s(ps[0], args) {
            Err(e) => Err(e),
            Ok(v) => match resolve_params_s(ps.skip(1), args) {
                Err(e) => Err(e),
                Ok(vs) => Ok(seq![v] + vs),
            },
        }
    }
}

/// Appending one more parameter resolves the prefix first.
pub proof fn lemma_resolve_snoc(
    ps: Seq<ParamSpecS>,
    p: ParamSpecS,
    args: Seq<(Seq<u8>, Seq<u8>)>,
)
    ensures
        resolve_params_s(ps.push(p), args) == (match resolve_params_s(ps, args) {
            Ok(vs) => match resolve_one_s(p, args) {
                Ok(v) => Ok(vs.push(v)),
                Err(e) => Err::<Seq<ValueS>, ErrorS>(e),
            },
            Err(e) => Err::<Seq<ValueS>, ErrorS>(e),
        }),
    decreases ps.len(),
{
    if ps.len() == 0 {
        assert(ps.push(p)[0] == p);
        assert(ps.push(p).skip(1) =~= ps);
        assert(resolve_params_s(ps, args) == Ok::<Seq<ValueS>, ErrorS>(Seq::empty()));
        match resolve_one_s(p, args) {
            Ok(v) => {
                assert(seq![v] + Seq::<ValueS>::empty() =~= Seq::<ValueS>::empty().push(v));
                assert(resolve_params_s(ps.push(p), args) == Ok::<Seq<ValueS>, ErrorS>(
                    Seq::<ValueS>::empty().push(v),
                ));
            },
            Err(e) => {
                assert(resolve_params_s(ps.push(p), args) == Err::<Seq<ValueS>, ErrorS>(e));
            },
        }
    } else {
        assert(ps.push(p)[0] == ps[0]);
        assert(ps.push(p).skip(1) =~= ps.skip(1).push(p));
        lemma_resolve_snoc(ps.skip(1), p, args);
        match resolve_one_s(ps[0], args) {
            Err(e) => {
                assert(resolve_params_s(ps.push(p), args) == Err::<Seq<ValueS>, ErrorS>(e));
                assert(resolve_params_s(ps, args) == Err::<Seq<ValueS>, ErrorS>(e));
            },
            Ok(v0) => {
                assert(resolve_params_s(ps.push(p), args) == (match resolve_params_s(
                    ps.skip(1).push(p),
                    args,
                ) {
                    Err(e) => Err::<Seq<ValueS>, ErrorS>(e),
                    Ok(vs) => Ok(seq![v0] + vs),
                }));
                match resolve_params_s(ps.skip(1), args) {
                    Err(e) => {},
                    Ok(vs) => {
                        assert(resolve_params_s(ps, args) == Ok::<Seq<ValueS>, ErrorS>(
                            seq![v0] + vs,
                        ));
                        match resolve_one_s(p, args) {
                            Ok(v) => {
                                assert(seq![v0] + vs.push(v) =~= (seq![v0] + vs).push(v));
                            },
                            Err(e) => {},
                        }
                    },
                }
            },
        }
    }
}

/// Once a prefix fails, the whole list fails with the same error.
pub proof fn lemma_resolve_take_err(
    ps: Seq<ParamSpecS>,
    args: Seq<(Seq<u8>, Seq<u8>)>,
    j: int,
)
    requires
        0 <= j <= ps.len(),
        resolve_params_s(ps.take(j), args) is Err,
    ensures
        resolve_params_s(ps, args) == resolve_params_s(ps.take(j), args),
    decreases ps.len() - j,
{
    if j == ps.len() {
        assert(ps.take(j) =~= ps);
    } else {
        assert(ps.take(j + 1) =~= ps.take(j).push(ps[j]));
        lemma_resolve_snoc(ps.take(j), ps[j], args);
        lemma_resolve_take_err(ps, args, j + 1);
    }
}

/// What a successful resolution guarantees of each slot: an absent optional
/// or a value whose shape matches the declared kind.
pub open spec fn kind_matches(k: ParamKind, v: ValueS) -> bool {
    match k {
        ParamKind::Address => v is Addr,
        ParamKind::HexStr => v is Hex,
        ParamKind::HexList => v is Hex,
        ParamKind::U64Dec => v is U64,
        ParamKind::PrivateKey => v is Key,
        ParamKind::Height => v is Height,
        ParamKind::BoolFlag => v is Bool,
        ParamKind::FreeText => v is Text,
        ParamKind::TxList => v is HexList,
    }
}

pub open spec fn ok_value(p: ParamSpecS, v: ValueS) -> bool {
    if v is Absent {
        !p.required && !(p.kind is Height)
    } else {
        kind_matches(p.kind, v)
    }
}

pub open spec fn values_ok(ps: Seq<ParamSpecS>, vs: Seq<ValueS>) -> bool {
    &&& vs.len() == ps.len()
    &&& forall|i: int| 0 <= i < ps.len() ==> ok_value(#[trigger] ps[i], vs[i])
}

/// A successfully resolved slot is shaped as its declaration demands.
pub proof fn lemma_resolve_one_ok(p: ParamSpecS, args: Seq<(Seq<u8>, Seq<u8>)>, v: ValueS)
    requires
        crate::schema::wf_param(p),
        resolve_one_s(p, args) == Ok::<ValueS, ErrorS>(v),
    ensures
        ok_value(p, v),
{
}

/// A successful resolution is slot-by-slot successful, and each slot is
/// shaped as declared.
pub proof fn lemma_resolve_ok(
    ps: Seq<ParamSpecS>,
    args: Seq<(Seq<u8>, Seq<u8>)>,
    vs: Seq<ValueS>,
)
    requires
        resolve_params_s(ps, args) == Ok::<Seq<ValueS>, ErrorS>(vs),
        forall|i: int| 0 <= i < ps.len() ==> crate::schema::wf_param(#[trigger] ps[i]),
    ensures
        values_ok(ps, vs),
        forall|i: int|
            0 <= i < ps.len() ==> resolve_one_s(#[trigger] ps[i], args) == Ok::<
                ValueS,
                ErrorS,
            >(vs[i]),
    decreases ps.len(),
{
    if ps.len() == 0 {
    } else {
        let v0 = resolve_one_s(ps[0], args)->Ok_0;
        let rest = resolve_params_s(ps.skip(1), args)->Ok_0;
        assert(vs == seq![v0] + rest);
        lemma_resolve_ok(ps.skip(1), args, rest);
        lemma_resolve_one_ok(ps[0], args, v0);
        assert(vs[0] == v0);
        assert forall|i: int| 0 <= i < ps.len() implies resolve_one_s(
            #[trigger] ps[i],
            args,
        ) == Ok::<ValueS, ErrorS>(vs[i]) by {
            if i > 0 {
                assert(ps.skip(1)[i - 1] == ps[i]);
                assert(rest[i - 1] == vs[i]);
            }
        }
        assert forall|i: int| 0 <= i < ps.len() implies ok_value(#[trigger] ps[i], vs[i]) by {
            if i > 0 {
                assert(ps.skip(1)[i - 1] == ps[i]);
                assert(rest[i - 1] == vs[i]);
                assert(ok_value(ps.skip(1)[i - 1], rest[i - 1]));
            }
        }
    }
}

/// Validates one supplied (or defaulted) raw value by the declared kind.
fn validate_kind(p: &ParamSpec, raw: &String, scheme: HashScheme) -> (r: Result<Value, Error>)
    requires
        !(p.kind is TxList),
    ensures
        match validate_one_s(p@.kind, string_bytes(*raw)) {
            Some(v) => r is Ok && r->Ok_0@ == v,
            None => r is Err && r->Err_0@ == fail_err_s(p@.kind, p@.name),
        },
{
    match p.kind {
        ParamKind::Address => if check_address(raw.as_str()) {
            Ok(Value::Addr(raw.clone()))
        } else {
            Err(Error::InvalidFormat { param: p.name.clone() })
        },
        ParamKind::HexStr => if check_hex(raw.as_str()) {
            Ok(Value::Hex(raw.clone()))
        } else {
            Err(Error::InvalidFormat { param: p.name.clone() })
        },
        ParamKind::HexList => if check_hex(raw.as_str()) {
            Ok(Value::Hex(raw.clone()))
        } else {
            Err(Error::InvalidFormat { param: p.name.clone() })
        },
        ParamKind::U64Dec => match parse_u64_str(raw.as_str()) {
            Some(v) => Ok(Value::U64(v)),
            None => Err(Error::InvalidFormat { param: p.name.clone() }),
        },
        ParamKind::PrivateKey => if check_privkey(raw.as_str(), scheme) {
            Ok(Value::Key(raw.clone()))
        } else {
            Err(Error::InvalidKey { param: p.name.clone() })
        },
        ParamKind::Height => match parse_height(raw.as_str()) {
            Some(h) => Ok(Value::Height(h)),
            None => Err(Error::InvalidHeight { param: p.name.clone() }),
        },
        ParamKind::BoolFlag => match parse_bool_str(raw.as_str()) {
            Some(b) => Ok(Value::Bool(b)),
            None => Err(Error::InvalidFormat { param: p.name.clone() }),
        },
        ParamKind::FreeText => Ok(Value::Text(raw.clone())),
        ParamKind::TxList => vstd::pervasive::unreached(),
    }
}

/// Resolves one declared parameter against the argument bag.
pub fn resolve_one(p: &ParamSpec, args: &Vec<(String, String)>, scheme: HashScheme) -> (r:
    Result<Value, Error>)
    ensures
        match r {
            Ok(v) => resolve_one_s(p@, args_view(args@)) == Ok::<ValueS, ErrorS>(v@),
            Err(e) => resolve_one_s(p@, args_view(args@)) == Err::<ValueS, ErrorS>(e@),
        },
{
    if p.kind == ParamKind::TxList {
        let vs = find_args(args, p.name.as_str());
        if vs.len() == 0 {
            if p.required {
                Err(Error::MissingRequiredParameter { param: p.name.clone() })
            } else {
                Ok(Value::Absent)
            }
        } else {
            let ghost vsv = strings_bytes(vs@);
            let n: usize = vs.len();
            let mut i: usize = 0;
            while i < n
                invariant
                    0 <= i <= n,
                    n == vs@.len(),
                    vsv == strings_bytes(vs@),
                    vsv == lookup_all(args_view(args@), p@.name),
                    p@.kind is TxList,
                    forall|j: int| 0 <= j < i ==> hex_str_ok(#[trigger] vsv[j]),
                decreases n - i,
            {
                if !check_hex(vs[i].as_str()) {
                    assert(!hex_str_ok(vsv[i as int]));
                    return Err(Error::InvalidFormat { param: p.name.clone() });
                }
                assert(hex_str_ok(vsv[i as int]));
                i += 1;
            }
            Ok(Value::HexList(vs))
        }
    } else {
        let looked = find_arg(args, p.name.as_str());
        let raw: &String = match looked {
            Some(v) => v,
            None => match &p.default {
                Some(d) => d,
                None => {
                    if p.required {
                        return Err(Error::MissingRequiredParameter { param: p.name.clone() });
                    } else {
                        return Ok(Value::Absent);
                    }
                },
            },
        };
        validate_kind(p, raw, scheme)
    }
}

/// Resolves a whole declared parameter list in order; the first missing
/// required parameter or validator failure wins.
pub fn resolve_params(
    specs: &Vec<ParamSpec>,
    args: &Vec<(String, String)>,
    scheme: HashScheme,
) -> (r: Result<Vec<Value>, Error>)
    ensures
        match r {
            Ok(vals) => resolve_params_s(specs_deep(specs@), args_view(args@)) == Ok::<
                Seq<ValueS>,
                ErrorS,
            >(vals_deep(vals@)),
            Err(e) => resolve_params_s(specs_deep(specs@), args_view(args@)) == Err::<
                Seq<ValueS>,
                ErrorS,
            >(e@),
        },
{
    let ghost psv = specs_deep(specs@);
    let ghost av = args_view(args@);
    let n: usize = specs.len();
    let mut out: Vec<Value> = Vec::new();
    let mut i: usize = 0;
    proof {
        assert(psv.take(0) =~= Seq::<ParamSpecS>::empty());
        assert(vals_deep(out@) =~= Seq::<ValueS>::empty());
    }
    while i < n
        invariant
            0 <= i <= n,
            n == specs@.len(),
            psv == specs_deep(specs@),
            av == args_view(args@),
            resolve_params_s(psv.take(i as int), av) == Ok::<Seq<ValueS>, ErrorS>(
                vals_deep(out@),
            ),
        decreases n - i,
    {
        let p = &specs[i];
        proof {
            assert(psv[i as int] == p@);
            assert(psv.take(i + 1) =~= psv.take(i as int).push(p@));
            lemma_resolve_snoc(psv.take(i as int), p@, av);
        }
        match resolve_one(p, args, scheme) {
            Ok(v) => {
                let ghost prev = out@;
                out.push(v);
                proof {
                    assert(vals_deep(out@) =~= vals_deep(prev).push(v@));
                }
            },
            Err(e) => {
                proof {
                    lemma_resolve_take_err(psv, av, i + 1);
                }
                return Err(e);
            },
        }
        i += 1;
    }
    proof {
        assert(psv.take(n as int) =~= psv);
    }
    Ok(out)
}

/// Reads the address slot `i` of a resolved value list.
pub fn val_addr(vals: &Vec<Value>, i: usize) -> (r: String)
    requires
        i < vals@.len(),
        vals_deep(vals@)[i as int] is Addr,
    ensures
        string_bytes(r) == vals_deep(vals@)[i as int]->Addr_0,
{
    proof {
        assert(vals_deep(vals@)[i as int] == vals@[i as int]@);
    }
    match &vals[i] {
        Value::Addr(s) => s.clone(),
        _ => vstd::pervasive::unreached(),
    }
}

/// Reads the hex-string slot `i` of a resolved value list.
pub fn val_hex(vals: &Vec<Value>, i: usize) -> (r: String)
    requires
        i < vals@.len(),
        vals_deep(vals@)[i as int] is Hex,
    ensures
        string_bytes(r) == vals_deep(vals@)[i as int]->Hex_0,
{
    proof {
        assert(vals_deep(vals@)[i as int] == vals@[i as int]@);
    }
    match &vals[i] {
        Value::Hex(s) => s.clone(),
        _ => vstd::pervasive::unreached(),
    }
}

/// Reads the free-text slot `i` of a resolved value list.
pub fn val_text(vals: &Vec<Value>, i: usize) -> (r: String)
    requires
        i < vals@.len(),
        vals_deep(vals@)[i as int] is Text,
    ensures
        string_bytes(r) == vals_deep(vals@)[i as int]->Text_0,
{
    proof {
        assert(vals_deep(vals@)[i as int] == vals@[i as int]@);
    }
    match &vals[i] {
        Value::Text(s) => s.clone(),
        _ => vstd::pervasive::unreached(),
    }
}

/// Reads the private-key slot `i` of a resolved value list.
pub fn val_key(vals: &Vec<Value>, i: usize) -> (r: String)
    requires
        i < vals@.len(),
        vals_deep(vals@)[i as int] is Key,
    ensures
        string_bytes(r) == vals_deep(vals@)[i as int]->Key_0,
{
    proof {
        assert(vals_deep(vals@)[i as int] == vals@[i as int]@);
    }
    match &vals[i] {
        Value::Key(s) => s.clone(),
        _ => vstd::pervasive::unreached(),
    }
}

/// Reads the required u64 slot `i` of a resolved value list.
pub fn val_u64(vals: &Vec<Value>, i: usize) -> (r: u64)
    requires
        i < vals@.len(),
        vals_deep(vals@)[i as int] is U64,
    ensures
        r == vals_deep(vals@)[i as int]->U64_0,
{
    proof {
        assert(vals_deep(vals@)[i as int] == vals@[i as int]@);
    }
    match &vals[i] {
        Value::U64(v) => *v,
        _ => vstd::pervasive::unreached(),
    }
}

/// Reads the optional u64 slot `i` of a resolved value list.
pub fn val_opt_u64(vals: &Vec<Value>, i: usize) -> (r: Option<u64>)
    requires
        i < vals@.len(),
        vals_deep(vals@)[i as int] is U64 || vals_deep(vals@)[i as int] is Absent,
    ensures
        r == opt_u64_s(vals_deep(vals@)[i as int]),
{
    proof {
        assert(vals_deep(vals@)[i as int] == vals@[i as int]@);
    }
    match &vals[i] {
        Value::U64(v) => Some(*v),
        Value::Absent => None,
        _ => vstd::pervasive::unreached(),
    }
}

/// Reads the block-height slot `i` of a resolved value list.
pub fn val_height(vals: &Vec<Value>, i: usize) -> (r: BlockHeight)
    requires
        i < vals@.len(),
        vals_deep(vals@)[i as int] is Height,
    ensures
        r == vals_deep(vals@)[i as int]->Height_0,
{
    proof {
        assert(vals_deep(vals@)[i as int] == vals@[i as int]@);
    }
    match &vals[i] {
        Value::Height(h) => *h,
        _ => vstd::pervasive::unreached(),
    }
}

/// Reads the boolean slot `i` of a resolved value list.
pub fn val_bool(vals: &Vec<Value>, i: usize) -> (r: bool)
    requires
        i < vals@.len(),
        vals_deep(vals@)[i as int] is Bool,
    ensures
        r == vals_deep(vals@)[i as int]->Bool_0,
{
    proof {
        assert(vals_deep(vals@)[i as int] == vals@[i as int]@);
    }
    match &vals[i] {
        Value::Bool(b) => *b,
        _ => vstd::pervasive::unreached(),
    }
}

/// Reads the hex-list slot `i` of a resolved value list.
pub fn val_list(vals: &Vec<Value>, i: usize) -> (r: Vec<String>)
    requires
        i < vals@.len(),
        vals_deep(vals@)[i as int] is HexList,
    ensures
        strings_bytes(r@) == vals_deep(vals@)[i as int]->HexList_0,
{
    proof {
        assert(vals_deep(vals@)[i as int] == vals@[i as int]@);
    }
    match &vals[i] {
        Value::HexList(v) => {
            let n: usize = v.len();
            let mut r: Vec<String> = Vec::new();
            let mut j: usize = 0;
            while j < n
                invariant
                    0 <= j <= n,
                    n == v@.len(),
                    r@.len() == j,
                    forall|k: int| 0 <= k < j ==> string_bytes(r@[k]) == string_bytes(
                        #[trigger] v@[k],
                    ),
                decreases n - j,
            {
                r.push(v[j].clone());
                j += 1;
            }
            proof {
                assert(strings_bytes(r@) =~= strings_bytes(v@));
            }
            r
        },
        _ => vstd::pervasive::unreached(),
    }
}

} // verus!
