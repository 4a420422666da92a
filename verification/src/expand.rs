//! The trait extender: a model of the generation step that attaches the
//! downcasting methods to a user-declared trait.
//!
//! The input is a description of the target trait: its name, whether it
//! declares the [`Any`](crate::Any) supertrait, and its generic parameters
//! with their bounds. The output is the family of implementation blocks to
//! emit: one block with the reference operations, and — in the full tier — a
//! second block with the owned-handle operations. Generation is a total,
//! deterministic function; a malformed description is rejected as a whole,
//! with no partial output.

use vstd::prelude::*;
use vstd::string::StrSliceExecFns;

verus! {

/// One generic parameter of the target trait: its name and its bounds, e.g.
/// `D: Deep<F>` is `name: "D"`, `bounds: ["Deep<F>"]`.
#[derive(Debug)]
pub struct GenParam {
    pub name: String,
    pub bounds: Vec<String>,
}

/// The description of the trait to extend.
#[derive(Debug)]
pub struct TraitDecl {
    /// The trait's name.
    pub name: String,
    /// Whether the trait declares the required `Any` supertrait.
    pub extends_any: bool,
    /// The trait's generic parameters, in declaration order.
    pub params: Vec<GenParam>,
}

/// Which operations to generate: only the reference operations, or also the
/// owned-handle operations, which need a heap allocator.
#[derive(Clone, Copy, Debug, PartialEq, Eq, Structural)]
pub enum Tier {
    CoreOnly,
    Full,
}

/// The operations the extender can attach to a trait.
#[derive(Clone, Copy, Debug, PartialEq, Eq, Structural)]
pub enum GenMethod {
    Is,
    DowncastRef,
    DowncastRefUnchecked,
    DowncastMut,
    DowncastMutUnchecked,
    Downcast,
    DowncastUnchecked,
}

/// Why a description was rejected.
#[derive(Clone, Copy, Debug, PartialEq, Eq, Structural)]
pub enum GenError {
    /// The trait's name is not an identifier.
    BadTraitName,
    /// The trait does not declare the required `Any` supertrait.
    MissingAnySupertrait,
    /// A generic parameter's name is not an identifier.
    BadParamName,
    /// A bound is empty, holds a stray character, or has unbalanced angle
    /// brackets.
    BadBound,
}

/// One emitted implementation block: its generic parameters — always exactly
/// the declaration's — and the methods it defines.
#[derive(Debug)]
pub struct MethodBlock {
    pub generics: Vec<GenParam>,
    pub methods: Vec<GenMethod>,
}

/// The whole output of the extender for one trait.
#[derive(Debug)]
pub struct Expansion {
    pub trait_name: String,
    pub blocks: Vec<MethodBlock>,
}

/// The view of a generic parameter: its name and its bounds, as sequences of
/// characters.
pub type ParamV = (Seq<char>, Seq<Seq<char>>);

/// The view of an implementation block: its generic parameters and methods.
pub type BlockV = (Seq<ParamV>, Seq<GenMethod>);

impl View for GenParam {
    type V = ParamV;

    open spec fn view(&self) -> ParamV {
        (self.name@, self.bounds.deep_view())
    }
}

/// The views of a sequence of generic parameters.
pub open spec fn params_view(ps: Seq<GenParam>) -> Seq<ParamV> {
    Seq::new(ps.len(), |i: int| ps[i]@)
}

impl View for MethodBlock {
    type V = BlockV;

    open spec fn view(&self) -> BlockV {
        (params_view(self.generics@), self.methods@)
    }
}

impl View for Expansion {
    type V = (Seq<char>, Seq<BlockV>);

    open spec fn view(&self) -> (Seq<char>, Seq<BlockV>) {
        (self.trait_name@, Seq::new(self.blocks@.len(), |i: int| self.blocks@[i]@))
    }
}

/// Whether `c` may start an identifier.
pub open spec fn is_ident_start(c: char) -> bool {
    ('a' <= c && c <= 'z') || ('A' <= c && c <= 'Z') || c == '_'
}

/// Whether `c` may continue an identifier.
pub open spec fn is_ident_char(c: char) -> bool {
    is_ident_start(c) || ('0' <= c && c <= '9')
}

/// Whether `s` is an identifier: nonempty, a letter or underscore first,
/// letters, digits and underscores after.
pub open spec fn is_ident(s: Seq<char>) -> bool {
    &&& s.len() > 0
    &&& is_ident_start(s[0])
    &&& forall|i: int| 1 <= i < s.len() ==> is_ident_char(#[trigger] s[i])
}

/// Whether `c` may appear in a bound: identifier characters, path and
/// argument punctuation.
pub open spec fn is_bound_char(c: char) -> bool {
    is_ident_char(c) || c == ':' || c == '<' || c == '>' || c == ',' || c == ' '
}

/// Whether the angle brackets of `s`, read from position `i` at nesting
/// depth `depth`, close exactly: no `>` without an open `<`, and depth zero
/// at the end.
pub open spec fn angle_ok(s: Seq<char>, i: int, depth: int) -> bool
    decreases s.len() - i,
{
    if i < 0 || i >= s.len() {
        depth == 0
    } else if s[i] == '<' {
        angle_ok(s, i + 1, depth + 1)
    } else if s[i] == '>' {
        depth > 0 && angle_ok(s, i + 1, depth - 1)
    } else {
        angle_ok(s, i + 1, depth)
    }
}

/// Whether `s` is a well-formed bound: nonempty, bound characters only, and
/// balanced angle brackets.
pub open spec fn bound_ok(s: Seq<char>) -> bool {
    &&& s.len() > 0
    &&& forall|i: int| 0 <= i < s.len() ==> is_bound_char(#[trigger] s[i])
    &&& angle_ok(s, 0, 0)
}

/// The first fault of one generic parameter: its name is checked before its
/// bounds.
pub open spec fn param_error(p: GenParam) -> Option<GenError> {
    if !is_ident(p.name@) {
        Some(GenError::BadParamName)
    } else if exists|i: int| 0 <= i < p.bounds@.len() && !bound_ok(#[trigger] p.bounds@[i]@) {
        Some(GenError::BadBound)
    } else {
        None
    }
}

/// The first fault of a parameter list, in declaration order.
pub open spec fn params_error(ps: Seq<GenParam>) -> Option<GenError>
    decreases ps.len(),
{
    if ps.len() == 0 {
        None
    } else if param_error(ps[0]) is Some {
        param_error(ps[0])
    } else {
        params_error(ps.drop_first())
    }
}

/// The first fault of a declaration: the trait name is checked first, then
/// the supertrait requirement, then the parameters in order.
pub open spec fn gen_error(d: TraitDecl) -> Option<GenError> {
    if !is_ident(d.name@) {
        Some(GenError::BadTraitName)
    } else if !d.extends_any {
        Some(GenError::MissingAnySupertrait)
    } else {
        params_error(d.params@)
    }
}

/// Whether a declaration is well formed: an identifier for a name, the
/// required supertrait, and every parameter well formed.
pub open spec fn decl_valid(d: TraitDecl) -> bool {
    &&& is_ident(d.name@)
    &&& d.extends_any
    &&& forall|i: int| 0 <= i < d.params@.len() ==> #[trigger] param_error(d.params@[i]) is None
}

/// The methods of the reference block, in order.
pub open spec fn core_methods() -> Seq<GenMethod> {
    seq![
        GenMethod::Is,
        GenMethod::DowncastRef,
        GenMethod::DowncastRefUnchecked,
        GenMethod::DowncastMut,
        GenMethod::DowncastMutUnchecked,
    ]
}

/// The methods of the owned-handle block, in order.
pub open spec fn owned_methods() -> Seq<GenMethod> {
    seq![GenMethod::Downcast, GenMethod::DowncastUnchecked]
}

/// The blocks a valid declaration expands to: the reference block, and in
/// the full tier also the owned-handle block, each parameterized exactly as
/// the declaration.
pub open spec fn spec_blocks(d: TraitDecl, tier: Tier) -> Seq<BlockV> {
    let ps = params_view(d.params@);
    if tier is Full {
        seq![(ps, core_methods()), (ps, owned_methods())]
    } else {
        seq![(ps, core_methods())]
    }
}

/// The whole expansion of a valid declaration.
pub open spec fn spec_expansion(d: TraitDecl, tier: Tier) -> (Seq<char>, Seq<BlockV>) {
    (d.name@, spec_blocks(d, tier))
}

/// Whether `s` is an identifier, decided exactly.
pub fn check_ident(s: &str) -> (r: bool)
    ensures
        r == is_ident(s@),
{
    let n = s.unicode_len();
    if n == 0 {
        return false;
    }
    if !ident_start_char(s.get_char(0)) {
        return false;
    }
    let mut i: usize = 1;
    while i < n
        invariant
            1 <= i <= n,
            n == s@.len(),
            is_ident_start(s@[0]),
            forall|j: int| 1 <= j < i ==> is_ident_char(#[trigger] s@[j]),
        decreases n - i,
    {
        if !ident_char(s.get_char(i)) {
            return false;
        }
        i += 1;
    }
    true
}

/// Whether `c` may start an identifier, decided exactly.
fn ident_start_char(c: char) -> (r: bool)
    ensures
        r == is_ident_start(c),
{
    ('a' <= c && c <= 'z') || ('A' <= c && c <= 'Z') || c == '_'
}

/// Whether `c` may continue an identifier, decided exactly.
fn ident_char(c: char) -> (r: bool)
    ensures
        r == is_ident_char(c),
{
    ident_start_char(c) || ('0' <= c && c <= '9')
}

/// Whether `c` may appear in a bound, decided exactly.
fn bound_char(c: char) -> (r: bool)
    ensures
        r == is_bound_char(c),
{
    ident_char(c) || c == ':' || c == '<' || c == '>' || c == ',' || c == ' '
}

/// Whether `s` is a well-formed bound, decided exactly.
pub fn check_bound(s: &str) -> (r: bool)
    ensures
        r == bound_ok(s@),
{
    let n = s.unicode_len();
    if n == 0 {
        return false;
    }
    let mut i: usize = 0;
    let mut depth: usize = 0;
    while i < n
        invariant
            0 <= i <= n,
            n == s@.len(),
            depth <= i,
            forall|j: int| 0 <= j < i ==> is_bound_char(#[trigger] s@[j]),
            angle_ok(s@, 0, 0) == angle_ok(s@, i as int, depth as int),
        decreases n - i,
    {
        let c = s.get_char(i);
        if !bound_char(c) {
            return false;
        }
        if c == '<' {
            depth += 1;
        } else if c == '>' {
            if depth == 0 {
                proof {
                    assert(!angle_ok(s@, i as int, 0));
                }
                return false;
            }
            depth -= 1;
        }
        i += 1;
    }
    depth == 0
}

} // verus!

verus! {

/// An exact copy of a list of bounds.
fn copy_strings(src: &Vec<String>) -> (r: Vec<String>)
    ensures
        r.deep_view() == src.deep_view(),
{
    let mut out: Vec<String> = Vec::new();
    let mut i: usize = 0;
    while i < src.len()
        invariant
            i <= src@.len(),
            out@.len() == i,
            forall|j: int| 0 <= j < i ==> out@[j]@ == src@[j]@,
        decreases src@.len() - i,
    {
        out.push(src[i].clone());
        i += 1;
    }
    proof {
        assert(out.deep_view() =~= src.deep_view());
    }
    out
}

/// An exact copy of one generic parameter.
fn copy_param(p: &GenParam) -> (r: GenParam)
    ensures
        r@ == p@,
{
    GenParam { name: p.name.clone(), bounds: copy_strings(&p.bounds) }
}

/// An exact copy of a parameter list.
fn copy_params(ps: &Vec<GenParam>) -> (r: Vec<GenParam>)
    ensures
        params_view(r@) == params_view(ps@),
{
    let mut out: Vec<GenParam> = Vec::new();
    let mut i: usize = 0;
    while i < ps.len()
        invariant
            i <= ps@.len(),
            out@.len() == i,
            forall|j: int| 0 <= j < i ==> out@[j]@ == ps@[j]@,
        decreases ps@.len() - i,
    {
        out.push(copy_param(&ps[i]));
        i += 1;
    }
    proof {
        assert(params_view(out@) =~= params_view(ps@));
    }
    out
}

/// The first fault of one generic parameter, decided exactly.
pub fn check_param(p: &GenParam) -> (r: Option<GenError>)
    ensures
        r == param_error(*p),
{
    if !check_ident(p.name.as_str()) {
        return Some(GenError::BadParamName);
    }
    let mut i: usize = 0;
    while i < p.bounds.len()
        invariant
            i <= p.bounds@.len(),
            is_ident(p.name@),
            forall|j: int| 0 <= j < i ==> bound_ok(#[trigger] p.bounds@[j]@),
        decreases p.bounds@.len() - i,
    {
        if !check_bound(p.bounds[i].as_str()) {
            return Some(GenError::BadBound);
        }
        i += 1;
    }
    None
}

/// If the first `i` parameters are faultless, the list's first fault is the
/// first fault of the remaining parameters.
proof fn lemma_params_error_skip(ps: Seq<GenParam>, i: int)
    requires
        0 <= i <= ps.len(),
        forall|j: int| 0 <= j < i ==> #[trigger] param_error(ps[j]) is None,
    ensures
        params_error(ps) == params_error(ps.skip(i)),
    decreases i,
{
    if i > 0 {
        assert(param_error(ps[0]) is None);
        assert(forall|j: int| 0 <= j < i - 1 ==> #[trigger] param_error(ps.drop_first()[j]) is None);
        lemma_params_error_skip(ps.drop_first(), i - 1);
        assert(ps.drop_first().skip(i - 1) =~= ps.skip(i));
    } else {
        assert(ps.skip(0) =~= ps);
    }
}

/// A list is faultless exactly when each of its parameters is.
proof fn lemma_params_error_none(ps: Seq<GenParam>)
    ensures
        params_error(ps) is None <==> (forall|i: int|
            0 <= i < ps.len() ==> #[trigger] param_error(ps[i]) is None),
    decreases ps.len(),
{
    if ps.len() > 0 {
        lemma_params_error_none(ps.drop_first());
        assert(forall|i: int| 1 <= i < ps.len() ==> ps.drop_first()[i - 1] == #[trigger] ps[i]);
    }
}

/// Extends the described trait: checks the description, and produces the
/// family of implementation blocks of the chosen tier. Exactly the
/// well-formed descriptions are accepted; a rejection reports the
/// description's first fault and produces nothing.
pub fn mopafy(decl: &TraitDecl, tier: Tier) -> (r: Result<Expansion, GenError>)
    ensures
        match r {
            Ok(e) => gen_error(*decl) is None && e@ == spec_expansion(*decl, tier),
            Err(err) => gen_error(*decl) == Some(err),
        },
{
    if !check_ident(decl.name.as_str()) {
        return Err(GenError::BadTraitName);
    }
    if !decl.extends_any {
        return Err(GenError::MissingAnySupertrait);
    }
    let mut i: usize = 0;
    while i < decl.params.len()
        invariant
            i <= decl.params@.len(),
            forall|j: int| 0 <= j < i ==> #[trigger] param_error(decl.params@[j]) is None,
            is_ident(decl.name@),
            decl.extends_any,
        decreases decl.params@.len() - i,
    {
        match check_param(&decl.params[i]) {
            Some(err) => {
                proof {
                    lemma_params_error_skip(decl.params@, i as int);
                    assert(decl.params@.skip(i as int)[0] == decl.params@[i as int]);
                }
                return Err(err);
            },
            None => {
                i += 1;
            },
        }
    }
    proof {
        lemma_params_error_skip(decl.params@, decl.params@.len() as int);
        assert(decl.params@.skip(decl.params@.len() as int) =~= Seq::<GenParam>::empty());
    }
    let generics = copy_params(&decl.params);
    let mut core_ms: Vec<GenMethod> = Vec::new();
    core_ms.push(GenMethod::Is);
    core_ms.push(GenMethod::DowncastRef);
    core_ms.push(GenMethod::DowncastRefUnchecked);
    core_ms.push(GenMethod::DowncastMut);
    core_ms.push(GenMethod::DowncastMutUnchecked);
    let mut blocks: Vec<MethodBlock> = Vec::new();
    blocks.push(MethodBlock { generics, methods: core_ms });
    if tier == Tier::Full {
        let generics2 = copy_params(&decl.params);
        let mut owned_ms: Vec<GenMethod> = Vec::new();
        owned_ms.push(GenMethod::Downcast);
        owned_ms.push(GenMethod::DowncastUnchecked);
        blocks.push(MethodBlock { generics: generics2, methods: owned_ms });
    }
    let e = Expansion { trait_name: decl.name.clone(), blocks };
    proof {
        assert(e@.1 =~~= spec_blocks(*decl, tier));
    }
    Ok(e)
}

/// Law: the full tier is the reduced tier plus the owned-handle block. The
/// reduced tier's block is emitted unchanged and first, and the added block
/// duplicates none of its definitions.
pub proof fn law_full_extends_core(d: TraitDecl)
    ensures
        spec_blocks(d, Tier::Full).len() == 2,
        spec_blocks(d, Tier::CoreOnly) == spec_blocks(d, Tier::Full).take(1),
        forall|m: GenMethod| #[trigger] spec_blocks(d, Tier::Full)[1].1.contains(m)
            ==> !spec_blocks(d, Tier::Full)[0].1.contains(m),
{
    assert(spec_blocks(d, Tier::CoreOnly) =~= spec_blocks(d, Tier::Full).take(1));
    assert forall|m: GenMethod| #[trigger] owned_methods().contains(m) implies !core_methods().contains(m) by {
        assert(m == GenMethod::Downcast || m == GenMethod::DowncastUnchecked);
        if core_methods().contains(m) {
            let j = choose|j: int| 0 <= j < core_methods().len() && core_methods()[j] == m;
            assert(false);
        }
    }
}

/// Law: every emitted block is parameterized exactly as the declaration, so
/// bound satisfaction is enforced once per block, identically everywhere.
pub proof fn law_generics_threaded(d: TraitDecl, tier: Tier)
    ensures
        forall|i: int| 0 <= i < spec_blocks(d, tier).len()
            ==> #[trigger] spec_blocks(d, tier)[i].0 == params_view(d.params@),
{
}

/// Law: generation succeeds exactly on well-formed declarations.
pub proof fn law_generates_iff_valid(d: TraitDecl)
    ensures
        gen_error(d) is None <==> decl_valid(d),
{
    lemma_params_error_none(d.params@);
}

/// Law: generation is deterministic — a declaration and a tier have one
/// expansion, so repeating the generation step changes nothing.
pub proof fn law_deterministic(
    d: TraitDecl,
    tier: Tier,
    e1: (Seq<char>, Seq<BlockV>),
    e2: (Seq<char>, Seq<BlockV>),
)
    requires
        e1 == spec_expansion(d, tier),
        e2 == spec_expansion(d, tier),
    ensures
        e1 == e2,
{
}

} // verus!

verus! {

/// The bounds of one parameter joined with ` + `: `"Float + Deep<F>"`. Empty
/// for no bounds.
pub open spec fn joined_bounds(bs: Seq<Seq<char>>) -> Seq<char>
    decreases bs.len(),
{
    if bs.len() == 0 {
        Seq::empty()
    } else if bs.len() == 1 {
        bs[0]
    } else {
        joined_bounds(bs.drop_last()) + " + "@ + bs.last()
    }
}

/// One entry of the `constr` form: the parameter's name, then `: ` and its
/// joined bounds if it has any — `"D: Deep<F>"`, or `"X"` alone.
pub open spec fn constr_entry(p: ParamV) -> Seq<char> {
    if p.1.len() == 0 {
        p.0
    } else {
        p.0 + ": "@ + joined_bounds(p.1)
    }
}

/// The `constr` entries of a parameter list, in order.
pub open spec fn constr_entries(ps: Seq<ParamV>) -> Seq<Seq<char>> {
    Seq::new(ps.len(), |i: int| constr_entry(ps[i]))
}

/// The parameter names alone, in order.
pub open spec fn arg_entries(ps: Seq<ParamV>) -> Seq<Seq<char>> {
    Seq::new(ps.len(), |i: int| ps[i].0)
}

/// Entries joined with `, `.
pub open spec fn joined_comma(es: Seq<Seq<char>>) -> Seq<char>
    decreases es.len(),
{
    if es.len() == 0 {
        Seq::empty()
    } else if es.len() == 1 {
        es[0]
    } else {
        joined_comma(es.drop_last()) + ", "@ + es.last()
    }
}

/// The `constr` form of a parameter list — names with their bounds, as the
/// extender splices them between `impl <` and `>`: `"X, F: Float, D: Deep<F>"`.
pub open spec fn constr_of(ps: Seq<ParamV>) -> Seq<char> {
    joined_comma(constr_entries(ps))
}

/// The `params` form of a parameter list — the bare names, as the extender
/// splices them into the trait's own argument list: `"X, F, D"`.
pub open spec fn args_of(ps: Seq<ParamV>) -> Seq<char> {
    joined_comma(arg_entries(ps))
}

/// The header of an emitted implementation block: `impl<CONSTR> Name<ARGS>`
/// when the trait has parameters, `impl Name` when it has none.
pub open spec fn header_of(name: Seq<char>, ps: Seq<ParamV>) -> Seq<char> {
    if ps.len() == 0 {
        "impl "@ + name
    } else {
        "impl<"@ + constr_of(ps) + "> "@ + name + "<"@ + args_of(ps) + ">"@
    }
}

/// The ` + `-joined bounds of one parameter, rendered exactly.
fn render_bounds(bs: &Vec<String>) -> (r: String)
    ensures
        r@ == joined_bounds(bs.deep_view()),
{
    let mut out = String::new();
    let mut i: usize = 0;
    while i < bs.len()
        invariant
            i <= bs@.len(),
            out@ == joined_bounds(bs.deep_view().take(i as int)),
        decreases bs@.len() - i,
    {
        if i > 0 {
            out.append(" + ");
        }
        out.append(bs[i].as_str());
        proof {
            assert(bs.deep_view().take(i + 1).drop_last() =~= bs.deep_view().take(i as int));
            assert(bs.deep_view().take(i + 1).last() == bs.deep_view()[i as int]);
        }
        i += 1;
    }
    proof {
        assert(bs.deep_view().take(bs@.len() as int) =~= bs.deep_view());
    }
    out
}

/// One `constr` entry, rendered exactly.
fn render_constr_entry(p: &GenParam) -> (r: String)
    ensures
        r@ == constr_entry(p@),
{
    let mut out = p.name.clone();
    if p.bounds.len() > 0 {
        out.append(": ");
        let joined = render_bounds(&p.bounds);
        out.append(joined.as_str());
    }
    out
}

/// The `constr` form of a parameter list, rendered exactly.
pub fn render_constr(ps: &Vec<GenParam>) -> (r: String)
    ensures
        r@ == constr_of(params_view(ps@)),
{
    let mut out = String::new();
    let mut i: usize = 0;
    while i < ps.len()
        invariant
            i <= ps@.len(),
            out@ == joined_comma(constr_entries(params_view(ps@)).take(i as int)),
        decreases ps@.len() - i,
    {
        if i > 0 {
            out.append(", ");
        }
        let entry = render_constr_entry(&ps[i]);
        out.append(entry.as_str());
        proof {
            let es = constr_entries(params_view(ps@));
            assert(es.take(i + 1).drop_last() =~= es.take(i as int));
            assert(es.take(i + 1).last() == constr_entry(ps@[i as int]@));
        }
        i += 1;
    }
    proof {
        let es = constr_entries(params_view(ps@));
        assert(es.take(ps@.len() as int) =~= es);
    }
    out
}

/// The `params` form of a parameter list, rendered exactly.
pub fn render_args(ps: &Vec<GenParam>) -> (r: String)
    ensures
        r@ == args_of(params_view(ps@)),
{
    let mut out = String::new();
    let mut i: usize = 0;
    while i < ps.len()
        invariant
            i <= ps@.len(),
            out@ == joined_comma(arg_entries(params_view(ps@)).take(i as int)),
        decreases ps@.len() - i,
    {
        if i > 0 {
            out.append(", ");
        }
        out.append(ps[i].name.as_str());
        proof {
            let es = arg_entries(params_view(ps@));
            assert(es.take(i + 1).drop_last() =~= es.take(i as int));
            assert(es.take(i + 1).last() == ps@[i as int]@.0);
        }
        i += 1;
    }
    proof {
        let es = arg_entries(params_view(ps@));
        assert(es.take(ps@.len() as int) =~= es);
    }
    out
}

/// The header of an emitted implementation block, rendered exactly.
pub fn render_impl_header(name: &String, ps: &Vec<GenParam>) -> (r: String)
    ensures
        r@ == header_of(name@, params_view(ps@)),
{
    let mut out;
    if ps.len() == 0 {
        out = String::from_str("impl ");
        out.append(name.as_str());
    } else {
        out = String::from_str("impl<");
        let constr = render_constr(ps);
        out.append(constr.as_str());
        out.append("> ");
        out.append(name.as_str());
        out.append("<");
        let args = render_args(ps);
        out.append(args.as_str());
        out.append(">");
    }
    out
}

} // verus!
