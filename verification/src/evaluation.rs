//! Evaluation of presence conditions with `evalexpr`.
//!
//! The evaluation context is `evalexpr`'s `HashMapContext`, kept behind a
//! struct of this library and described by two names: the variables it
//! holds and the functions of this library installed in it.
use vstd::prelude::*;
use evalexpr::{
    build_operator_tree, eval_with_context, Context, ContextWithMutableFunctions,
    ContextWithMutableVariables, DefaultNumericTypes, EvalexprError, EvalexprFloat,
    EvalexprNumericTypes, Function, HashMapContext, Value,
};
use crate::features::{FeatureValue, FeatureModel, same_kind, no_features};
use crate::builtins::{
    checked_shift_left, checked_shift_right, checked_abs, checked_substring, SubstringError,
};

verus! {

/// An evaluation context: the variables and functions that a presence
/// condition can name. It holds `evalexpr`'s `HashMapContext` in a private
/// field, which only the functions of this module touch. What it holds is
/// given by `context_variables` and `context_functions`.
#[verifier::external_body]
pub struct FeatureContext {
    ctx: HashMapContext<DefaultNumericTypes>,
}

/// The variables that a context holds, by name.
pub uninterp spec fn context_variables(ctx: FeatureContext) -> Map<Seq<char>, FeatureModel>;

/// The names of the functions of this library that the context holds,
/// each installed by the function of this module that names it: `sel`
/// (`select_number`), `shl` (`checked_shift_left`), `shr`
/// (`checked_shift_right`), `math::abs` (`checked_abs`) and
/// `str::substring` (`checked_substring`).
pub uninterp spec fn context_functions(ctx: FeatureContext) -> Set<Seq<char>>;

/// The functions that this library installs in every context it loads.
pub open spec fn library_functions() -> Set<Seq<char>> {
    set!["sel"@, "shl"@, "shr"@, "math::abs"@, "str::substring"@]
}

/// What `evalexpr` makes of an expression: `Some` of the identifiers it names,
/// in the order of `Node::iter_identifiers` (variables and functions, one per
/// occurrence), or `None` where the expression does not parse.
pub uninterp spec fn expression_identifiers(expr: Seq<char>) -> Option<Seq<Seq<char>>>;

/// Holds of an outcome that `evalexpr::eval_with_context` has given for an
/// expression in a context with these variables and these functions of this
/// library (`outcome` is the value, or the text of the error). A function
/// of this library is called in place of the builtin of the same name. It
/// is no function of its first three arguments: `evalexpr`'s
/// float builtins rest on std functions whose precision is not fixed, so
/// one expression in one context may give different outcomes.
pub uninterp spec fn evaluation_outcome(
    expr: Seq<char>,
    variables: Map<Seq<char>, FeatureModel>,
    functions: Set<Seq<char>>,
    outcome: Result<ConditionValue, Seq<char>>,
) -> bool;

/// An evaluation outcome with the text of its error as a sequence.
pub open spec fn outcome_view(o: Result<ConditionValue, String>) -> Result<ConditionValue, Seq<char>> {
    match o {
        Ok(v) => Ok(v),
        Err(m) => Err(m@),
    }
}

/// The identifiers that an expression names (variables and functions), as
/// a set; none where the expression does not parse.
pub open spec fn required_identifiers(expr: Seq<char>) -> Set<Seq<char>> {
    match expression_identifiers(expr) {
        Some(ids) => Set::new(|n: Seq<char>| exists|j: int| 0 <= j < ids.len() && ids[j] == n),
        None => Set::empty(),
    }
}

/// The builtins of `evalexpr` that can panic on some arguments: `shl` and
/// `shr` shift an `i64` without a check, `math::abs` takes the absolute
/// value of an `i64` without a check, and `str::substring` slices a string
/// at byte offsets that need not be character boundaries. Each is one of
/// `library_functions`.
pub open spec fn panicking_builtin(name: Seq<char>) -> bool {
    name == "shl"@ || name == "shr"@ || name == "math::abs"@ || name == "str::substring"@
}

/// Every builtin that can panic has a function of this library in its
/// place in a context that holds the library's functions, so evaluating a
/// condition in such a context never reaches one.
pub proof fn lemma_library_covers_panicking_builtins(name: Seq<char>)
    requires
        panicking_builtin(name),
    ensures
        library_functions().contains(name),
{
}

/// The float with IEEE-754 bit pattern `bits`, rounded half away from zero
/// and converted to `i64` by `as` (saturating, NaN to 0).
pub uninterp spec fn rounded(bits: u64) -> i64;

/// The value that a presence condition evaluates to.
/// A real number is held by its IEEE-754 bit pattern.
#[derive(Clone, Debug, PartialEq)]
pub enum ConditionValue {
    Boolean(bool),
    Int(i64),
    Real(u64),
    /// A string, a tuple or the empty value.
    Other,
}

/// The argument that a presence condition hands to `sel(..)`.
#[derive(Clone, Debug, PartialEq)]
pub enum SelectorInput {
    Boolean(bool),
    Int(i64),
    Real(u64),
    Text(String),
    /// A tuple or the empty value.
    Other,
}

impl FeatureContext {
    /// The value that the context holds for `name`, if it holds one.
    pub fn get_value(&self, name: &str) -> (r: Option<FeatureValue>)
        ensures
            r is Some == context_variables(*self).contains_key(name@),
            r is Some ==> r->Some_0@ == context_variables(*self)[name@],
    {
        get_variable(self, name)
    }
}

/// `HashMapContext::new`: a context with no variables and no functions.
#[verifier::external_body]
pub(crate) fn new_context() -> (ctx: FeatureContext)
    ensures
        context_variables(ctx) == no_features(),
        context_functions(ctx) == Set::<Seq<char>>::empty(),
{
    FeatureContext { ctx: HashMapContext::new() }
}

/// `ContextWithMutableFunctions::set_function` of `HashMapContext`, with a
/// function made by `Function::new`: installs `sel`, which converts its
/// argument variant by variant into a `SelectorInput` and hands it to
/// `select_number`; a number that comes back becomes an integer value, a
/// refusal an error message. The contract claims that the variables are
/// untouched (functions and variables are kept apart in `HashMapContext`)
/// and that this `sel` is installed.
#[verifier::external_body]
pub(crate) fn install_selector(ctx: &mut FeatureContext)
    ensures
        context_variables(*final(ctx)) == context_variables(*old(ctx)),
        context_functions(*final(ctx)) == context_functions(*old(ctx)).insert("sel"@),
{
    let sel = Function::new(|arg: &Value<DefaultNumericTypes>| {
        let input = match arg {
            Value::Boolean(b) => SelectorInput::Boolean(*b),
            Value::Int(i) => SelectorInput::Int(*i),
            Value::Float(f) => SelectorInput::Real(f.to_bits()),
            Value::String(s) => SelectorInput::Text(s.clone()),
            _ => SelectorInput::Other,
        };
        select_number(&input).map(Value::Int).ok_or_else(|| EvalexprError::CustomMessage(
            format!("TYPE ERROR: Function 'sel()' expects Boolean, Int, Float or String but got {:?}", arg)))
    });
    let _ = ctx.ctx.set_function("sel".to_string(), sel);
}

/// `set_function` with a function made by `Function::new`: installs `shl`,
/// which takes a pair of integers as the builtin does (`as_fixed_len_tuple`,
/// `as_int`) and hands them to `checked_shift_left`; a shift amount out of
/// range gives an error message where the builtin panics. The contract
/// claims that the variables are untouched and that `shl` is installed.
#[verifier::external_body]
pub(crate) fn install_shift_left(ctx: &mut FeatureContext)
    ensures
        context_variables(*final(ctx)) == context_variables(*old(ctx)),
        context_functions(*final(ctx)) == context_functions(*old(ctx)).insert("shl"@),
{
    let shl = Function::new(|arg: &Value<DefaultNumericTypes>| {
        let t = arg.as_fixed_len_tuple(2)?;
        checked_shift_left(t[0].as_int()?, t[1].as_int()?).map(Value::Int).ok_or_else(||
            EvalexprError::CustomMessage(format!("shl: shift amount out of range in {:?}", arg)))
    });
    let _ = ctx.ctx.set_function("shl".to_string(), shl);
}

/// As `install_shift_left`, for `shr` and `checked_shift_right`.
#[verifier::external_body]
pub(crate) fn install_shift_right(ctx: &mut FeatureContext)
    ensures
        context_variables(*final(ctx)) == context_variables(*old(ctx)),
        context_functions(*final(ctx)) == context_functions(*old(ctx)).insert("shr"@),
{
    let shr = Function::new(|arg: &Value<DefaultNumericTypes>| {
        let t = arg.as_fixed_len_tuple(2)?;
        checked_shift_right(t[0].as_int()?, t[1].as_int()?).map(Value::Int).ok_or_else(||
            EvalexprError::CustomMessage(format!("shr: shift amount out of range in {:?}", arg)))
    });
    let _ = ctx.ctx.set_function("shr".to_string(), shr);
}

/// `set_function` with a function made by `Function::new`: installs
/// `math::abs`, which gives a float's absolute value by `EvalexprFloat::abs`
/// as the builtin does, hands an integer to `checked_abs` (an error message
/// for `i64::MIN`, where the builtin panics), and refuses anything else with
/// the builtin's error. The contract claims that the variables are untouched
/// and that `math::abs` is installed.
#[verifier::external_body]
pub(crate) fn install_abs(ctx: &mut FeatureContext)
    ensures
        context_variables(*final(ctx)) == context_variables(*old(ctx)),
        context_functions(*final(ctx)) == context_functions(*old(ctx)).insert("math::abs"@),
{
    let abs = Function::new(|arg: &Value<DefaultNumericTypes>| match arg {
        Value::Float(f) => Ok(Value::Float(EvalexprFloat::<DefaultNumericTypes>::abs(f))),
        Value::Int(i) => checked_abs(*i).map(Value::Int).ok_or_else(||
            EvalexprError::CustomMessage(format!("math::abs: no absolute value of {}", i))),
        _ => Err(EvalexprError::expected_number(arg.clone())),
    });
    let _ = ctx.ctx.set_function("math::abs".to_string(), abs);
}

/// `set_function` with a function made by `Function::new`: installs
/// `str::substring`, which takes a string and one or two integers as the
/// builtin does (`as_ranged_len_tuple`, `as_string`, `as_int`) and hands
/// them to `checked_substring`; an offset out of bounds gives the builtin's
/// `OutOfBoundsAccess`, one inside a character an error message where the
/// builtin panics. The contract claims that the variables are untouched
/// and that `str::substring` is installed.
#[verifier::external_body]
pub(crate) fn install_substring(ctx: &mut FeatureContext)
    ensures
        context_variables(*final(ctx)) == context_variables(*old(ctx)),
        context_functions(*final(ctx)) == context_functions(*old(ctx)).insert("str::substring"@),
{
    let substring = Function::new(|arg: &Value<DefaultNumericTypes>| {
        let t = arg.as_ranged_len_tuple(2..=3)?;
        let (subject, start) = (t[0].as_string()?, t[1].as_int()?);
        let end = match t.get(2) { Some(e) => Some(e.as_int()?), None => None };
        match checked_substring(&subject, start, end) {
            Ok(s) => Ok(Value::String(s)),
            Err(SubstringError::OutOfBounds) => Err(EvalexprError::OutOfBoundsAccess),
            Err(SubstringError::NotCharBoundary) => Err(EvalexprError::CustomMessage(
                format!("str::substring: offset inside a character in {:?}", arg))),
        }
    });
    let _ = ctx.ctx.set_function("str::substring".to_string(), substring);
}

/// Installs the functions of this library (`library_functions`).
pub(crate) fn install_library_functions(ctx: &mut FeatureContext)
    ensures
        context_variables(*final(ctx)) == context_variables(*old(ctx)),
        context_functions(*final(ctx)) == context_functions(*old(ctx)).union(library_functions()),
{
    install_selector(ctx);
    install_shift_left(ctx);
    install_shift_right(ctx);
    install_abs(ctx);
    install_substring(ctx);
    assert(context_functions(*ctx) =~= context_functions(*old(ctx)).union(library_functions()));
}

/// `ContextWithMutableVariables::set_value` of `HashMapContext`: a name that
/// is new, or holds a value of the same kind, gets the value and `true` comes
/// back; a name that holds a value of another kind keeps it and `false` comes
/// back. Functions are untouched.
#[verifier::external_body]
pub(crate) fn set_variable(ctx: &mut FeatureContext, name: String, value: &FeatureValue) -> (r: bool)
    ensures
        r == (!context_variables(*old(ctx)).contains_key(name@)
            || same_kind(context_variables(*old(ctx))[name@], value@)),
        r ==> context_variables(*final(ctx)) == context_variables(*old(ctx)).insert(name@, value@),
        !r ==> context_variables(*final(ctx)) == context_variables(*old(ctx)),
        context_functions(*final(ctx)) == context_functions(*old(ctx)),
{
    let v = match value {
        FeatureValue::Int(i) => Value::Int(*i),
        FeatureValue::Real(b) => Value::Float(<<DefaultNumericTypes as EvalexprNumericTypes>::Float>::from_bits(*b)),
        FeatureValue::Bool(b) => Value::Boolean(*b),
        FeatureValue::Text(s) => Value::String(s.clone()),
    };
    ctx.ctx.set_value(name, v).is_ok()
}

/// `Context::get_value` of `HashMapContext`: the value that the name holds,
/// converted back variant by variant. Only `set_variable` stores variables,
/// so every stored value is one of the four kinds converted here.
#[verifier::external_body]
pub(crate) fn get_variable(ctx: &FeatureContext, name: &str) -> (r: Option<FeatureValue>)
    ensures
        r is Some == context_variables(*ctx).contains_key(name@),
        r is Some ==> r->Some_0@ == context_variables(*ctx)[name@],
{
    match ctx.ctx.get_value(name) {
        Some(Value::Int(i)) => Some(FeatureValue::Int(*i)),
        Some(Value::Float(f)) => Some(FeatureValue::Real(f.to_bits())),
        Some(Value::Boolean(b)) => Some(FeatureValue::Bool(*b)),
        Some(Value::String(s)) => Some(FeatureValue::Text(s.clone())),
        _ => None,
    }
}

/// `evalexpr::eval_with_context`: evaluates `expr` in the context. The
/// contract claims only that the outcome is one that evaluating this text
/// in a context with these variables and functions can give; it does not
/// fix which. A builtin that can panic is named only where the context
/// holds the function of this library of that name, which `evalexpr` calls
/// in its place (a function of the context comes before a builtin). An
/// expression that does not parse is refused before anything is evaluated
/// (the parse is the one of `build_operator_tree`), so only the identifiers
/// of one that parses matter.
#[verifier::external_body]
pub(crate) fn evaluate(ctx: &FeatureContext, expr: &str) -> (r: Result<ConditionValue, String>)
    requires
        forall|n: Seq<char>| #[trigger] required_identifiers(expr@).contains(n) && panicking_builtin(n)
            ==> context_functions(*ctx).contains(n),
    ensures
        evaluation_outcome(expr@, context_variables(*ctx), context_functions(*ctx), outcome_view(r)),
{
    match eval_with_context(expr, &ctx.ctx) {
        Ok(Value::Boolean(b)) => Ok(ConditionValue::Boolean(b)),
        Ok(Value::Int(i)) => Ok(ConditionValue::Int(i)),
        Ok(Value::Float(f)) => Ok(ConditionValue::Real(f.to_bits())),
        Ok(_) => Ok(ConditionValue::Other),
        Err(e) => Err(e.to_string()),
    }
}

/// `evalexpr::build_operator_tree` followed by `Node::iter_identifiers` on
/// the tree it gives; the tree never leaves this function. The contract
/// names the identifiers (`expression_identifiers`).
#[verifier::external_body]
pub(crate) fn identifiers_of(expr: &str) -> (r: Option<Vec<String>>)
    ensures
        r is Some == expression_identifiers(expr@) is Some,
        r is Some ==> expression_identifiers(expr@)->Some_0 == r->Some_0@.map_values(|s: String| s@),
{
    build_operator_tree::<DefaultNumericTypes>(expr)
        .ok()
        .map(|tree| tree.iter_identifiers().map(|s| s.to_string()).collect())
}

/// std's `round` for 64-bit floats, on the float with bit pattern `bits`,
/// converted to `i64` by `as`; the result is named (`rounded`).
#[verifier::external_body]
pub(crate) fn round_real(bits: u64) -> (r: i64)
    ensures
        r == rounded(bits),
{
    <<DefaultNumericTypes as EvalexprNumericTypes>::Float>::from_bits(bits).round() as i64
}

/// The number that `sel(..)` gives for its argument: `true` is 1 and
/// `false` 0, an integer is itself, a real is rounded to the nearest
/// integer, a non-empty string is 1 and the empty string 0. Any other
/// argument is refused (`None`).
pub fn select_number(input: &SelectorInput) -> (r: Option<i64>)
    ensures
        r == match *input {
            SelectorInput::Boolean(b) => Some(if b { 1i64 } else { 0i64 }),
            SelectorInput::Int(i) => Some(i),
            SelectorInput::Real(bits) => Some(rounded(bits)),
            SelectorInput::Text(s) => Some(if s@.len() == 0 { 0i64 } else { 1i64 }),
            SelectorInput::Other => None,
        },
{
    match input {
        SelectorInput::Boolean(b) => Some(if *b { 1 } else { 0 }),
        SelectorInput::Int(i) => Some(*i),
        SelectorInput::Real(bits) => Some(round_real(*bits)),
        SelectorInput::Text(s) => Some(if s.as_str().is_empty() { 0 } else { 1 }),
        SelectorInput::Other => None,
    }
}

} // verus!
