//! Attaching the boundary driver to a function or a closure: the definition is
//! read, refused where no unwinding can be driven through it, and otherwise
//! rewritten so that its body runs under the driver.
//!
//! Source text goes in and source text comes out. Reading a definition and
//! putting a new body into it is syn's work; which definitions are refused and
//! what the new body says is decided here.
//!
//! syn and proc-macro2 are built without their `proc-macro` feature, so they
//! lex and print with their own code wherever this runs, and what they make of
//! a text depends on the text alone.

use quote::ToTokens;
use vstd::prelude::*;
use vstd::string::StringExecFns;

verus! {

/// What `syn::parse_str::<syn::ItemFn>` makes of `code`: nothing where it
/// fails, else whether the signature is `const`, whether it is `async`,
/// whether it ends in a variadic parameter, and the block as text.
pub uninterp spec fn function_parse(code: Seq<char>) -> Option<(bool, bool, bool, Seq<char>)>;

/// What `syn::parse_str::<syn::ExprClosure>` makes of `code`: the message of
/// its error where it fails, else whether the closure is `const`, whether it
/// is `async`, and the body as text.
pub uninterp spec fn closure_parse(code: Seq<char>) -> Result<(bool, bool, Seq<char>), Seq<char>>;

/// The text of the function `code` with `block` in place of its block, as syn
/// parses the two and prints the result; nothing where either does not parse.
pub uninterp spec fn function_with_block(code: Seq<char>, block: Seq<char>) -> Option<Seq<char>>;

/// The text of the closure `code` with `body` in place of its body, as syn
/// parses the two and prints the result; nothing where either does not parse.
pub uninterp spec fn closure_with_body(code: Seq<char>, body: Seq<char>) -> Option<Seq<char>>;

/// The text of the `compile_error!` invocation that syn renders an error with
/// the message `message` as.
pub uninterp spec fn compile_error_tokens(message: Seq<char>) -> Seq<char>;

/// Calls `syn::parse_str::<syn::ItemFn>` and takes from the parsed function
/// the three marks of its signature and the text of its block. The contract
/// only names the outcome; it claims nothing of which texts parse.
#[verifier::external_body]
fn parse_function(code: &str) -> (r: Option<(bool, bool, bool, String)>)
    ensures
        match r {
            Some(parts) => function_parse(code@) == Some(
                (parts.0, parts.1, parts.2, parts.3@),
            ),
            None => function_parse(code@).is_none(),
        },
{
    let item = syn::parse_str::<syn::ItemFn>(code).ok()?;
    Some(
        (
            item.sig.constness.is_some(),
            item.sig.asyncness.is_some(),
            item.sig.variadic.is_some(),
            item.block.to_token_stream().to_string(),
        ),
    )
}

/// Calls `syn::parse_str::<syn::ExprClosure>` and takes from the parsed
/// closure its two marks and the text of its body, or from the error its
/// message. The contract only names the outcome.
#[verifier::external_body]
fn parse_closure(code: &str) -> (r: Result<(bool, bool, String), String>)
    ensures
        match r {
            Ok(parts) => closure_parse(code@) == Ok::<(bool, bool, Seq<char>), Seq<char>>(
                (parts.0, parts.1, parts.2@),
            ),
            Err(message) => closure_parse(code@) == Err::<(bool, bool, Seq<char>), Seq<char>>(
                message@,
            ),
        },
{
    match syn::parse_str::<syn::ExprClosure>(code) {
        Ok(closure) => Ok(
            (
                closure.constness.is_some(),
                closure.asyncness.is_some(),
                closure.body.to_token_stream().to_string(),
            ),
        ),
        Err(error) => Err(error.to_string()),
    }
}

/// Has syn parse `code` as a function and `block` as a block, puts the block
/// into the function and prints it. The contract only names the outcome.
#[verifier::external_body]
fn replace_function_block(code: &str, block: &str) -> (r: Option<String>)
    ensures
        match r {
            Some(text) => function_with_block(code@, block@) == Some(text@),
            None => function_with_block(code@, block@).is_none(),
        },
{
    let item = syn::parse_str::<syn::ItemFn>(code).ok()?;
    let block = syn::parse_str::<syn::Block>(block).ok()?;
    Some(syn::ItemFn { block: Box::new(block), ..item }.into_token_stream().to_string())
}

/// Has syn parse `code` as a closure and `body` as an expression, puts the
/// expression into the closure as its body and prints it. The contract only
/// names the outcome.
#[verifier::external_body]
fn replace_closure_body(code: &str, body: &str) -> (r: Option<String>)
    ensures
        match r {
            Some(text) => closure_with_body(code@, body@) == Some(text@),
            None => closure_with_body(code@, body@).is_none(),
        },
{
    let closure = syn::parse_str::<syn::ExprClosure>(code).ok()?;
    let body = syn::parse_str::<syn::Expr>(body).ok()?;
    Some(syn::ExprClosure { body: Box::new(body), ..closure }.into_token_stream().to_string())
}

/// Calls `syn::Error::new` at the call site's span and
/// `syn::Error::into_compile_error`, and prints the tokens. The contract only
/// names the outcome.
#[verifier::external_body]
fn render_error(message: &str) -> (r: String)
    ensures
        r@ == compile_error_tokens(message@),
{
    syn::Error::new(proc_macro2::Span::call_site(), message).into_compile_error().to_string()
}

/// A function definition, as far as the guard reads it.
pub ghost struct FunctionFacts {
    pub code: Seq<char>,
    pub constness: bool,
    pub asyncness: bool,
    pub variadic: bool,
    pub block: Seq<char>,
}

/// A closure, as far as the guard reads it.
pub ghost struct ClosureFacts {
    pub code: Seq<char>,
    pub constness: bool,
    pub asyncness: bool,
    pub body: Seq<char>,
}

/// Why a definition was not guarded.
pub ghost enum Refusal {
    UnexpectedAttributes(Seq<char>),
    ConstTarget,
    VariadicTarget,
    NotFnOrClosure,
    NotClosure(Seq<char>),
    Rewrite,
}

/// A function definition that syn has parsed.
pub struct Function {
    code: String,
    constness: bool,
    asyncness: bool,
    variadic: bool,
    block: String,
}

/// A closure that syn has parsed.
pub struct Closure {
    code: String,
    constness: bool,
    asyncness: bool,
    body: String,
}

/// The two kinds of definition that can be guarded.
pub enum FnOrClosure {
    Function(Function),
    Closure(Closure),
}

/// Why a definition was not guarded.
#[derive(Debug, PartialEq, Eq)]
pub enum GuardError {
    /// The attribute was given arguments; it takes none. Holds them.
    UnexpectedAttributes(String),
    /// The definition is `const`: nothing unwinds at compile time.
    ConstTarget,
    /// The function takes variadic arguments.
    VariadicTarget,
    /// The definition is neither a function nor a closure.
    NotFnOrClosure,
    /// The definition is not a closure. Holds the parser's message.
    NotClosure(String),
    /// The definition could not be put together again around its new body.
    Rewrite,
}

impl View for Function {
    type V = FunctionFacts;

    closed spec fn view(&self) -> FunctionFacts {
        FunctionFacts {
            code: self.code@,
            constness: self.constness,
            asyncness: self.asyncness,
            variadic: self.variadic,
            block: self.block@,
        }
    }
}

impl View for Closure {
    type V = ClosureFacts;

    closed spec fn view(&self) -> ClosureFacts {
        ClosureFacts {
            code: self.code@,
            constness: self.constness,
            asyncness: self.asyncness,
            body: self.body@,
        }
    }
}

impl View for GuardError {
    type V = Refusal;

    open spec fn view(&self) -> Refusal {
        match self {
            GuardError::UnexpectedAttributes(attr) => Refusal::UnexpectedAttributes(attr@),
            GuardError::ConstTarget => Refusal::ConstTarget,
            GuardError::VariadicTarget => Refusal::VariadicTarget,
            GuardError::NotFnOrClosure => Refusal::NotFnOrClosure,
            GuardError::NotClosure(message) => Refusal::NotClosure(message@),
            GuardError::Rewrite => Refusal::Rewrite,
        }
    }
}

/// A guarded definition or a refusal, as text.
pub open spec fn outcome_view(outcome: Result<String, GuardError>) -> Result<Seq<char>, Refusal> {
    match outcome {
        Ok(text) => Ok(text@),
        Err(error) => Err(error@),
    }
}

impl FunctionFacts {
    /// Whether this is what syn makes of its own text.
    pub open spec fn parsed(self) -> bool {
        function_parse(self.code) == Some(
            (self.constness, self.asyncness, self.variadic, self.block),
        )
    }
}

impl ClosureFacts {
    /// Whether this is what syn makes of its own text.
    pub open spec fn parsed(self) -> bool {
        closure_parse(self.code) == Ok::<(bool, bool, Seq<char>), Seq<char>>(
            (self.constness, self.asyncness, self.body),
        )
    }
}

impl Refusal {
    /// The message that tells the author of the definition what is wrong.
    pub open spec fn message(self) -> Seq<char> {
        match self {
            Refusal::UnexpectedAttributes(attr) => "Unexpected attributes \""@ + attr + "\""@,
            Refusal::ConstTarget => "can't drive try catch logic in const"@,
            Refusal::VariadicTarget => "using variadic arguments would cause UB!!!"@,
            Refusal::NotFnOrClosure => "Expected either a function or closure"@,
            Refusal::NotClosure(message) => message,
            Refusal::Rewrite => "the guarded body could not be put in place"@,
        }
    }
}

/// What is to be made of the text of a definition: the function that it
/// parses as, else the closure that it parses as, else a refusal.
pub open spec fn definition_of(code: Seq<char>) -> Result<
    Result<FunctionFacts, ClosureFacts>,
    Refusal,
> {
    match function_parse(code) {
        Some(parts) => Ok(
            Ok(
                FunctionFacts {
                    code,
                    constness: parts.0,
                    asyncness: parts.1,
                    variadic: parts.2,
                    block: parts.3,
                },
            ),
        ),
        None => match closure_parse(code) {
            Ok(parts) => Ok(
                Err(ClosureFacts { code, constness: parts.0, asyncness: parts.1, body: parts.2 }),
            ),
            Err(_) => Err(Refusal::NotFnOrClosure),
        },
    }
}

/// The body that runs `body` under the boundary driver. A synchronous body is
/// handed to the driver as a closure. A suspendable body is pinned as a future
/// and polled, each poll of it under a driver of its own, so that no unwind
/// outlasts the step in which it began.
pub open spec fn guarded_body(asyncness: bool, body: Seq<char>) -> Seq<char> {
    if asyncness {
        "{ let mut fut = ::core::pin::pin!(async { "@ + body
            + " }); ::core::future::poll_fn(move |cx| { ::rust_try_catch::__throw_driver(|| { ::core::future::Future::poll(::core::pin::Pin::as_mut(&mut fut), cx) }) }).await }"@
    } else {
        "::rust_try_catch::__throw_driver(|| "@ + body + ")"@
    }
}

/// The block that holds the guarded body of a function.
pub open spec fn guarded_block(asyncness: bool, block: Seq<char>) -> Seq<char> {
    "{ "@ + guarded_body(asyncness, block) + " }"@
}

/// The guarded form of a function: refused where the function is `const`,
/// then where it is variadic; else the function with the guarded block.
pub open spec fn wrapped_function(function: FunctionFacts) -> Result<Seq<char>, Refusal> {
    if function.constness {
        Err(Refusal::ConstTarget)
    } else if function.variadic {
        Err(Refusal::VariadicTarget)
    } else {
        match function_with_block(
            function.code,
            guarded_block(function.asyncness, function.block),
        ) {
            Some(text) => Ok(text),
            None => Err(Refusal::Rewrite),
        }
    }
}

/// The guarded form of a closure: refused where the closure is `const`; else
/// the closure with the guarded body.
pub open spec fn wrapped_closure(closure: ClosureFacts) -> Result<Seq<char>, Refusal> {
    if closure.constness {
        Err(Refusal::ConstTarget)
    } else {
        match closure_with_body(closure.code, guarded_body(closure.asyncness, closure.body)) {
            Some(text) => Ok(text),
            None => Err(Refusal::Rewrite),
        }
    }
}

/// What the attribute makes of a definition: refused where it was given
/// arguments, else the guarded form of the function or closure that the text
/// holds.
pub open spec fn guarded(attr: Seq<char>, item: Seq<char>) -> Result<Seq<char>, Refusal> {
    if attr.len() > 0 {
        Err(Refusal::UnexpectedAttributes(attr))
    } else {
        match definition_of(item) {
            Ok(Ok(function)) => wrapped_function(function),
            Ok(Err(closure)) => wrapped_closure(closure),
            Err(refusal) => Err(refusal),
        }
    }
}

/// What the closure form of the guard makes of a definition: the guarded form
/// of the closure that the text holds, or a refusal with the parser's message.
pub open spec fn guarded_closure(item: Seq<char>) -> Result<Seq<char>, Refusal> {
    match closure_parse(item) {
        Ok(parts) => wrapped_closure(
            ClosureFacts { code: item, constness: parts.0, asyncness: parts.1, body: parts.2 },
        ),
        Err(message) => Err(Refusal::NotClosure(message)),
    }
}

/// The text that stands in the definition's place: its guarded form, or a
/// compile error with the refusal's message.
pub open spec fn expansion(outcome: Result<Seq<char>, Refusal>) -> Seq<char> {
    match outcome {
        Ok(text) => text,
        Err(refusal) => compile_error_tokens(refusal.message()),
    }
}

impl GuardError {
    /// The message that tells the author of the definition what is wrong.
    pub fn message(&self) -> (r: String)
        ensures
            r@ == self@.message(),
    {
        match self {
            GuardError::UnexpectedAttributes(attr) => {
                let mut text = String::from_str("Unexpected attributes \"");
                text.append(attr.as_str());
                text.append("\"");
                text
            },
            GuardError::ConstTarget => String::from_str("can't drive try catch logic in const"),
            GuardError::VariadicTarget => String::from_str(
                "using variadic arguments would cause UB!!!",
            ),
            GuardError::NotFnOrClosure => String::from_str(
                "Expected either a function or closure",
            ),
            GuardError::NotClosure(message) => message.clone(),
            GuardError::Rewrite => String::from_str("the guarded body could not be put in place"),
        }
    }

    /// The refusal as a compile error that carries its message.
    pub fn into_compile_error(&self) -> (r: String)
        ensures
            r@ == compile_error_tokens(self@.message()),
    {
        let message = self.message();
        render_error(message.as_str())
    }
}

impl Function {
    #[verifier::type_invariant]
    spec fn as_parsed(self) -> bool {
        self@.parsed()
    }

    /// Reads a function definition from its text, where syn parses it as one.
    pub fn parse(code: &str) -> (r: Option<Function>)
        ensures
            match r {
                Some(function) => definition_of(code@) == Ok::<
                    Result<FunctionFacts, ClosureFacts>,
                    Refusal,
                >(Ok(function@)),
                None => function_parse(code@).is_none(),
            },
    {
        match parse_function(code) {
            Some(parts) => Some(
                Function {
                    code: String::from_str(code),
                    constness: parts.0,
                    asyncness: parts.1,
                    variadic: parts.2,
                    block: parts.3,
                },
            ),
            None => None,
        }
    }

    /// The text that the function was read from; the function is what syn
    /// makes of that text.
    pub fn code(&self) -> (r: &str)
        ensures
            r@ == self@.code,
            self@.parsed(),
    {
        proof {
            use_type_invariant(self);
        }
        self.code.as_str()
    }

    /// Whether the function is `const`.
    pub fn is_const(&self) -> (r: bool)
        ensures
            r == self@.constness,
    {
        self.constness
    }

    /// Whether the function is `async`.
    pub fn is_async(&self) -> (r: bool)
        ensures
            r == self@.asyncness,
    {
        self.asyncness
    }

    /// Whether the function takes variadic arguments.
    pub fn is_variadic(&self) -> (r: bool)
        ensures
            r == self@.variadic,
    {
        self.variadic
    }

    /// The function's block, as text.
    pub fn block(&self) -> (r: &str)
        ensures
            r@ == self@.block,
    {
        self.block.as_str()
    }
}

impl Closure {
    #[verifier::type_invariant]
    spec fn as_parsed(self) -> bool {
        self@.parsed()
    }

    /// Reads a closure from its text, where syn parses it as one; else hands
    /// back the message of syn's error.
    pub fn parse(code: &str) -> (r: Result<Closure, String>)
        ensures
            match r {
                Ok(closure) => closure@.code == code@ && closure@.parsed(),
                Err(message) => closure_parse(code@) == Err::<(bool, bool, Seq<char>), Seq<char>>(
                    message@,
                ),
            },
    {
        match parse_closure(code) {
            Ok(parts) => Ok(
                Closure {
                    code: String::from_str(code),
                    constness: parts.0,
                    asyncness: parts.1,
                    body: parts.2,
                },
            ),
            Err(message) => Err(message),
        }
    }

    /// The text that the closure was read from; the closure is what syn makes
    /// of that text.
    pub fn code(&self) -> (r: &str)
        ensures
            r@ == self@.code,
            self@.parsed(),
    {
        proof {
            use_type_invariant(self);
        }
        self.code.as_str()
    }

    /// Whether the closure is `const`.
    pub fn is_const(&self) -> (r: bool)
        ensures
            r == self@.constness,
    {
        self.constness
    }

    /// Whether the closure is `async`.
    pub fn is_async(&self) -> (r: bool)
        ensures
            r == self@.asyncness,
    {
        self.asyncness
    }

    /// The closure's body, as text.
    pub fn body(&self) -> (r: &str)
        ensures
            r@ == self@.body,
    {
        self.body.as_str()
    }
}

impl FnOrClosure {
    /// Reads a definition from its text: as a function where syn parses it as
    /// one, else as a closure where syn parses it as one, else not at all.
    pub fn parse(code: &str) -> (r: Result<FnOrClosure, GuardError>)
        ensures
            match r {
                Ok(FnOrClosure::Function(function)) => definition_of(code@) == Ok::<
                    Result<FunctionFacts, ClosureFacts>,
                    Refusal,
                >(Ok(function@)),
                Ok(FnOrClosure::Closure(closure)) => definition_of(code@) == Ok::<
                    Result<FunctionFacts, ClosureFacts>,
                    Refusal,
                >(Err(closure@)),
                Err(error) => definition_of(code@) == Err::<
                    Result<FunctionFacts, ClosureFacts>,
                    Refusal,
                >(error@),
            },
    {
        if let Some(function) = Function::parse(code) {
            return Ok(FnOrClosure::Function(function));
        }
        if let Ok(closure) = Closure::parse(code) {
            return Ok(FnOrClosure::Closure(closure));
        }
        Err(GuardError::NotFnOrClosure)
    }
}

/// Writes the body that runs `body` under the boundary driver: directly where
/// the definition is synchronous, poll by poll where it is `async`.
pub fn throw_guard_body(asyncness: bool, body: &str) -> (r: String)
    ensures
        r@ == guarded_body(asyncness, body@),
{
    if asyncness {
        let mut text = String::from_str("{ let mut fut = ::core::pin::pin!(async { ");
        text.append(body);
        text.append(
            " }); ::core::future::poll_fn(move |cx| { ::rust_try_catch::__throw_driver(|| { ::core::future::Future::poll(::core::pin::Pin::as_mut(&mut fut), cx) }) }).await }",
        );
        text
    } else {
        let mut text = String::from_str("::rust_try_catch::__throw_driver(|| ");
        text.append(body);
        text.append(")");
        text
    }
}

/// Guards a closure: refuses one that is `const`, else puts the guarded body
/// in place of its body.
pub fn wrap_closure(closure: &Closure) -> (r: Result<String, GuardError>)
    ensures
        outcome_view(r) == wrapped_closure(closure@),
{
    if closure.is_const() {
        return Err(GuardError::ConstTarget);
    }
    let body = throw_guard_body(closure.is_async(), closure.body());
    match replace_closure_body(closure.code(), body.as_str()) {
        Some(text) => Ok(text),
        None => Err(GuardError::Rewrite),
    }
}

/// Guards a function: refuses one that is `const` or variadic, else puts the
/// guarded body, in a block, in place of its block.
pub fn wrap_func(input: &Function) -> (r: Result<String, GuardError>)
    ensures
        outcome_view(r) == wrapped_function(input@),
{
    if input.is_const() {
        return Err(GuardError::ConstTarget);
    }
    if input.is_variadic() {
        return Err(GuardError::VariadicTarget);
    }
    let body = throw_guard_body(input.is_async(), input.block());
    let mut block = String::from_str("{ ");
    block.append(body.as_str());
    block.append(" }");
    assert(block@ =~= guarded_block(input@.asyncness, input@.block));
    match replace_function_block(input.code(), block.as_str()) {
        Some(text) => Ok(text),
        None => Err(GuardError::Rewrite),
    }
}

/// Guards the function or closure that `item` holds, or says why not. `attr`
/// holds the attribute's arguments, of which there must be none.
pub fn guard_item(attr: &str, item: &str) -> (r: Result<String, GuardError>)
    ensures
        outcome_view(r) == guarded(attr@, item@),
{
    if !attr.is_empty() {
        return Err(GuardError::UnexpectedAttributes(String::from_str(attr)));
    }
    match FnOrClosure::parse(item) {
        Ok(FnOrClosure::Function(function)) => wrap_func(&function),
        Ok(FnOrClosure::Closure(closure)) => wrap_closure(&closure),
        Err(error) => Err(error),
    }
}

/// Guards the closure that `item` holds, or says why not.
pub fn guard_closure(item: &str) -> (r: Result<String, GuardError>)
    ensures
        outcome_view(r) == guarded_closure(item@),
{
    match Closure::parse(item) {
        Ok(closure) => wrap_closure(&closure),
        Err(message) => Err(GuardError::NotClosure(message)),
    }
}

/// The attribute form of the guard. The text that it returns stands in the
/// place of `item`: the guarded function or closure, or a compile error that
/// says why the definition cannot be guarded.
pub fn throw_guard(attr: &str, item: &str) -> (r: String)
    ensures
        r@ == expansion(guarded(attr@, item@)),
{
    match guard_item(attr, item) {
        Ok(text) => text,
        Err(error) => error.into_compile_error(),
    }
}

/// The closure form of the guard. The text that it returns stands in the place
/// of `item`: the guarded closure, or a compile error that says why the
/// closure cannot be guarded.
pub fn closure_throw_guard(item: &str) -> (r: String)
    ensures
        r@ == expansion(guarded_closure(item@)),
{
    match guard_closure(item) {
        Ok(text) => text,
        Err(error) => error.into_compile_error(),
    }
}

} // verus!
